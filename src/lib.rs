//! Host runtime core of a handheld console that runs WebAssembly games:
//! frame-keyed ring buffers for lock-step netplay, packed pixel surfaces,
//! the host-call state logic and the import table.

pub mod audio;
pub mod canvas;
pub mod device;
pub mod error_scene;
pub mod frame_buffer;
pub mod input;
pub mod linker;
pub mod net;
pub mod random;
pub mod ring;
pub mod runtime;
pub mod state;

pub use audio::AudioError;
pub use canvas::{Canvas, CanvasBuffer, CanvasIter};
pub use device::{Storage, Timer};
pub use error_scene::{ErrorScene, RenderPlan};
pub use frame_buffer::{FrameBuffer, Rgb};
pub use input::{InputState, Pad};
pub use linker::{HostFn, LinkError, resolve, populate_externals};
pub use net::{Connection, FSPeer, FrameSyncer, Peer};
pub use ring::RingBuf;
pub use runtime::{sleep_for, start_sequence, StartFn};
pub use state::{HostError, LogEntry, NetHandler, State};
