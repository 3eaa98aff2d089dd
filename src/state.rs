use vstd::prelude::*;
use vstd::string::StringSliceAdditionalSpecFns;
use vstd::utf8::valid_utf8;
use crate::audio::{self, AudioError, node_paths};
use crate::canvas::{Canvas, canvas_pixel_written, draw_canvas_pixel, fill_byte, fill_canvas};
use crate::frame_buffer::{FrameBuffer, Rgb};
use crate::input::{self, InputState};
use crate::net::{Connection, FrameSyncer, local_index, peers_of, MAX_PEERS};
use crate::random::{next_random, random_from};
use vstd::arithmetic::power2::{pow2, lemma2_to64};

verus! {

/// A misuse of the console API by the guest. It is logged, and the host
/// call returns a neutral value.
#[derive(Clone, Copy, Debug, PartialEq, Eq, Structural)]
pub enum HostError {
    /// The guest's memory is not known yet.
    MemoryNotFound,
    /// A pointer or a length reaches past the end of the guest's memory.
    OomPointer,
    /// A buffer's size does not fit what the call needs.
    BufferSize,
    /// Text that is not valid UTF-8.
    InvalidUtf8,
    /// A stash was given for a peer other than this device.
    RemoteStash,
    /// An audio node could not be reached or added.
    AudioNode(AudioError),
}

/// A line for the device's log.
#[derive(Debug, PartialEq, Eq)]
pub enum LogEntry {
    /// A misuse by the guest, with the name of the host call.
    Host { source: &'static str, error: HostError },
    /// A debug message from the guest.
    AppDebug(String),
    /// An error message from the guest.
    AppError(String),
}

/// The network mode of the device.
pub enum NetHandler {
    /// Offline.
    Offline,
    /// Peers found, no game picked yet.
    Connection(Connection),
    /// In a game, frame by frame with the peers.
    FrameSyncer(FrameSyncer),
}

/// Where the bytes `ptr..ptr + len` of a memory of `mem_len` bytes lie, if
/// they lie inside it.
pub open spec fn guest_range(mem_len: int, ptr: u32, len: u32) -> Option<(int, int)> {
    if ptr as int + len as int <= mem_len {
        Some((ptr as int, ptr as int + len as int))
    } else {
        None
    }
}

/// Check that `ptr..ptr + len` lies inside a memory of `mem_len` bytes.
pub fn checked_range(mem_len: usize, ptr: u32, len: u32) -> (r: Option<(usize, usize)>)
    ensures
        match r {
            Some(p) => guest_range(mem_len as int, ptr, len) == Some((p.0 as int, p.1 as int)),
            None => guest_range(mem_len as int, ptr, len).is_none(),
        },
{
    let end = ptr as u64 + len as u64;
    if end <= mem_len as u64 {
        Some((ptr as usize, end as usize))
    } else {
        None
    }
}

/// Relies on `core::str::from_utf8`: it accepts exactly the valid UTF-8
/// byte strings, and the text it gives has the same bytes.
#[verifier::external_body]
fn text_of(b: &[u8]) -> (r: Option<&str>)
    ensures
        r.is_some() == valid_utf8(b@),
        r.is_some() ==> r.unwrap().spec_bytes() == b@,
{
    core::str::from_utf8(b).ok()
}

/// The per-guest state that host calls read and change.
pub struct State {
    pub author: String,
    pub app: String,
    pub frame: FrameBuffer,
    pub palette: [Rgb; 4],
    pub seed: u32,
    /// The guest's memory has been captured after start.
    pub has_memory: bool,
    pub exit: bool,
    /// The app to run next, as author and app ids.
    pub next: Option<(String, String)>,
    /// The name of the host call that runs now.
    pub called: &'static str,
    pub canvas: Option<Canvas>,
    pub input: Option<InputState>,
    pub net: NetHandler,
    pub stash: Option<Vec<u8>>,
    pub stash_dirty: bool,
    /// The tree of audio nodes.
    pub audio: firefly_audio::Manager,
    /// Lines for the device's log, oldest first.
    pub log: Vec<LogEntry>,
}

/// A guest pointer and length that reach past the end of the memory make
/// every call that reads text there log `OomPointer` and hand back nothing.
pub proof fn lemma_oom_pointer_logged(s: State, memory: Seq<u8>, ptr: u32, len: u32)
    requires
        s.has_memory,
        ptr as int + len as int > memory.len(),
    ensures
        s.guest_text(memory, ptr, len) == Err::<Seq<u8>, HostError>(HostError::OomPointer),
        guest_range(memory.len() as int, ptr, len).is_none(),
{
}

/// The palette a guest starts with.
pub open spec fn default_palette() -> Seq<Rgb> {
    seq![
        Rgb { r: 0x1A, g: 0x1C, b: 0x2C },
        Rgb { r: 0x5D, g: 0x27, b: 0x5D },
        Rgb { r: 0xB1, g: 0x3E, b: 0x53 },
        Rgb { r: 0xEF, g: 0x7D, b: 0x57 },
    ]
}

impl State {
    pub open spec fn wf(&self) -> bool {
        &&& self.frame.wf()
        &&& match &self.net {
            NetHandler::FrameSyncer(s) => s.peer_seq().len() <= MAX_PEERS,
            _ => true,
        }
    }

    /// `after` has the log lines of `self` and one more.
    pub open spec fn pushed_one(&self, after: &Self) -> bool {
        after.log@.len() == self.log@.len() + 1 && after.log@.drop_last() == self.log@
    }

    /// `after` has one more log line than `self`: `error` from the host
    /// call `source`.
    pub open spec fn logged_by(
        &self,
        after: &Self,
        source: &'static str,
        error: HostError,
    ) -> bool {
        after.log@ == self.log@.push(LogEntry::Host { source, error })
    }

    /// Whether the state is well formed, as the host calls need it.
    pub fn is_valid(&self) -> (r: bool)
        ensures
            r == self.wf(),
    {
        self.frame.is_valid() && match &self.net {
            NetHandler::FrameSyncer(s) => s.peer_count() <= MAX_PEERS,
            _ => true,
        }
    }

    /// `after` has one more log line than `self`: `error` from the call
    /// that runs now.
    pub open spec fn logged(&self, after: &Self, error: HostError) -> bool {
        after.log@ == self.log@.push(LogEntry::Host { source: self.called, error })
    }

    /// A fresh state for the app `app` of the author `author`.
    pub fn new(author: String, app: String) -> (r: Self)
        ensures
            r.wf(),
            r.author@ == author@,
            r.app@ == app@,
            r.seed == 0,
            !r.has_memory,
            !r.exit,
            r.next.is_none(),
            r.canvas.is_none(),
            r.input.is_none(),
            r.net is Offline,
            r.stash.is_none(),
            r.log@.len() == 0,
            r.palette@ == default_palette(),
            node_paths(r.audio) == seq![Seq::<u8>::empty()],
    {
        State {
            author,
            app,
            frame: FrameBuffer::new(),
            palette: [
                Rgb { r: 0x1A, g: 0x1C, b: 0x2C },
                Rgb { r: 0x5D, g: 0x27, b: 0x5D },
                Rgb { r: 0xB1, g: 0x3E, b: 0x53 },
                Rgb { r: 0xEF, g: 0x7D, b: 0x57 },
            ],
            seed: 0,
            has_memory: false,
            exit: false,
            next: None,
            called: "",
            canvas: None,
            input: None,
            net: NetHandler::Offline,
            stash: None,
            stash_dirty: false,
            audio: audio::new_audio(),
            log: Vec::new(),
        }
    }

    /// Record a misuse by the guest under the name of the running call.
    pub fn log_host_error(&mut self, error: HostError)
        ensures
            old(self).logged(&*final(self), error),
            *final(self) == (State { log: final(self).log, ..*old(self) }),
    {
        let entry = LogEntry::Host { source: self.called, error };
        self.log.push(entry);
    }

    /// `misc.set_seed`: set the seed of the random number generator.
    pub fn set_seed(&mut self, seed: u32)
        ensures
            *final(self) == (State {
                called: final(self).called,
                seed: final(self).seed,
                ..*old(self)
            }),
            final(self).seed == seed,
            final(self).called == "misc.set_seed",
    {
        self.called = "misc.set_seed";
        self.seed = seed;
    }

    /// `misc.get_random`: a pseudo-random number by xorshift, which also
    /// becomes the seed.
    pub fn get_random(&mut self) -> (r: u32)
        ensures
            *final(self) == (State {
                called: final(self).called,
                seed: final(self).seed,
                ..*old(self)
            }),
            r == next_random(old(self).seed),
            final(self).seed == r,
            final(self).called == "misc.get_random",
    {
        self.called = "misc.get_random";
        let x = random_from(self.seed);
        self.seed = x;
        x
    }

    /// `misc.quit`: stop the guest.
    pub fn quit(&mut self)
        ensures
            *final(self) == (State {
                called: final(self).called,
                exit: final(self).exit,
                ..*old(self)
            }),
            final(self).exit,
            final(self).called == "misc.quit",
    {
        self.called = "misc.quit";
        self.exit = true;
    }

    /// `misc.restart`: run the same app again from scratch.
    pub fn restart(&mut self)
        ensures
            *final(self) == (State {
                called: final(self).called,
                next: final(self).next,
                ..*old(self)
            }),
            final(self).next.is_some(),
            final(self).next.unwrap().0@ == old(self).author@,
            final(self).next.unwrap().1@ == old(self).app@,
            final(self).called == "misc.restart",
    {
        self.called = "misc.restart";
        let author = self.author.clone();
        let app = self.app.clone();
        self.next = Some((author, app));
    }

    /// The index of this device among the players: its place among the
    /// peers in a game, zero otherwise.
    pub open spec fn spec_me(&self) -> int {
        match &self.net {
            NetHandler::FrameSyncer(s) => local_index(s.peer_seq()),
            _ => 0,
        }
    }

    /// The input of `player` for the current frame: this device's own
    /// sample for itself, the state a peer sent for the others.
    pub open spec fn input_of(&self, player: u32) -> Option<InputState> {
        match &self.net {
            NetHandler::FrameSyncer(s) => if player as int == local_index(s.peer_seq()) {
                self.input
            } else if (player as int) < s.peer_seq().len() {
                s.peer_seq()[player as int].states.lookup(s.frame as int)
            } else {
                None
            },
            _ => self.input,
        }
    }

    fn player_input(&self, player: u32) -> (r: Option<InputState>)
        requires
            self.wf(),
        ensures
            r == self.input_of(player),
    {
        match &self.net {
            NetHandler::FrameSyncer(s) => {
                let me = s.local_peer();
                if player == me {
                    self.input
                } else if (player as usize) < s.peer_count() {
                    s.peer(player as usize).states.get(s.frame as usize)
                } else {
                    None
                }
            },
            _ => self.input,
        }
    }

    /// `input.read_pad`: the packed pad position of `player`, or all ones
    /// when it has none.
    pub fn read_pad(&mut self, player: u32) -> (r: u32)
        requires
            old(self).wf(),
        ensures
            *final(self) == (State { called: final(self).called, ..*old(self) }),
            r == input::read_pad_spec(old(self).input_of(player)),
            final(self).called == "input.read_pad",
    {
        self.called = "input.read_pad";
        let state = self.player_input(player);
        input::read_pad(&state)
    }

    /// `input.read_buttons`: the button bitmask of `player`, zero when it
    /// has no input.
    pub fn read_buttons(&mut self, player: u32) -> (r: u32)
        requires
            old(self).wf(),
        ensures
            *final(self) == (State { called: final(self).called, ..*old(self) }),
            r == input::read_buttons_spec(old(self).input_of(player)),
            final(self).called == "input.read_buttons",
    {
        self.called = "input.read_buttons";
        let state = self.player_input(player);
        input::read_buttons(&state)
    }

    /// `net.get_me`: the index of this device among the players.
    pub fn get_me(&mut self) -> (r: u32)
        requires
            old(self).wf(),
        ensures
            *final(self) == (State { called: final(self).called, ..*old(self) }),
            r as int == old(self).spec_me(),
            final(self).called == "net.get_me",
    {
        self.called = "net.get_me";
        match &self.net {
            NetHandler::FrameSyncer(s) => s.local_peer(),
            _ => 0,
        }
    }

    /// `net.get_peers`: one bit for each player, the lowest for the first.
    pub fn get_peers(&mut self) -> (r: u32)
        requires
            old(self).wf(),
        ensures
            *final(self) == (State { called: final(self).called, ..*old(self) }),
            r as int == match &old(self).net {
                NetHandler::FrameSyncer(s) => pow2(s.peer_seq().len()) - 1,
                _ => 1,
            },
            final(self).called == "net.get_peers",
    {
        self.called = "net.get_peers";
        match &self.net {
            NetHandler::FrameSyncer(s) => {
                let n = s.peer_count();
                let mut res: u32 = 0;
                let mut i: usize = 0;
                proof {
                    lemma2_to64();
                }
                while i < n
                    invariant
                        n <= MAX_PEERS,
                        i <= n,
                        res as int + 1 == pow2(i as nat),
                    decreases n - i,
                {
                    proof {
                        lemma2_to64();
                    }
                    res = res * 2 + 1;
                    i = i + 1;
                }
                res
            },
            _ => 1,
        }
    }

    /// `graphics.set_color`: set palette entry `index`; other indices are
    /// ignored.
    pub fn set_color(&mut self, index: u32, r: u8, g: u8, b: u8)
        ensures
            *final(self) == (State {
                called: final(self).called,
                palette: final(self).palette,
                ..*old(self)
            }),
            final(self).palette@ == if index < 4 {
                old(self).palette@.update(index as int, Rgb { r, g, b })
            } else {
                old(self).palette@
            },
            final(self).called == "graphics.set_color",
    {
        self.called = "graphics.set_color";
        if index < 4 {
            self.palette[index as usize] = Rgb { r, g, b };
        }
    }

    /// `graphics.set_canvas`: draw into `size` bytes of the guest's memory
    /// from `ptr`, as a surface `width` pixels wide, until the canvas is
    /// unset. A canvas outside the memory, or whose rows are not whole, is
    /// refused and logged.
    pub fn set_canvas(&mut self, mem_len: usize, ptr: u32, size: u32, width: u32)
        ensures
            *final(self) == (State {
                called: final(self).called,
                canvas: final(self).canvas,
                log: final(self).log,
                ..*old(self)
            }),
            final(self).called == "graphics.set_canvas",
            !old(self).has_memory ==> final(self).canvas == old(self).canvas
                && old(self).logged_by(
                &*final(self),
                "graphics.set_canvas",
                HostError::MemoryNotFound,
            ),
            old(self).has_memory && guest_range(mem_len as int, ptr, size).is_none()
                ==> final(self).canvas == old(self).canvas && old(self).logged_by(
                &*final(self),
                "graphics.set_canvas",
                HostError::OomPointer,
            ),
            old(self).has_memory && guest_range(mem_len as int, ptr, size).is_some() && (width
                == 0 || (size as int * 2) % (width as int) != 0) ==> final(self).canvas == old(
                self,
            ).canvas && old(self).logged_by(
                &*final(self),
                "graphics.set_canvas",
                HostError::BufferSize,
            ),
            old(self).has_memory && guest_range(mem_len as int, ptr, size).is_some() && width
                != 0 && (size as int * 2) % (width as int) == 0 ==> final(self).canvas == Some(
                Canvas {
                    start: ptr as usize,
                    end: (ptr as int + size as int) as usize,
                    width: width as usize,
                },
            ) && final(self).log@ == old(self).log@,
    {
        self.called = "graphics.set_canvas";
        if !self.has_memory {
            self.log_host_error(HostError::MemoryNotFound);
            return ;
        }
        let range = checked_range(mem_len, ptr, size);
        match range {
            None => {
                self.log_host_error(HostError::OomPointer);
            },
            Some(r) => {
                if width == 0 || (size as u64 * 2) % (width as u64) != 0 {
                    self.log_host_error(HostError::BufferSize);
                } else {
                    self.canvas = Some(Canvas { start: r.0, end: r.1, width: width as usize });
                }
            },
        }
    }

    /// `graphics.unset_canvas`: draw into the frame buffer again.
    pub fn unset_canvas(&mut self)
        ensures
            *final(self) == (State {
                called: final(self).called,
                canvas: final(self).canvas,
                ..*old(self)
            }),
            final(self).canvas.is_none(),
            final(self).called == "graphics.unset_canvas",
    {
        self.called = "graphics.unset_canvas";
        self.canvas = None;
    }

    /// `graphics.draw_point`: paint one pixel of the canvas, if one is set,
    /// or else of the frame buffer. The color keeps as many low bits as the
    /// surface has per pixel; a pixel off the surface is dropped. A canvas
    /// that no longer fits the memory is logged.
    pub fn draw_point(&mut self, memory: &mut [u8], x: i32, y: i32, color: u32)
        requires
            old(self).wf(),
        ensures
            *final(self) == (State {
                called: final(self).called,
                frame: final(self).frame,
                log: final(self).log,
                ..*old(self)
            }),
            final(self).wf(),
            final(self).called == "graphics.draw_point",
            final(self).canvas == old(self).canvas,
            match old(self).canvas {
                None => old(self).frame.set_pixel_result(
                    &final(self).frame,
                    x as int,
                    y as int,
                    (color % 4) as u8,
                ) && final(memory)@ == old(memory)@ && final(self).log@ == old(self).log@,
                Some(c) => final(self).frame == old(self).frame && if c.valid_for(
                    old(memory)@.len() as int,
                ) {
                    canvas_pixel_written(
                        c,
                        old(memory)@,
                        final(memory)@,
                        x as int,
                        y as int,
                        (color % 16) as u8,
                    ) && final(self).log@ == old(self).log@
                } else {
                    final(memory)@ == old(memory)@ && old(self).logged_by(
                        &*final(self),
                        "graphics.draw_point",
                        HostError::OomPointer,
                    )
                },
            },
    {
        self.called = "graphics.draw_point";
        match self.canvas {
            None => {
                self.frame.set_pixel(x, y, (color % 4) as u8);
            },
            Some(c) => {
                if c.fits(memory.len()) {
                    draw_canvas_pixel(memory, &c, x, y, (color % 16) as u8);
                } else {
                    self.log_host_error(HostError::OomPointer);
                }
            },
        }
    }

    /// `graphics.clear_screen`: paint the whole canvas, if one is set, or
    /// else the whole frame buffer, with one color.
    pub fn clear_screen(&mut self, memory: &mut [u8], color: u32)
        requires
            old(self).wf(),
        ensures
            *final(self) == (State {
                called: final(self).called,
                frame: final(self).frame,
                log: final(self).log,
                ..*old(self)
            }),
            final(self).wf(),
            final(self).called == "graphics.clear_screen",
            final(self).canvas == old(self).canvas,
            match old(self).canvas {
                None => final(memory)@ == old(memory)@ && final(self).log@ == old(self).log@
                    && final(self).frame.spec_width() == old(self).frame.spec_width()
                    && final(self).frame.spec_height() == old(self).frame.spec_height()
                    && forall|x: int, y: int|
                    old(self).frame.in_bounds(x, y) ==> #[trigger] final(self).frame.pixel(x, y)
                        == (color % 4) as u8,
                Some(c) => final(self).frame == old(self).frame && if c.valid_for(
                    old(memory)@.len() as int,
                ) {
                    final(memory)@.len() == old(memory)@.len() && final(self).log@ == old(
                        self,
                    ).log@ && forall|i: int|
                        0 <= i < old(memory)@.len() ==> #[trigger] final(memory)@[i] == if c.start
                            <= i < c.end {
                            fill_byte((color % 16) as u8)
                        } else {
                            old(memory)@[i]
                        }
                } else {
                    final(memory)@ == old(memory)@ && old(self).logged_by(
                        &*final(self),
                        "graphics.clear_screen",
                        HostError::OomPointer,
                    )
                },
            },
    {
        self.called = "graphics.clear_screen";
        match self.canvas {
            None => {
                self.frame.clear((color % 4) as u8);
            },
            Some(c) => {
                if c.fits(memory.len()) {
                    fill_canvas(memory, &c, (color % 16) as u8);
                } else {
                    self.log_host_error(HostError::OomPointer);
                }
            },
        }
    }

    /// The text the guest passes at `ptr..ptr + len`, or the misuse to log.
    pub open spec fn guest_text(&self, memory: Seq<u8>, ptr: u32, len: u32) -> Result<
        Seq<u8>,
        HostError,
    > {
        if !self.has_memory {
            Err(HostError::MemoryNotFound)
        } else {
            match guest_range(memory.len() as int, ptr, len) {
                None => Err(HostError::OomPointer),
                Some(r) => if valid_utf8(memory.subrange(r.0, r.1)) {
                    Ok(memory.subrange(r.0, r.1))
                } else {
                    Err(HostError::InvalidUtf8)
                },
            }
        }
    }

    fn read_text(&mut self, memory: &[u8], ptr: u32, len: u32) -> (r: Option<String>)
        ensures
            match old(self).guest_text(memory@, ptr, len) {
                Ok(t) => r.is_some() && r.unwrap()@ == vstd::utf8::decode_utf8(t)
                    && *final(self) == *old(self),
                Err(e) => r.is_none() && old(self).logged(&*final(self), e) && *final(self) == (
                State { log: final(self).log, ..*old(self) }),
            },
    {
        if !self.has_memory {
            self.log_host_error(HostError::MemoryNotFound);
            return None;
        }
        match checked_range(memory.len(), ptr, len) {
            None => {
                self.log_host_error(HostError::OomPointer);
                None
            },
            Some(r) => {
                let bytes = vstd::slice::slice_subrange(memory, r.0, r.1);
                match text_of(bytes) {
                    Some(t) => {
                        proof {
                            vstd::utf8::encode_utf8_decode_utf8(t@);
                        }
                        Some(t.to_owned())
                    },
                    None => {
                        self.log_host_error(HostError::InvalidUtf8);
                        None
                    },
                }
            },
        }
    }

    /// `misc.log_debug`: pass the guest's text at `ptr..ptr + len` to the
    /// device's debug log.
    pub fn log_debug(&mut self, memory: &[u8], ptr: u32, len: u32)
        ensures
            *final(self) == (State {
                called: final(self).called,
                log: final(self).log,
                ..*old(self)
            }),
            final(self).called == "misc.log_debug",
            match old(self).guest_text(memory@, ptr, len) {
                Ok(t) => old(self).pushed_one(&*final(self)) && match final(self).log@.last() {
                    LogEntry::AppDebug(s) => s@ == vstd::utf8::decode_utf8(t),
                    _ => false,
                },
                Err(e) => old(self).logged_by(&*final(self), "misc.log_debug", e),
            },
    {
        self.called = "misc.log_debug";
        if let Some(text) = self.read_text(memory, ptr, len) {
            self.log.push(LogEntry::AppDebug(text));
            assert(self.log@.drop_last() =~= old(self).log@);
        }
    }

    /// `misc.log_error`: pass the guest's text at `ptr..ptr + len` to the
    /// device's error log.
    pub fn log_error(&mut self, memory: &[u8], ptr: u32, len: u32)
        ensures
            *final(self) == (State {
                called: final(self).called,
                log: final(self).log,
                ..*old(self)
            }),
            final(self).called == "misc.log_error",
            match old(self).guest_text(memory@, ptr, len) {
                Ok(t) => old(self).pushed_one(&*final(self)) && match final(self).log@.last() {
                    LogEntry::AppError(s) => s@ == vstd::utf8::decode_utf8(t),
                    _ => false,
                },
                Err(e) => old(self).logged_by(&*final(self), "misc.log_error", e),
            },
    {
        self.called = "misc.log_error";
        if let Some(text) = self.read_text(memory, ptr, len) {
            self.log.push(LogEntry::AppError(text));
            assert(self.log@.drop_last() =~= old(self).log@);
        }
    }

    /// `net.save_stash`: keep the guest's bytes at `ptr..ptr + len` as the
    /// stash of this device. A stash for another player is logged and
    /// dropped.
    pub fn save_stash(&mut self, memory: &[u8], peer_id: u32, ptr: u32, len: u32)
        requires
            old(self).wf(),
        ensures
            *final(self) == (State {
                called: final(self).called,
                stash: final(self).stash,
                stash_dirty: final(self).stash_dirty,
                log: final(self).log,
                ..*old(self)
            }),
            final(self).called == "net.save_stash",
            !old(self).has_memory ==> final(self).stash == old(self).stash
                && final(self).stash_dirty == old(self).stash_dirty
                && old(self).logged_by(&*final(self), "net.save_stash", HostError::MemoryNotFound),
            old(self).has_memory && guest_range(memory@.len() as int, ptr, len).is_none()
                ==> final(self).stash == old(self).stash
                && final(self).stash_dirty == old(self).stash_dirty
                && old(self).logged_by(&*final(self), "net.save_stash", HostError::OomPointer),
            old(self).has_memory && guest_range(memory@.len() as int, ptr, len).is_some()
                && peer_id as int != old(self).spec_me() ==> final(self).stash == old(self).stash
                && final(self).stash_dirty == old(self).stash_dirty
                && old(self).logged_by(&*final(self), "net.save_stash", HostError::RemoteStash),
            old(self).has_memory && peer_id as int == old(self).spec_me() ==> match guest_range(
                memory@.len() as int,
                ptr,
                len,
            ) {
                Some(r) => final(self).stash.is_some() && final(self).stash.unwrap()@
                    == memory@.subrange(r.0, r.1) && final(self).stash_dirty && final(self).log@
                    == old(self).log@,
                None => true,
            },
    {
        self.called = "net.save_stash";
        if !self.has_memory {
            self.log_host_error(HostError::MemoryNotFound);
            return ;
        }
        match checked_range(memory.len(), ptr, len) {
            None => {
                self.log_host_error(HostError::OomPointer);
            },
            Some(r) => {
                let me = match &self.net {
                    NetHandler::FrameSyncer(s) => s.local_peer(),
                    _ => 0,
                };
                if peer_id != me {
                    self.log_host_error(HostError::RemoteStash);
                } else {
                    let bytes = vstd::slice::slice_subrange(memory, r.0, r.1);
                    self.stash = Some(vstd::slice::slice_to_vec(bytes));
                    self.stash_dirty = true;
                }
            },
        }
    }

    /// The guest's `update` may run this tick: always when not in a game,
    /// and in a game only once every peer has a state for the frame.
    pub fn may_update(&self) -> (r: bool)
        ensures
            r == match &self.net {
                NetHandler::FrameSyncer(s) => s.all_ready(),
                _ => true,
            },
    {
        match &self.net {
            NetHandler::FrameSyncer(s) => s.ready(),
            _ => true,
        }
    }

    /// Keep the input sampled for this tick; in a game it is also this
    /// device's state for the current frame.
    pub fn sample_input(&mut self, input: Option<InputState>)
        requires
            old(self).wf(),
        ensures
            *final(self) == (State {
                input: final(self).input,
                net: final(self).net,
                ..*old(self)
            }),
            final(self).wf(),
            final(self).input == input,
            match (&old(self).net, &final(self).net) {
                (NetHandler::FrameSyncer(a), NetHandler::FrameSyncer(b)) => b.frame == a.frame
                    && b.peer_seq().len() == a.peer_seq().len() && match input {
                    Some(i) => {
                        let me = local_index(a.peer_seq());
                        if me < a.peer_seq().len() {
                            &&& a.peer_seq()[me].states.insert_result(
                                &b.peer_seq()[me].states,
                                a.frame as usize,
                                i,
                            )
                            &&& b.peer_seq()[me].addr == a.peer_seq()[me].addr
                            &&& b.peer_seq()[me].name == a.peer_seq()[me].name
                            &&& forall|j: int|
                                0 <= j < a.peer_seq().len() && j != me
                                    ==> #[trigger] b.peer_seq()[j] == a.peer_seq()[j]
                        } else {
                            b.peer_seq() == a.peer_seq()
                        }
                    },
                    None => b.peer_seq() == a.peer_seq(),
                },
                (NetHandler::FrameSyncer(_), _) => false,
                _ => true,
            },
    {
        self.input = input;
        match &mut self.net {
            NetHandler::FrameSyncer(s) => {
                if let Some(i) = input {
                    let me = s.local_peer() as usize;
                    if me < s.peer_count() {
                        let frame = s.frame;
                        s.insert_state(me, frame, i);
                    }
                }
            },
            _ => {},
        }
    }

    /// After the guest's `update` ran: in a game, move every peer to the
    /// next frame.
    pub fn finish_update(&mut self)
        requires
            old(self).wf(),
            match &old(self).net {
                NetHandler::FrameSyncer(s) => s.frame < u32::MAX && s.in_step(),
                _ => true,
            },
        ensures
            *final(self) == (State { net: final(self).net, ..*old(self) }),
            final(self).wf(),
            match (&old(self).net, &final(self).net) {
                (NetHandler::FrameSyncer(a), NetHandler::FrameSyncer(b)) => {
                    &&& b.frame == a.frame + 1
                    &&& b.in_step()
                    &&& b.peer_seq().len() == a.peer_seq().len()
                    &&& forall|j: int|
                        0 <= j < a.peer_seq().len()
                            ==> #[trigger] a.peer_seq()[j].states.advance_result(
                            &b.peer_seq()[j].states,
                        ) && b.peer_seq()[j].addr == a.peer_seq()[j].addr
                            && b.peer_seq()[j].name == a.peer_seq()[j].name
                },
                (NetHandler::FrameSyncer(_), _) => false,
                _ => true,
            },
    {
        match &mut self.net {
            NetHandler::FrameSyncer(s) => {
                s.advance();
            },
            _ => {},
        }
    }

    /// The guest asked to quit or to run another app.
    pub fn should_stop(&self) -> (r: bool)
        ensures
            r == (self.exit || self.next.is_some()),
    {
        self.exit || self.next.is_some()
    }

    /// `audio.reset`: reset the node `id`; an unknown node is logged.
    pub fn audio_reset(&mut self, id: u32)
        ensures
            *final(self) == (State {
                called: final(self).called,
                audio: final(self).audio,
                log: final(self).log,
                ..*old(self)
            }),
            final(self).called == "audio.reset",
            (id as int) < node_paths(old(self).audio).len() ==> final(self).log@ == old(self).log@,
            (id as int) >= node_paths(old(self).audio).len() ==> old(self).logged_by(
                &*final(self),
                "audio.reset",
                HostError::AudioNode(AudioError::UnknownId(id)),
            ),
    {
        self.called = "audio.reset";
        if let Err(e) = audio::reset(&mut self.audio, id, false) {
            self.log_host_error(HostError::AudioNode(e));
        }
    }

    /// `audio.reset_all`: reset the node `id` and all the nodes under it; an
    /// unknown node is logged.
    pub fn audio_reset_all(&mut self, id: u32)
        ensures
            *final(self) == (State {
                called: final(self).called,
                audio: final(self).audio,
                log: final(self).log,
                ..*old(self)
            }),
            final(self).called == "audio.reset_all",
            (id as int) < node_paths(old(self).audio).len() ==> final(self).log@ == old(self).log@,
            (id as int) >= node_paths(old(self).audio).len() ==> old(self).logged_by(
                &*final(self),
                "audio.reset_all",
                HostError::AudioNode(AudioError::UnknownId(id)),
            ),
    {
        self.called = "audio.reset_all";
        if let Err(e) = audio::reset(&mut self.audio, id, true) {
            self.log_host_error(HostError::AudioNode(e));
        }
    }

    /// `audio.clear`: remove all children of the node `id`; an unknown node
    /// is logged.
    pub fn audio_clear(&mut self, id: u32)
        ensures
            *final(self) == (State {
                called: final(self).called,
                audio: final(self).audio,
                log: final(self).log,
                ..*old(self)
            }),
            final(self).called == "audio.clear",
            (id as int) < node_paths(old(self).audio).len() ==> final(self).log@ == old(self).log@
                && node_paths(final(self).audio) == node_paths(old(self).audio).filter(
                |p: Seq<u8>| !audio::below(p, node_paths(old(self).audio)[id as int]),
            ),
            (id as int) >= node_paths(old(self).audio).len() ==> old(self).logged_by(
                &*final(self),
                "audio.clear",
                HostError::AudioNode(AudioError::UnknownId(id)),
            ) && node_paths(final(self).audio) == node_paths(old(self).audio),
    {
        self.called = "audio.clear";
        if let Err(e) = audio::clear(&mut self.audio, id) {
            self.log_host_error(HostError::AudioNode(e));
        }
    }
}

} // verus!
