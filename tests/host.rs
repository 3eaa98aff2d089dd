use firefly_runtime::input::{pack_pad, read_left, NO_PAD};
use firefly_runtime::random::random_from;
use firefly_runtime::ring::RingBuf;
use firefly_runtime::{
    AudioError, Canvas, FSPeer, FrameSyncer, HostError, InputState, LogEntry, NetHandler, Pad, Rgb, State,
};

fn state() -> State {
    let mut s = State::new("joe".to_string(), "snake".to_string());
    s.has_memory = true;
    s
}

fn host_errors(s: &State) -> Vec<(&'static str, HostError)> {
    s.log
        .iter()
        .filter_map(|e| match e {
            LogEntry::Host { source, error } => Some((*source, *error)),
            _ => None,
        })
        .collect()
}

fn peer(addr: Option<u64>) -> FSPeer {
    FSPeer { addr, name: heapless::String::new(), states: RingBuf::new() }
}

fn peers(list: Vec<FSPeer>) -> heapless::Vec<FSPeer, 8> {
    let mut v = heapless::Vec::new();
    for p in list {
        assert!(v.push(p).is_ok());
    }
    v
}

fn input(buttons: [bool; 5]) -> InputState {
    InputState { pad: None, left: None, buttons }
}

#[test]
fn xorshift_from_seed_one() {
    let mut s = state();
    s.set_seed(1);
    assert_eq!(s.get_random(), 270369);
    assert_eq!(s.get_random(), 67634689);
    assert_eq!(s.get_random(), 2647435461);
    assert_eq!(s.seed, 2647435461);
}

#[test]
fn xorshift_zero_seed_acts_as_one() {
    assert_eq!(random_from(0), random_from(1));
    let mut x = 0;
    for _ in 0..1000 {
        x = random_from(x);
        assert_ne!(x, 0);
    }
}

#[test]
fn canvas_override_routes_draws() {
    let mut s = state();
    let mut memory = vec![0u8; 128];
    s.set_canvas(memory.len(), 64, 16, 8);
    assert_eq!(s.canvas, Some(Canvas::new(64, 16, 8)));
    s.draw_point(&mut memory, 0, 0, 7);
    assert_eq!(memory[64], 0x07);
    assert_eq!(memory.iter().filter(|b| **b != 0).count(), 1);
    assert_eq!(s.frame.get_pixel(0, 0), 0);
    s.unset_canvas();
    s.draw_point(&mut memory, 0, 0, 3);
    assert_eq!(memory[64], 0x07);
    assert_eq!(s.frame.get_pixel(0, 0), 3);
    assert!(s.log.is_empty());
}

#[test]
fn clear_screen_fills_the_target() {
    let mut s = state();
    let mut memory = vec![0u8; 32];
    s.clear_screen(&mut memory, 1);
    assert_eq!(s.frame.get_pixel(100, 100), 1);
    s.set_canvas(memory.len(), 8, 8, 4);
    s.clear_screen(&mut memory, 0xC);
    assert!(memory[8..16].iter().all(|b| *b == 0xCC));
    assert!(memory[..8].iter().all(|b| *b == 0));
}

#[test]
fn set_canvas_rejects_bad_regions() {
    let mut s = state();
    s.set_canvas(100, 90, 16, 8);
    assert_eq!(host_errors(&s), vec![("graphics.set_canvas", HostError::OomPointer)]);
    s.set_canvas(100, 0, 16, 3);
    assert_eq!(host_errors(&s)[1], ("graphics.set_canvas", HostError::BufferSize));
    s.set_canvas(100, 0, 16, 0);
    assert_eq!(host_errors(&s)[2], ("graphics.set_canvas", HostError::BufferSize));
    assert_eq!(s.canvas, None);
    let mut fresh = State::new("a".to_string(), "b".to_string());
    fresh.set_canvas(100, 0, 16, 8);
    assert_eq!(host_errors(&fresh), vec![("graphics.set_canvas", HostError::MemoryNotFound)]);
}

#[test]
fn canvas_outside_shrunk_memory_is_logged() {
    let mut s = state();
    s.set_canvas(128, 64, 16, 8);
    let mut small = vec![0u8; 70];
    s.draw_point(&mut small, 0, 0, 7);
    assert!(small.iter().all(|b| *b == 0));
    assert_eq!(host_errors(&s), vec![("graphics.draw_point", HostError::OomPointer)]);
}

#[test]
fn log_text_from_guest_memory() {
    let mut s = state();
    let memory = b"..hello\xff".to_vec();
    s.log_debug(&memory, 2, 5);
    assert_eq!(s.log.last(), Some(&LogEntry::AppDebug("hello".to_string())));
    s.log_error(&memory, 2, 2);
    assert_eq!(s.log.last(), Some(&LogEntry::AppError("he".to_string())));
    s.log_debug(&memory, 7, 1);
    assert_eq!(
        s.log.last(),
        Some(&LogEntry::Host { source: "misc.log_debug", error: HostError::InvalidUtf8 })
    );
    s.log_error(&memory, 4, 5);
    assert_eq!(
        s.log.last(),
        Some(&LogEntry::Host { source: "misc.log_error", error: HostError::OomPointer })
    );
    assert_eq!(s.log.len(), 4);
}

#[test]
fn out_of_memory_pointers_are_logged() {
    let mut s = state();
    let memory = vec![1u8; 16];
    s.log_debug(&memory, 10, 7);
    s.log_error(&memory, u32::MAX, 2);
    s.save_stash(&memory, 0, 16, 1);
    assert_eq!(
        host_errors(&s),
        vec![
            ("misc.log_debug", HostError::OomPointer),
            ("misc.log_error", HostError::OomPointer),
            ("net.save_stash", HostError::OomPointer),
        ]
    );
    assert_eq!(s.stash, None);
    s.save_stash(&memory, 0, 16, 0);
    assert_eq!(s.stash, Some(vec![]));
}

#[test]
fn stash_for_this_device_only() {
    let mut s = state();
    let memory = vec![5u8, 6, 7, 8];
    s.save_stash(&memory, 0, 1, 2);
    assert_eq!(s.stash, Some(vec![6, 7]));
    assert!(s.stash_dirty);
    s.save_stash(&memory, 1, 0, 4);
    assert_eq!(s.stash, Some(vec![6, 7]));
    assert_eq!(host_errors(&s), vec![("net.save_stash", HostError::RemoteStash)]);
}

#[test]
fn misc_state_changes() {
    let mut s = state();
    s.quit();
    assert!(s.exit);
    assert!(s.should_stop());
    let mut t = state();
    assert!(!t.should_stop());
    t.restart();
    assert_eq!(t.next, Some(("joe".to_string(), "snake".to_string())));
    assert_eq!(t.called, "misc.restart");
    t.set_color(2, 1, 2, 3);
    assert_eq!(t.palette[2], Rgb { r: 1, g: 2, b: 3 });
    let before = t.palette;
    t.set_color(4, 9, 9, 9);
    assert_eq!(t.palette, before);
}

#[test]
fn pad_and_buttons() {
    let mut s = state();
    assert_eq!(s.read_pad(0), NO_PAD);
    assert_eq!(s.read_pad(0), 0xFFFF_FFFF);
    assert_eq!(s.read_buttons(0), 0);
    s.sample_input(Some(InputState {
        pad: Some(Pad { x: -1, y: 2 }),
        left: None,
        buttons: [true, false, true, false, true],
    }));
    assert_eq!(s.read_pad(0), 0xFFFF_0002);
    assert_eq!(s.read_buttons(0), 0b10101);
    assert_eq!(pack_pad(Pad { x: 3, y: -2 }), 0x0003_FFFE);
    s.sample_input(Some(input([false; 5])));
    assert_eq!(s.read_pad(0), NO_PAD);
}

#[test]
fn ready_gate_and_single_update() {
    let mut sync = FrameSyncer { frame: 0, peers: peers(vec![peer(None), peer(Some(7))]) };
    assert!(!sync.ready());
    let mut s = state();
    s.net = NetHandler::FrameSyncer(sync);
    s.sample_input(Some(input([true, false, false, false, false])));
    assert!(!s.may_update());
    if let NetHandler::FrameSyncer(f) = &mut s.net {
        assert!(!f.ready());
        assert!(f.receive(7, 0, input([false, true, false, false, false])));
        assert!(!f.receive(8, 0, input([false; 5])));
        assert!(f.ready());
    }
    let mut updates = 0;
    for _ in 0..3 {
        if s.may_update() {
            updates += 1;
            s.finish_update();
        }
    }
    assert_eq!(updates, 1);
    if let NetHandler::FrameSyncer(f) = &s.net {
        assert_eq!(f.frame, 1);
        assert_eq!(f.peers[0].states.frame(), 1);
        assert_eq!(f.peers[1].states.frame(), 1);
    }
    sync = FrameSyncer { frame: 0, peers: peers(vec![]) };
    assert!(sync.ready());
}

#[test]
fn ready_counts_every_peer() {
    let mut sync = FrameSyncer { frame: 0, peers: peers(vec![peer(Some(1)), peer(None), peer(Some(2))]) };
    let count = |f: &FrameSyncer| f.peers.iter().filter(|p| p.states.get(0).is_some()).count();
    for i in 0..3 {
        assert_eq!(sync.ready(), count(&sync) == sync.peers.len());
        sync.insert_state(i, 0, input([false; 5]));
    }
    assert_eq!(count(&sync), 3);
    assert!(sync.ready());
}

#[test]
fn netplay_players() {
    let mut s = state();
    assert_eq!(s.get_me(), 0);
    assert_eq!(s.get_peers(), 1);
    let mut sync = FrameSyncer { frame: 0, peers: peers(vec![peer(Some(1)), peer(None), peer(Some(2))]) };
    sync.insert_state(2, 0, input([false, false, false, true, false]));
    s.net = NetHandler::FrameSyncer(sync);
    assert_eq!(s.get_me(), 1);
    assert_eq!(s.get_peers(), 0b111);
    s.sample_input(Some(input([true, false, false, false, false])));
    assert_eq!(s.read_buttons(1), 1);
    assert_eq!(s.read_buttons(2), 8);
    assert_eq!(s.read_buttons(0), 0);
    assert_eq!(s.read_buttons(5), 0);
    let memory = vec![1u8, 2];
    s.save_stash(&memory, 1, 0, 2);
    assert_eq!(s.stash, Some(vec![1, 2]));
    s.save_stash(&memory, 0, 0, 2);
    assert_eq!(host_errors(&s), vec![("net.save_stash", HostError::RemoteStash)]);
}

#[test]
fn audio_nodes_by_id() {
    let mut s = state();
    s.audio_reset(0);
    s.audio_reset_all(0);
    s.audio_clear(0);
    assert!(s.log.is_empty());
    assert_eq!(s.called, "audio.clear");
    s.audio_reset(3);
    s.audio_clear(1);
    s.audio_reset_all(9);
    assert_eq!(
        host_errors(&s),
        vec![
            ("audio.reset", HostError::AudioNode(AudioError::UnknownId(3))),
            ("audio.clear", HostError::AudioNode(AudioError::UnknownId(1))),
            ("audio.reset_all", HostError::AudioNode(AudioError::UnknownId(9))),
        ]
    );
    let id = s.audio.add_node(0, Box::new(firefly_audio::Sine::new(440.0, 0.0)));
    assert_eq!(id.ok(), Some(1));
    s.audio_reset(1);
    assert_eq!(host_errors(&s).len(), 3);
    s.audio_clear(0);
    s.audio_reset(1);
    assert_eq!(host_errors(&s)[3], ("audio.reset", HostError::AudioNode(AudioError::UnknownId(1))));
}

#[test]
fn resend_until_every_peer_has_the_frame() {
    let mut sync = FrameSyncer { frame: 0, peers: peers(vec![peer(Some(4)), peer(None)]) };
    assert_eq!(sync.local_state(), None);
    let mine = input([false, false, true, false, false]);
    sync.insert_state(1, 0, mine);
    assert_eq!(sync.local_state(), Some(mine));
    assert!(!sync.resend_due(10, 14));
    assert!(sync.resend_due(10, 15));
    assert!(!sync.resend_due(10, 9));
    assert!(sync.receive(4, 0, input([false; 5])));
    assert!(!sync.resend_due(10, 50));
}

#[test]
fn left_stick() {
    assert_eq!(read_left(&None), 0);
    let mut i = input([false; 5]);
    assert_eq!(read_left(&Some(i)), 0);
    i.left = Some(Pad { x: 1, y: -1 });
    assert_eq!(read_left(&Some(i)), 0x0001_FFFF);
}
