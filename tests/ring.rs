use firefly_runtime::RingBuf;

#[test]
fn test_ring_buf() {
    let mut b: RingBuf<i32> = RingBuf::new();
    for i in 0..20 {
        assert_eq!(b.get(i), None);
    }
    for i in 0..20 {
        b.insert(i, 60 + i as i32);
    }
    // only the current frame (0) and 2 frames ahead must be inserted
    assert_eq!(b.get(0), Some(60));
    assert_eq!(b.get(1), Some(61));
    assert_eq!(b.get(2), Some(62));
    assert_eq!(b.get(3), None);

    // advance 10 frames forward
    for _ in 0..10 {
        b.advance();
    }
    assert_eq!(b.frame(), 10);
    // all existing old frames must be ignored
    for i in 0..20 {
        assert_eq!(b.get(i), None);
    }
    // insert lots of frames, only the current frame, 2 before, and 2 after
    // must be inserted.
    for i in 0..20 {
        b.insert(i, 60 + i as i32);
    }
    for i in 0..=7 {
        assert_eq!(b.get(i), None);
    }
    assert_eq!(b.get(8), Some(68));
    assert_eq!(b.get(9), Some(69));
    assert_eq!(b.get(10), Some(70));
    assert_eq!(b.get(11), Some(71));
    assert_eq!(b.get(12), Some(72));
    for i in 13..=20 {
        assert_eq!(b.get(i), None);
    }
}

#[test]
fn ring_drift_window_at_cursor_ten() {
    let mut b: RingBuf<char> = RingBuf::new();
    for _ in 0..10 {
        b.advance();
    }
    b.insert(15, 'z');
    assert_eq!(b.get(15), None);
    b.insert(12, 'a');
    b.insert(13, 'b');
    assert_eq!(b.get(12), Some('a'));
    assert_eq!(b.get(13), None);
}

#[test]
fn ring_insert_then_get_round_trip() {
    let mut b: RingBuf<u8> = RingBuf::new();
    for _ in 0..3 {
        b.advance();
    }
    for f in 0..10usize {
        b.insert(f, f as u8);
        let got = b.get(f);
        if f.abs_diff(3) <= 2 {
            assert_eq!(got, Some(f as u8));
        } else {
            assert_eq!(got, None);
        }
    }
}

#[test]
fn ring_advance_hides_stale_frames() {
    let mut b: RingBuf<u8> = RingBuf::new();
    b.insert(0, 1);
    b.insert(1, 2);
    assert_eq!(b.get(0), Some(1));
    b.advance();
    b.advance();
    assert_eq!(b.get(0), Some(1));
    b.advance();
    assert_eq!(b.frame(), 3);
    assert_eq!(b.get(0), None);
    assert_eq!(b.get(1), Some(2));
}

#[test]
fn ring_newer_frame_takes_the_slot() {
    let mut b: RingBuf<u8> = RingBuf::new();
    b.advance();
    b.advance();
    b.insert(0, 9);
    b.insert(5, 1);
    assert_eq!(b.get(0), Some(9));
    assert_eq!(b.get(5), None);
    b.advance();
    b.insert(5, 1);
    assert_eq!(b.get(5), Some(1));
    b.advance();
    b.advance();
    assert_eq!(b.get(0), None);
    assert_eq!(b.get(5), Some(1));
}
