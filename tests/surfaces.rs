use firefly_runtime::canvas::{draw_canvas_pixel, fill_canvas};
use firefly_runtime::{Canvas, CanvasBuffer, CanvasIter, FrameBuffer, Rgb};

#[test]
fn frame_pixel_write_layout() {
    let mut f = FrameBuffer::with_size(4, 2);
    assert_eq!(f.as_bytes(), &[0u8, 0][..]);
    f.set_pixel(1, 0, 3);
    f.set_pixel(2, 1, 2);
    assert_eq!(f.as_bytes(), &[0b0000_1100u8, 0b0010_0000][..]);
    assert_eq!(f.get_pixel(1, 0), 3);
    assert_eq!(f.get_pixel(2, 1), 2);
    assert_eq!(f.get_pixel(0, 0), 0);
}

#[test]
fn frame_out_of_bounds_is_dropped() {
    let mut f = FrameBuffer::with_size(2, 2);
    f.set_pixel(0, 0, 1);
    let before = f.as_bytes().to_vec();
    f.set_pixel(5, 5, 3);
    f.set_pixel(-1, 0, 3);
    f.set_pixel(2, 0, 3);
    assert_eq!(f.as_bytes(), &before[..]);
}

#[test]
fn frame_round_trip_every_pixel() {
    let mut f = FrameBuffer::with_size(5, 3);
    for y in 0..3usize {
        for x in 0..5usize {
            let c = ((x + 2 * y) % 4) as u8;
            f.set_pixel(x as i32, y as i32, c);
        }
    }
    for y in 0..3usize {
        for x in 0..5usize {
            assert_eq!(f.get_pixel(x, y), ((x + 2 * y) % 4) as u8);
        }
    }
}

#[test]
fn frame_default_size_and_clear() {
    let mut f = FrameBuffer::new();
    assert_eq!(f.size(), (240, 160));
    assert_eq!(f.as_bytes().len(), 240 * 160 / 4);
    f.clear(2);
    assert!(f.as_bytes().iter().all(|b| *b == 0b1010_1010));
    assert_eq!(f.get_pixel(239, 159), 2);
}

#[test]
fn frame_expand_through_palette() {
    let mut f = FrameBuffer::with_size(2, 1);
    f.set_pixel(1, 0, 3);
    let p = [
        Rgb { r: 0, g: 0, b: 0 },
        Rgb { r: 1, g: 1, b: 1 },
        Rgb { r: 2, g: 2, b: 2 },
        Rgb { r: 9, g: 8, b: 7 },
    ];
    assert_eq!(f.expand(&p), vec![p[0], p[3]]);
}

#[test]
fn canvas_buffer_round_trip() {
    let mut c = CanvasBuffer::new(vec![0u8; 4], 4);
    assert_eq!(c.size(), (4, 2));
    c.set_pixel(1, 0, 3);
    c.set_pixel(2, 1, 0xA);
    assert_eq!(c.get_pixel(1, 0), 3);
    assert_eq!(c.get_pixel(2, 1), 0xA);
    assert_eq!(c.get_pixel(0, 0), 0);
    assert_eq!(c.into_bytes(), vec![0x30, 0x00, 0x00, 0x0A]);
}

#[test]
fn canvas_buffer_out_of_bounds_is_dropped() {
    let mut c = CanvasBuffer::new(vec![0x12, 0x34], 2);
    c.set_pixel(5, 5, 3);
    c.set_pixel(0, -1, 3);
    assert_eq!(c.into_bytes(), vec![0x12, 0x34]);
}

#[test]
fn canvas_in_memory_point() {
    let mut memory = vec![0u8; 96];
    let c = Canvas::new(64, 16, 8);
    assert!(c.fits(memory.len()));
    draw_canvas_pixel(&mut memory, &c, 0, 0, 7);
    assert_eq!(memory[64], 0x07);
    draw_canvas_pixel(&mut memory, &c, 1, 0, 0xF);
    assert_eq!(memory[64], 0xF7);
    draw_canvas_pixel(&mut memory, &c, 8, 0, 1);
    draw_canvas_pixel(&mut memory, &c, 0, 4, 1);
    assert_eq!(memory.iter().filter(|b| **b != 0).count(), 1);
    fill_canvas(&mut memory, &c, 3);
    assert!(memory[64..80].iter().all(|b| *b == 0x33));
    assert!(memory[..64].iter().all(|b| *b == 0));
}

#[test]
fn canvas_fit_checks() {
    assert!(!Canvas::new(64, 16, 8).fits(70));
    assert!(!Canvas::new(0, 16, 0).fits(70));
    assert!(!Canvas::new(0, 16, 3).fits(70));
    assert!(Canvas::new(0, 16, 4).fits(16));
}

#[test]
fn canvas_colors_unpack_low_nibble_first() {
    let memory = vec![0xFFu8, 0x21, 0x43, 0xEE];
    let c = Canvas::new(1, 2, 2);
    assert_eq!(c.colors(&memory), vec![1, 2, 3, 4]);
    let mut it = CanvasIter::new(&memory, 1, 2);
    assert_eq!(it.next(), Some(1));
    assert_eq!(it.next(), Some(2));
    assert_eq!(it.next(), None);
}
