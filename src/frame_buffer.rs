use vstd::prelude::*;

verus! {

/// Width of the display in pixels.
pub const WIDTH: usize = 240;

/// Height of the display in pixels.
pub const HEIGHT: usize = 160;

/// Pixels per byte of the frame buffer.
pub const PPB: usize = 4;

/// A true color, eight bits per channel.
#[derive(Clone, Copy, Debug, PartialEq, Eq, Structural)]
pub struct Rgb {
    pub r: u8,
    pub g: u8,
    pub b: u8,
}

/// Byte that holds pixel `p` of a 2-bit surface.
pub open spec fn crumb_byte(p: int) -> int {
    p / 4
}

/// Shift of pixel `p` inside its byte of a 2-bit surface.
pub open spec fn crumb_shift(p: int) -> u8 {
    ((p % 4) * 2) as u8
}

/// The color of pixel `p` of a 2-bit surface stored in `data`.
pub open spec fn crumb_at(data: Seq<u8>, p: int) -> u8 {
    (data[crumb_byte(p)] >> crumb_shift(p)) & 3u8
}

/// `byte` with the two bits at `shift` replaced by `color`.
pub open spec fn put_crumb(byte: u8, color: u8, shift: u8) -> u8 {
    ((color << shift) | (byte & !(3u8 << shift))) as u8
}

proof fn lemma_put_crumb(byte: u8, color: u8, shift: u8, other: u8)
    requires
        color < 4,
        shift == 0 || shift == 2 || shift == 4 || shift == 6,
        other == 0 || other == 2 || other == 4 || other == 6,
        other != shift,
    ensures
        (put_crumb(byte, color, shift) >> shift) & 3u8 == color,
        (put_crumb(byte, color, shift) >> other) & 3u8 == (byte >> other) & 3u8,
{
    assert(((((color << shift) | (byte & !(3u8 << shift))) as u8) >> shift) & 3u8 == color)
        by (bit_vector)
        requires
            color < 4,
            shift == 0 || shift == 2 || shift == 4 || shift == 6,
    ;
    assert(((((color << shift) | (byte & !(3u8 << shift))) as u8) >> other) & 3u8 == (byte
        >> other) & 3u8) by (bit_vector)
        requires
            color < 4,
            shift == 0 || shift == 2 || shift == 4 || shift == 6,
            other == 0 || other == 2 || other == 4 || other == 6,
            other != shift,
    ;
}

proof fn lemma_pixel_index(w: int, h: int, len: int, x: int, y: int)
    requires
        0 <= x < w,
        0 <= y < h,
        w * h <= 4 * len,
    ensures
        0 <= y * w + x < w * h,
        (y * w + x) / 4 < len,
{
    assert(0 <= y * w + x < w * h) by (nonlinear_arith)
        requires
            0 <= x < w,
            0 <= y < h,
    ;
}

/// The primary display surface: two bits per pixel, four pixels per byte,
/// the first pixel of a byte in its lowest bits, rows one after another.
pub struct FrameBuffer {
    data: Vec<u8>,
    width: usize,
    height: usize,
}

impl FrameBuffer {
    /// The bytes of the surface.
    pub closed spec fn bytes(&self) -> Seq<u8> {
        self.data@
    }

    pub closed spec fn spec_width(&self) -> int {
        self.width as int
    }

    pub closed spec fn spec_height(&self) -> int {
        self.height as int
    }

    pub closed spec fn wf(&self) -> bool {
        &&& self.width * self.height <= 4 * self.data@.len()
        &&& 4 * self.data@.len() <= usize::MAX
    }

    /// The color of the pixel at column `x`, row `y`.
    pub open spec fn pixel(&self, x: int, y: int) -> u8 {
        crumb_at(self.bytes(), y * self.spec_width() + x)
    }

    pub open spec fn in_bounds(&self, x: int, y: int) -> bool {
        0 <= x < self.spec_width() && 0 <= y < self.spec_height()
    }

    /// `after` is `self` with pixel `(x, y)` set to `color` where it lies on
    /// the surface, and `self` unchanged where it does not.
    pub open spec fn set_pixel_result(&self, after: &Self, x: int, y: int, color: u8) -> bool {
        &&& after.wf()
        &&& after.spec_width() == self.spec_width()
        &&& after.spec_height() == self.spec_height()
        &&& if self.in_bounds(x, y) {
            let p = y * self.spec_width() + x;
            after.bytes() == self.bytes().update(
                crumb_byte(p),
                put_crumb(self.bytes()[crumb_byte(p)], color, crumb_shift(p)),
            )
        } else {
            after.bytes() == self.bytes()
        }
    }

    /// A blank surface of the display's size.
    pub fn new() -> (r: Self)
        ensures
            r.wf(),
            r.spec_width() == WIDTH,
            r.spec_height() == HEIGHT,
            r.bytes().len() == WIDTH * HEIGHT / 4,
            forall|i: int| 0 <= i < r.bytes().len() ==> r.bytes()[i] == 0,
    {
        Self::with_size(WIDTH, HEIGHT)
    }

    /// A blank surface `width` by `height` pixels, in as few bytes as hold it.
    pub fn with_size(width: usize, height: usize) -> (r: Self)
        requires
            width * height + 3 <= usize::MAX,
            width * height <= usize::MAX / 4,
        ensures
            r.wf(),
            r.spec_width() == width,
            r.spec_height() == height,
            r.bytes().len() == (width * height + 3) / 4,
            forall|i: int| 0 <= i < r.bytes().len() ==> r.bytes()[i] == 0,
    {
        let n = (width * height + 3) / PPB;
        let mut data: Vec<u8> = Vec::new();
        while data.len() < n
            invariant
                data@.len() <= n,
                forall|i: int| 0 <= i < data@.len() ==> data@[i] == 0,
            decreases n - data@.len(),
        {
            data.push(0);
        }
        FrameBuffer { data, width, height }
    }

    /// Whether the sizes and the bytes agree.
    pub fn is_valid(&self) -> (r: bool)
        ensures
            r == self.wf(),
    {
        proof {
            let w = self.width as int;
            let h = self.height as int;
            assert(w * h <= u64::MAX as int * u64::MAX as int) by (nonlinear_arith)
                requires
                    0 <= w <= u64::MAX as int,
                    0 <= h <= u64::MAX as int,
            ;
            assert(u64::MAX as int * u64::MAX as int <= u128::MAX as int) by (nonlinear_arith);
        }
        (self.width as u128) * (self.height as u128) <= 4 * (self.data.len() as u128) && 4
            * (self.data.len() as u128) <= usize::MAX as u128
    }

    /// The width and height in pixels.
    pub fn size(&self) -> (r: (usize, usize))
        ensures
            r.0 == self.spec_width(),
            r.1 == self.spec_height(),
    {
        (self.width, self.height)
    }

    /// The bytes of the surface.
    pub fn as_bytes(&self) -> (r: &[u8])
        ensures
            r@ == self.bytes(),
    {
        self.data.as_slice()
    }

    fn index_of(&self, x: usize, y: usize) -> (r: usize)
        requires
            self.wf(),
            x < self.width,
            y < self.height,
        ensures
            r == y * self.width + x,
            r / 4 < self.data@.len(),
    {
        proof {
            lemma_pixel_index(
                self.width as int,
                self.height as int,
                self.data@.len() as int,
                x as int,
                y as int,
            );
        }
        y * self.width + x
    }

    /// The color of the pixel at `(x, y)`.
    pub fn get_pixel(&self, x: usize, y: usize) -> (r: u8)
        requires
            self.wf(),
            self.in_bounds(x as int, y as int),
        ensures
            r == self.pixel(x as int, y as int),
    {
        let p = self.index_of(x, y);
        let shift: u8 = ((p % PPB) * 2) as u8;
        (self.data[p / PPB] >> shift) & 3u8
    }

    /// Paint the pixel at `(x, y)`; a pixel off the surface is dropped. The
    /// byte is written only when it changes.
    pub fn set_pixel(&mut self, x: i32, y: i32, color: u8)
        requires
            old(self).wf(),
            color < 4,
        ensures
            old(self).set_pixel_result(&*final(self), x as int, y as int, color),
    {
        if x < 0 || y < 0 {
            return ;
        }
        let x = x as usize;
        let y = y as usize;
        if y >= self.height || x >= self.width {
            return ;
        }
        let p = self.index_of(x, y);
        let byte_index = p / PPB;
        let shift: u8 = ((p % PPB) * 2) as u8;
        let byte = self.data[byte_index];
        let new_byte: u8 = (color << shift) | (byte & !(3u8 << shift));
        if new_byte == byte {
            assert(self.data@ == self.data@.update(byte_index as int, new_byte));
            return ;
        }
        self.data.set(byte_index, new_byte);
    }

    /// Paint every pixel of the surface with `color`.
    pub fn clear(&mut self, color: u8)
        requires
            old(self).wf(),
            color < 4,
        ensures
            final(self).wf(),
            final(self).spec_width() == old(self).spec_width(),
            final(self).spec_height() == old(self).spec_height(),
            forall|x: int, y: int|
                old(self).in_bounds(x, y) ==> #[trigger] final(self).pixel(x, y) == color,
    {
        let byte: u8 = color | (color << 2u8) | (color << 4u8) | (color << 6u8);
        assert forall|s: u8| s == 0 || s == 2 || s == 4 || s == 6 implies (byte >> s) & 3u8
            == color by {
            assert(((color | (color << 2u8) | (color << 4u8) | (color << 6u8)) as u8 >> s) & 3u8
                == color) by (bit_vector)
                requires
                    color < 4,
                    s == 0 || s == 2 || s == 4 || s == 6,
            ;
        }
        let n = self.data.len();
        let mut i: usize = 0;
        while i < n
            invariant
                self.wf(),
                self.width == old(self).width,
                self.height == old(self).height,
                n == self.data@.len(),
                i <= n,
                forall|j: int| 0 <= j < i ==> self.data@[j] == byte,
            decreases n - i,
        {
            self.data.set(i, byte);
            i = i + 1;
        }
        assert forall|x: int, y: int| old(self).in_bounds(x, y) implies #[trigger] self.pixel(
            x,
            y,
        ) == color by {
            let p = y * self.width + x;
            lemma_pixel_index(self.width as int, self.height as int, n as int, x, y);
            assert(crumb_shift(p) == 0 || crumb_shift(p) == 2 || crumb_shift(p) == 4
                || crumb_shift(p) == 6);
        }
    }

    /// The true colors of the surface, row by row: each pixel's 2-bit value
    /// looked up in `palette`.
    pub fn expand(&self, palette: &[Rgb; 4]) -> (r: Vec<Rgb>)
        requires
            self.wf(),
        ensures
            r@.len() == self.spec_width() * self.spec_height(),
            forall|p: int|
                0 <= p < r@.len() ==> #[trigger] r@[p] == palette@[crumb_at(
                    self.bytes(),
                    p,
                ) as int],
    {
        let n = self.width * self.height;
        let mut out: Vec<Rgb> = Vec::new();
        let mut p: usize = 0;
        while p < n
            invariant
                self.wf(),
                n == self.width * self.height,
                p <= n,
                out@.len() == p,
                forall|q: int|
                    0 <= q < p ==> #[trigger] out@[q] == palette@[crumb_at(self.bytes(), q) as int],
            decreases n - p,
        {
            let shift: u8 = ((p % PPB) * 2) as u8;
            let b = self.data[p / PPB];
            let c = (b >> shift) & 3u8;
            assert(c < 4) by (bit_vector)
                requires
                    c == (b >> shift) & 3u8,
            ;
            out.push(palette[c as usize]);
            p = p + 1;
        }
        out
    }
}

/// Writing a color to a pixel of the frame buffer and reading it back gives
/// the color, and no other pixel changes.
pub proof fn lemma_frame_round_trip(
    before: FrameBuffer,
    after: FrameBuffer,
    x: int,
    y: int,
    color: u8,
)
    requires
        before.wf(),
        color < 4,
        before.in_bounds(x, y),
        before.set_pixel_result(&after, x, y, color),
    ensures
        after.pixel(x, y) == color,
        forall|x2: int, y2: int|
            before.in_bounds(x2, y2) && (x2 != x || y2 != y) ==> #[trigger] after.pixel(x2, y2)
                == before.pixel(x2, y2),
{
    let w = before.spec_width();
    let p = y * w + x;
    lemma_pixel_index(w, before.spec_height(), before.bytes().len() as int, x, y);
    let s = crumb_shift(p);
    let o: u8 = if s == 0 {
        2
    } else {
        0
    };
    lemma_put_crumb(before.bytes()[crumb_byte(p)], color, s, o);
    assert forall|x2: int, y2: int|
        before.in_bounds(x2, y2) && (x2 != x || y2 != y) implies #[trigger] after.pixel(x2, y2)
        == before.pixel(x2, y2) by {
        let q = y2 * w + x2;
        lemma_pixel_index(w, before.spec_height(), before.bytes().len() as int, x2, y2);
        assert(q != p) by (nonlinear_arith)
            requires
                0 <= x < w,
                0 <= x2 < w,
                q == y2 * w + x2,
                p == y * w + x,
                x2 != x || y2 != y,
        ;
        if crumb_byte(q) == crumb_byte(p) {
            lemma_put_crumb(before.bytes()[crumb_byte(p)], color, s, crumb_shift(q));
        }
    }
}

/// Painting a pixel off the frame buffer leaves every byte as it was.
pub proof fn lemma_frame_off_surface(
    before: FrameBuffer,
    after: FrameBuffer,
    x: int,
    y: int,
    color: u8,
)
    requires
        !before.in_bounds(x, y),
        before.set_pixel_result(&after, x, y, color),
    ensures
        after.bytes() == before.bytes(),
{
}

} // verus!
