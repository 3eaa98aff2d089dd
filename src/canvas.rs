use vstd::prelude::*;

verus! {

/// Pixels per byte on a 4-bit surface.
pub const PPB: usize = 2;

/// Byte that holds pixel `p` of a 4-bit surface.
pub open spec fn nibble_byte(p: int) -> int {
    p / 2
}

/// Shift of pixel `p` inside its byte on a 4-bit surface.
pub open spec fn nibble_shift(p: int) -> u8 {
    if p % 2 == 0 {
        0
    } else {
        4
    }
}

/// The color of pixel `p` of a 4-bit surface stored in `data`.
pub open spec fn nibble_at(data: Seq<u8>, p: int) -> u8 {
    (data[nibble_byte(p)] >> nibble_shift(p)) & 15u8
}

/// `byte` with the nibble at `shift` replaced by `color`.
pub open spec fn put_nibble(byte: u8, color: u8, shift: u8) -> u8 {
    ((color << shift) | (byte & !(15u8 << shift))) as u8
}

proof fn lemma_put_nibble(byte: u8, color: u8, shift: u8)
    requires
        color < 16,
        shift == 0 || shift == 4,
    ensures
        (put_nibble(byte, color, shift) >> shift) & 15u8 == color,
        (put_nibble(byte, color, shift) >> (4 - shift) as u8) & 15u8 == (byte >> (4
            - shift) as u8) & 15u8,
{
    assert(((((color << shift) | (byte & !(15u8 << shift))) as u8) >> shift) & 15u8 == color)
        by (bit_vector)
        requires
            color < 16,
            shift == 0 || shift == 4,
    ;
    assert(((((color << shift) | (byte & !(15u8 << shift))) as u8) >> (4 - shift) as u8) & 15u8
        == (byte >> (4 - shift) as u8) & 15u8) by (bit_vector)
        requires
            color < 16,
            shift == 0 || shift == 4,
    ;
}

proof fn lemma_pixel_index(w: int, h: int, len: int, x: int, y: int)
    requires
        0 <= x < w,
        0 <= y < h,
        w * h <= 2 * len,
    ensures
        0 <= y * w + x < w * h,
        (y * w + x) / 2 < len,
{
    assert(0 <= y * w + x < w * h) by (nonlinear_arith)
        requires
            0 <= x < w,
            0 <= y < h,
    ;
}

/// A region of guest memory that the guest chose as its draw surface:
/// bytes `start..end`, read as a 4-bit surface `width` pixels wide.
#[derive(Clone, Copy, Debug, PartialEq, Eq)]
pub struct Canvas {
    pub start: usize,
    pub end: usize,
    pub width: usize,
}

impl Canvas {
    /// The canvas over `size` bytes from `start`, `width` pixels wide.
    pub fn new(start: u32, size: u32, width: u32) -> (r: Self)
        requires
            start as int + size as int <= u32::MAX as int,
        ensures
            r.start == start as usize,
            r.end as int == start as int + size as int,
            r.width == width as usize,
    {
        Canvas { start: start as usize, end: (start + size) as usize, width: width as usize }
    }

    /// The canvas fits in a memory of `len` bytes and its rows are whole.
    pub open spec fn valid_for(&self, len: int) -> bool {
        &&& self.start <= self.end
        &&& self.end as int <= len
        &&& self.width > 0
        &&& ((self.end - self.start) as int * 2) % (self.width as int) == 0
    }

    /// The number of rows.
    pub open spec fn spec_height(&self) -> int {
        (self.end - self.start) as int * 2 / self.width as int
    }

    /// Check that the canvas lies inside a memory of `len` bytes and holds
    /// whole rows.
    pub fn fits(&self, len: usize) -> (r: bool)
        ensures
            r == self.valid_for(len as int),
    {
        self.start <= self.end && self.end <= len && self.width > 0 && ((self.end - self.start)
            as u128 * 2) % (self.width as u128) == 0
    }

    /// The colors of the canvas in `memory`, row by row, one per pixel.
    pub fn colors(&self, memory: &[u8]) -> (r: Vec<u8>)
        requires
            self.start <= self.end <= memory@.len(),
        ensures
            r@.len() == 2 * (self.end - self.start),
            forall|p: int|
                0 <= p < r@.len() ==> #[trigger] r@[p] == nibble_at(
                    memory@.subrange(self.start as int, self.end as int),
                    p,
                ),
    {
        let mut it = CanvasIter::new(memory, self.start, self.end);
        let mut out: Vec<u8> = Vec::new();
        let ghost data = memory@.subrange(self.start as int, self.end as int);
        loop
            invariant
                it.wf(),
                it.source() == memory@,
                data == memory@.subrange(self.start as int, self.end as int),
                it.lo() == self.start,
                it.hi() == self.end,
                out@.len() == it.produced(),
                forall|p: int| 0 <= p < out@.len() ==> #[trigger] out@[p] == nibble_at(data, p),
            ensures
                out@.len() == 2 * (self.end - self.start),
                forall|p: int| 0 <= p < out@.len() ==> #[trigger] out@[p] == nibble_at(data, p),
            decreases it.remaining(),
        {
            let ghost k = it.produced();
            match it.next() {
                Some(c) => {
                    out.push(c);
                    assert(out@[k] == nibble_at(data, k));
                },
                None => {
                    break ;
                },
            }
        }
        out
    }
}

/// `after` is the memory `before` with the pixel `(x, y)` of canvas `c` set
/// to `color`, where the pixel lies on the canvas; otherwise it is `before`.
pub open spec fn canvas_pixel_written(
    c: Canvas,
    before: Seq<u8>,
    after: Seq<u8>,
    x: int,
    y: int,
    color: u8,
) -> bool {
    if 0 <= x < c.width && 0 <= y < c.spec_height() {
        let p = y * c.width + x;
        let i = c.start + nibble_byte(p);
        after == before.update(i, put_nibble(before[i], color, nibble_shift(p)))
    } else {
        after == before
    }
}

/// The byte that paints both pixels of a 4-bit surface with `color`.
pub open spec fn fill_byte(color: u8) -> u8 {
    (color | (color << 4u8)) as u8
}

/// Paint the pixel `(x, y)` of canvas `c` in the guest's memory; a pixel
/// off the canvas is dropped. The byte is written only when it changes.
pub fn draw_canvas_pixel(memory: &mut [u8], c: &Canvas, x: i32, y: i32, color: u8)
    requires
        c.valid_for(old(memory)@.len() as int),
        color < 16,
    ensures
        canvas_pixel_written(*c, old(memory)@, final(memory)@, x as int, y as int, color),
{
    let len = c.end - c.start;
    let height: u128 = (len as u128 * 2) / c.width as u128;
    if x < 0 || y < 0 {
        return ;
    }
    let x = x as usize;
    let y = y as usize;
    if y as u128 >= height || x >= c.width {
        return ;
    }
    proof {
        let w = c.width as int;
        let l = 2 * len as int;
        assert(w * (l / w) <= l) by (nonlinear_arith)
            requires
                w > 0,
                l >= 0,
        ;
        lemma_pixel_index(w, height as int, len as int, x as int, y as int);
    }
    let p: u128 = y as u128 * c.width as u128 + x as u128;
    let byte_index = c.start + (p / 2) as usize;
    let shift: u8 = if p % 2 == 0 {
        0
    } else {
        4
    };
    let byte = memory[byte_index];
    let new_byte: u8 = (color << shift) | (byte & !(15u8 << shift));
    if new_byte == byte {
        assert(memory@ == memory@.update(byte_index as int, new_byte));
        return ;
    }
    memory[byte_index] = new_byte;
}

/// Paint every pixel of canvas `c` in the guest's memory with `color`.
pub fn fill_canvas(memory: &mut [u8], c: &Canvas, color: u8)
    requires
        c.valid_for(old(memory)@.len() as int),
        color < 16,
    ensures
        final(memory)@.len() == old(memory)@.len(),
        forall|i: int|
            0 <= i < old(memory)@.len() ==> #[trigger] final(memory)@[i] == if c.start <= i
                < c.end {
                fill_byte(color)
            } else {
                old(memory)@[i]
            },
{
    let byte: u8 = color | (color << 4u8);
    let mut i: usize = c.start;
    while i < c.end
        invariant
            c.valid_for(memory@.len() as int),
            c.start <= i <= c.end,
            memory@.len() == old(memory)@.len(),
            byte == fill_byte(color),
            forall|j: int|
                0 <= j < old(memory)@.len() ==> #[trigger] memory@[j] == if c.start <= j < i {
                    fill_byte(color)
                } else {
                    old(memory)@[j]
                },
        decreases c.end - i,
    {
        memory[i] = byte;
        i = i + 1;
    }
}

/// Walks over the pixels of a 4-bit surface, one color per step.
pub struct CanvasIter<'a> {
    data: &'a [u8],
    start: usize,
    end: usize,
    idx: usize,
    second: bool,
}

impl<'a> CanvasIter<'a> {
    /// The memory the walk reads.
    pub closed spec fn source(&self) -> Seq<u8> {
        self.data@
    }

    /// The bytes of the surface, `lo()..hi()` of `source()`.
    pub closed spec fn lo(&self) -> int {
        self.start as int
    }

    pub closed spec fn hi(&self) -> int {
        self.end as int
    }

    pub closed spec fn wf(&self) -> bool {
        self.start <= self.idx <= self.end <= self.data@.len() && (self.idx == self.end
            ==> !self.second)
    }

    /// How many colors were handed out so far.
    pub closed spec fn produced(&self) -> int {
        2 * (self.idx - self.start) + if self.second {
            1int
        } else {
            0
        }
    }

    pub open spec fn remaining(&self) -> int {
        2 * (self.hi() - self.lo()) - self.produced()
    }

    /// The walk over the surface in bytes `start..end` of `data`.
    pub fn new(data: &'a [u8], start: usize, end: usize) -> (r: Self)
        requires
            start <= end <= data@.len(),
        ensures
            r.wf(),
            r.produced() == 0,
            r.source() == data@,
            r.lo() == start,
            r.hi() == end,
    {
        CanvasIter { data, start, end, idx: start, second: false }
    }

    /// The next color, or `None` after the last pixel.
    pub fn next(&mut self) -> (r: Option<u8>)
        requires
            old(self).wf(),
        ensures
            final(self).wf(),
            final(self).source() == old(self).source(),
            final(self).lo() == old(self).lo(),
            final(self).hi() == old(self).hi(),
            0 <= final(self).produced() <= 2 * (final(self).hi() - final(self).lo()),
            old(self).remaining() == 0 ==> r.is_none() && final(self).produced() == old(
                self,
            ).produced(),
            old(self).remaining() > 0 ==> r == Some(
                nibble_at(
                    old(self).source().subrange(old(self).lo(), old(self).hi()),
                    old(self).produced(),
                ),
            ) && final(self).produced() == old(self).produced() + 1,
    {
        if self.idx >= self.end {
            return None;
        }
        let byte = self.data[self.idx];
        let ghost p = self.produced();
        let ghost sub = self.data@.subrange(self.start as int, self.end as int);
        assert(sub[p / 2] == byte);
        assert(byte >> 0u8 == byte) by (bit_vector);
        let luma: u8 = if self.second {
            self.idx = self.idx + 1;
            byte >> 4u8
        } else {
            byte
        };
        self.second = !self.second;
        Some(luma & 15u8)
    }
}

/// A 4-bit draw surface over bytes taken from the guest's memory; it works
/// like the frame buffer, but its width and height are chosen at run time.
pub struct CanvasBuffer {
    data: Vec<u8>,
    width: usize,
    height: usize,
}

impl CanvasBuffer {
    /// The bytes of the surface.
    pub closed spec fn bytes(&self) -> Seq<u8> {
        self.data@
    }

    pub closed spec fn spec_width(&self) -> int {
        self.width as int
    }

    pub closed spec fn spec_height(&self) -> int {
        self.height as int
    }

    pub closed spec fn wf(&self) -> bool {
        &&& self.width > 0
        &&& self.width * self.height <= 2 * self.data@.len()
        &&& 2 * self.data@.len() <= usize::MAX
    }

    /// The color of the pixel at column `x`, row `y`.
    pub open spec fn pixel(&self, x: int, y: int) -> u8 {
        nibble_at(self.bytes(), y * self.spec_width() + x)
    }

    pub open spec fn in_bounds(&self, x: int, y: int) -> bool {
        0 <= x < self.spec_width() && 0 <= y < self.spec_height()
    }

    /// `after` is `self` with pixel `(x, y)` set to `color` where it lies on
    /// the surface, and `self` unchanged where it does not.
    pub open spec fn set_pixel_result(&self, after: &Self, x: int, y: int, color: u8) -> bool {
        &&& after.wf()
        &&& after.spec_width() == self.spec_width()
        &&& after.spec_height() == self.spec_height()
        &&& if self.in_bounds(x, y) {
            let p = y * self.spec_width() + x;
            after.bytes() == self.bytes().update(
                nibble_byte(p),
                put_nibble(self.bytes()[nibble_byte(p)], color, nibble_shift(p)),
            )
        } else {
            after.bytes() == self.bytes()
        }
    }

    /// The surface over `data`, `width` pixels wide, with as many whole rows
    /// as the bytes hold.
    pub fn new(data: Vec<u8>, width: usize) -> (r: Self)
        requires
            width > 0,
            2 * data@.len() <= usize::MAX,
        ensures
            r.wf(),
            r.bytes() == data@,
            r.spec_width() == width,
            r.spec_height() == (data@.len() * 2) as int / (width as int),
    {
        let height = data.len() * 2 / width;
        proof {
            let l = data@.len() as int * 2;
            let w = width as int;
            assert(w * (l / w) <= l) by (nonlinear_arith)
                requires
                    w > 0,
                    l >= 0,
            ;
        }
        CanvasBuffer { data, width, height }
    }

    /// The bytes of the surface, handed back.
    pub fn into_bytes(self) -> (r: Vec<u8>)
        ensures
            r@ == self.bytes(),
    {
        self.data
    }

    /// The width and height in pixels.
    pub fn size(&self) -> (r: (usize, usize))
        ensures
            r.0 == self.spec_width(),
            r.1 == self.spec_height(),
    {
        (self.width, self.height)
    }

    fn index_of(&self, x: usize, y: usize) -> (r: usize)
        requires
            self.wf(),
            x < self.width,
            y < self.height,
        ensures
            r == y * self.width + x,
            r / 2 < self.data@.len(),
    {
        proof {
            lemma_pixel_index(
                self.width as int,
                self.height as int,
                self.data@.len() as int,
                x as int,
                y as int,
            );
        }
        y * self.width + x
    }

    /// The color of the pixel at `(x, y)`.
    pub fn get_pixel(&self, x: usize, y: usize) -> (r: u8)
        requires
            self.wf(),
            self.in_bounds(x as int, y as int),
        ensures
            r == self.pixel(x as int, y as int),
    {
        let p = self.index_of(x, y);
        let shift: u8 = if p % 2 == 0 {
            0
        } else {
            4
        };
        (self.data[p / PPB] >> shift) & 15u8
    }

    /// Paint the pixel at `(x, y)`; a pixel off the surface is dropped. The
    /// byte is written only when it changes.
    pub fn set_pixel(&mut self, x: i32, y: i32, color: u8)
        requires
            old(self).wf(),
            color < 16,
        ensures
            old(self).set_pixel_result(&*final(self), x as int, y as int, color),
    {
        if x < 0 || y < 0 {
            return ;
        }
        let x = x as usize;
        let y = y as usize;
        if y >= self.height || x >= self.width {
            return ;
        }
        let p = self.index_of(x, y);
        let byte_index = p / PPB;
        let shift: u8 = if p % 2 == 0 {
            0
        } else {
            4
        };
        let byte = self.data[byte_index];
        let new_byte: u8 = (color << shift) | (byte & !(15u8 << shift));
        if new_byte == byte {
            assert(self.data@ == self.data@.update(byte_index as int, new_byte));
            return ;
        }
        self.data.set(byte_index, new_byte);
    }
}

/// Writing a color to a pixel on the canvas and reading it back gives the
/// color, and no other pixel changes.
pub proof fn lemma_canvas_round_trip(
    before: CanvasBuffer,
    after: CanvasBuffer,
    x: int,
    y: int,
    color: u8,
)
    requires
        before.wf(),
        color < 16,
        before.in_bounds(x, y),
        before.set_pixel_result(&after, x, y, color),
    ensures
        after.pixel(x, y) == color,
        forall|x2: int, y2: int|
            before.in_bounds(x2, y2) && (x2 != x || y2 != y) ==> #[trigger] after.pixel(x2, y2)
                == before.pixel(x2, y2),
{
    let w = before.spec_width();
    let p = y * w + x;
    lemma_pixel_index(w, before.spec_height(), before.bytes().len() as int, x, y);
    lemma_put_nibble(before.bytes()[nibble_byte(p)], color, nibble_shift(p));
    assert forall|x2: int, y2: int|
        before.in_bounds(x2, y2) && (x2 != x || y2 != y) implies #[trigger] after.pixel(x2, y2)
        == before.pixel(x2, y2) by {
        let q = y2 * w + x2;
        lemma_pixel_index(w, before.spec_height(), before.bytes().len() as int, x2, y2);
        assert(q != p) by (nonlinear_arith)
            requires
                0 <= x < w,
                0 <= x2 < w,
                q == y2 * w + x2,
                p == y * w + x,
                x2 != x || y2 != y,
        ;
        if nibble_byte(q) == nibble_byte(p) {
            assert(nibble_shift(q) == (4 - nibble_shift(p)) as u8);
        }
    }
}

/// Painting a pixel off the canvas leaves every byte as it was.
pub proof fn lemma_canvas_off_surface(
    before: CanvasBuffer,
    after: CanvasBuffer,
    x: int,
    y: int,
    color: u8,
)
    requires
        !before.in_bounds(x, y),
        before.set_pixel_result(&after, x, y, color),
    ensures
        after.bytes() == before.bytes(),
{
}

} // verus!
