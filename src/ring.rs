use vstd::prelude::*;

verus! {

/// Number of slots in a ring buffer.
pub const BUF_SIZE: usize = 5;

/// Largest distance between the cursor and a frame that is stored or read.
pub const MAX_DRIFT: usize = 2;

/// The distance between two frame numbers.
pub open spec fn drift(a: int, b: int) -> int {
    if a >= b {
        a - b
    } else {
        b - a
    }
}

/// A frame close enough to the cursor to be stored or read.
pub open spec fn in_window(cursor: int, frame: int) -> bool {
    drift(cursor, frame) <= MAX_DRIFT as int
}

/// Circular buffer keeping a short history and a short look-ahead of
/// per-frame values, so that recent frames can be replayed and frames that
/// arrive early are not lost.
#[derive(Debug)]
pub struct RingBuf<T: Copy> {
    frame: usize,
    data: [Option<(usize, T)>; 5],
}

impl<T: Copy> RingBuf<T> {
    /// The current frame.
    pub closed spec fn cursor(&self) -> int {
        self.frame as int
    }

    /// What the slot `i` (in `0..BUF_SIZE`) holds: a frame number and its value.
    pub closed spec fn slot(&self, i: int) -> Option<(usize, T)> {
        self.data@[i]
    }

    /// The value that `get(frame)` returns.
    pub open spec fn lookup(&self, frame: int) -> Option<T> {
        if !in_window(self.cursor(), frame) {
            None
        } else {
            match self.slot(frame % (BUF_SIZE as int)) {
                Some(e) => if e.0 as int == frame {
                    Some(e.1)
                } else {
                    None
                },
                None => None,
            }
        }
    }

    /// `after` is `self` with `val` stored for `frame`, when the frame is in
    /// the window; otherwise `after` is `self`.
    pub open spec fn insert_result(&self, after: &Self, frame: usize, val: T) -> bool {
        &&& after.cursor() == self.cursor()
        &&& forall|i: int|
            0 <= i < BUF_SIZE as int ==> #[trigger] after.slot(i) == if in_window(
                self.cursor(),
                frame as int,
            ) && i == frame as int % (BUF_SIZE as int) {
                Some((frame, val))
            } else {
                self.slot(i)
            }
    }

    /// `after` is `self` with the cursor moved one frame forward.
    pub open spec fn advance_result(&self, after: &Self) -> bool {
        &&& after.cursor() == self.cursor() + 1
        &&& forall|i: int| 0 <= i < BUF_SIZE as int ==> #[trigger] after.slot(i) == self.slot(i)
    }

    pub fn new() -> (r: Self)
        ensures
            r.cursor() == 0,
            forall|i: int| 0 <= i < BUF_SIZE as int ==> (#[trigger] r.slot(i)).is_none(),
    {
        RingBuf { frame: 0, data: [None, None, None, None, None] }
    }

    /// The current frame.
    pub fn frame(&self) -> (r: usize)
        ensures
            r as int == self.cursor(),
    {
        self.frame
    }

    /// Move the cursor one frame forward.
    pub fn advance(&mut self)
        requires
            old(self).cursor() < usize::MAX as int,
        ensures
            old(self).advance_result(&*final(self)),
    {
        self.frame = self.frame + 1;
    }

    fn abs_diff(a: usize, b: usize) -> (r: usize)
        ensures
            r as int == drift(a as int, b as int),
    {
        if a >= b {
            a - b
        } else {
            b - a
        }
    }

    /// Store `val` for `frame`. A frame farther than `MAX_DRIFT` from the
    /// cursor is ignored, so that a too old or too early frame does not
    /// overwrite a slot that is closer to what is needed now.
    pub fn insert(&mut self, frame: usize, val: T)
        ensures
            old(self).insert_result(&*final(self), frame, val),
    {
        if Self::abs_diff(self.frame, frame) > MAX_DRIFT {
            return;
        }
        let index = frame % BUF_SIZE;
        self.data[index] = Some((frame, val));
    }

    /// The value stored for `frame`, if the frame is in the window and its
    /// slot was not taken by another frame since.
    pub fn get(&self, frame: usize) -> (r: Option<T>)
        ensures
            r == self.lookup(frame as int),
    {
        if Self::abs_diff(self.frame, frame) > MAX_DRIFT {
            return None;
        }
        let index = frame % BUF_SIZE;
        match self.data[index] {
            Some(e) => if e.0 == frame {
                Some(e.1)
            } else {
                None
            },
            None => None,
        }
    }
}

/// Storing a value and reading the same frame back gives the value exactly
/// when the frame lies within `MAX_DRIFT` of the cursor.
pub proof fn lemma_insert_then_get<T: Copy>(
    before: RingBuf<T>,
    after: RingBuf<T>,
    frame: usize,
    val: T,
)
    requires
        before.insert_result(&after, frame, val),
    ensures
        in_window(before.cursor(), frame as int) ==> after.lookup(frame as int) == Some(val),
        !in_window(before.cursor(), frame as int) ==> after.lookup(frame as int).is_none(),
{
    assert(after.slot(frame as int % (BUF_SIZE as int)) == if in_window(
        before.cursor(),
        frame as int,
    ) {
        Some((frame, val))
    } else {
        before.slot(frame as int % (BUF_SIZE as int))
    });
}

/// Once the cursor has moved forward, no frame more than `MAX_DRIFT` behind
/// it can be read, whatever its slot still holds.
pub proof fn lemma_advance_hides_stale<T: Copy>(before: RingBuf<T>, after: RingBuf<T>, frame: int)
    requires
        before.advance_result(&after),
        after.cursor() - frame > MAX_DRIFT as int,
    ensures
        after.lookup(frame).is_none(),
        after.cursor() > before.cursor(),
{
}

} // verus!
