use vstd::prelude::*;

verus! {

/// The time one frame should take, in milliseconds.
pub const FRAME_MS: u64 = 30;

/// How long to sleep after a frame that began at `start` when it is `now`
/// (both in milliseconds), so that the next frame begins on its deadline.
pub fn sleep_for(start: u64, now: u64) -> (r: u64)
    ensures
        now <= start ==> r == FRAME_MS,
        now > start && now - start < FRAME_MS ==> r == FRAME_MS - (now - start),
        now > start && now - start >= FRAME_MS ==> r == 0,
{
    if now <= start {
        FRAME_MS
    } else if now - start < FRAME_MS {
        FRAME_MS - (now - start)
    } else {
        0
    }
}

/// A guest entry point that runs once after the guest is instantiated.
#[derive(Clone, Copy, Debug, PartialEq, Eq, Structural)]
pub enum StartFn {
    /// `_initialize`, from WASI.
    Initialize,
    /// `_start`, from WASI.
    Start,
    /// `boot`, from the console API.
    Boot,
}

/// The entry points to call at start, in order, among those the guest
/// exports.
pub fn start_sequence(has_initialize: bool, has_start: bool, has_boot: bool) -> (r: Vec<
    StartFn,
>)
    ensures
        r@ == (if has_initialize {
            seq![StartFn::Initialize]
        } else {
            seq![]
        }) + (if has_start {
            seq![StartFn::Start]
        } else {
            seq![]
        }) + (if has_boot {
            seq![StartFn::Boot]
        } else {
            seq![]
        }),
{
    let mut r: Vec<StartFn> = Vec::new();
    if has_initialize {
        r.push(StartFn::Initialize);
    }
    if has_start {
        r.push(StartFn::Start);
    }
    if has_boot {
        r.push(StartFn::Boot);
    }
    assert(r@ =~= (if has_initialize {
        seq![StartFn::Initialize]
    } else {
        seq![]
    }) + (if has_start {
        seq![StartFn::Start]
    } else {
        seq![]
    }) + (if has_boot {
        seq![StartFn::Boot]
    } else {
        seq![]
    }));
    r
}

} // verus!
