use vstd::prelude::*;

verus! {

/// Number of buttons on the device.
pub const BUTTONS: usize = 5;

/// What the guest reads when the pad is not touched.
pub const NO_PAD: u32 = 0xFFFF_FFFF;

/// A touch position on the pad.
#[derive(Clone, Copy, Debug, PartialEq, Eq, Structural)]
pub struct Pad {
    pub x: i16,
    pub y: i16,
}

/// A sample of the device's input.
#[derive(Clone, Copy, Debug, PartialEq, Eq)]
pub struct InputState {
    pub pad: Option<Pad>,
    /// The left stick, on devices that have one.
    pub left: Option<Pad>,
    pub buttons: [bool; 5],
}

/// A pad position as the guest reads it: `x` in the high half, `y` in the
/// low half, each as its 16-bit two's complement.
pub open spec fn packed_pad(pad: Pad) -> u32 {
    (((pad.x as u16) as u32) * 0x10000 + ((pad.y as u16) as u32)) as u32
}

pub open spec fn bit(b: bool) -> u32 {
    if b {
        1
    } else {
        0
    }
}

/// The button bitmask: bit `i` is set when button `i` is pressed.
pub open spec fn button_mask(buttons: Seq<bool>) -> u32 {
    mask_of(buttons, 5) as u32
}

/// The weight of button `i` in the mask.
pub open spec fn weight_of(i: int) -> u32 {
    if i == 0 {
        1
    } else if i == 1 {
        2
    } else if i == 2 {
        4
    } else if i == 3 {
        8
    } else if i == 4 {
        16
    } else {
        32
    }
}

/// The mask of the first `n` buttons.
pub open spec fn mask_of(buttons: Seq<bool>, n: int) -> int {
    (if n > 0 {
        bit(buttons[0])
    } else {
        0
    }) + (if n > 1 {
        2 * bit(buttons[1])
    } else {
        0
    }) + (if n > 2 {
        4 * bit(buttons[2])
    } else {
        0
    }) + (if n > 3 {
        8 * bit(buttons[3])
    } else {
        0
    }) + (if n > 4 {
        16 * bit(buttons[4])
    } else {
        0
    })
}

/// What the guest reads from the pad for `input`.
pub open spec fn read_pad_spec(input: Option<InputState>) -> u32 {
    match input {
        Some(s) => match s.pad {
            Some(p) => packed_pad(p),
            None => NO_PAD,
        },
        None => NO_PAD,
    }
}

/// What the guest reads from the left stick for `input`.
pub open spec fn read_left_spec(input: Option<InputState>) -> u32 {
    match input {
        Some(s) => match s.left {
            Some(p) => packed_pad(p),
            None => 0,
        },
        None => 0,
    }
}

/// What the guest reads from the buttons for `input`.
pub open spec fn read_buttons_spec(input: Option<InputState>) -> u32 {
    match input {
        Some(s) => button_mask(s.buttons@),
        None => 0,
    }
}

/// Pack a pad position into one integer.
pub fn pack_pad(pad: Pad) -> (r: u32)
    ensures
        r == packed_pad(pad),
{
    let x = pad.x as u16 as u32;
    let y = pad.y as u16 as u32;
    assert((x << 16u32) | y == x * 0x10000 + y) by (bit_vector)
        requires
            x < 0x10000,
            y < 0x10000,
    ;
    (x << 16u32) | y
}

/// What the guest reads from the pad: the packed position, or `NO_PAD`
/// when there is no input or the pad is not touched.
pub fn read_pad(input: &Option<InputState>) -> (r: u32)
    ensures
        r == read_pad_spec(*input),
{
    match input {
        Some(s) => match s.pad {
            Some(p) => pack_pad(p),
            None => NO_PAD,
        },
        None => NO_PAD,
    }
}

/// What the guest reads from the left stick: the packed position, or zero
/// when there is no input or the stick is not used.
pub fn read_left(input: &Option<InputState>) -> (r: u32)
    ensures
        r == read_left_spec(*input),
{
    match input {
        Some(s) => match s.left {
            Some(p) => pack_pad(p),
            None => 0,
        },
        None => 0,
    }
}

/// What the guest reads from the buttons: the bitmask, or zero when there
/// is no input.
pub fn read_buttons(input: &Option<InputState>) -> (r: u32)
    ensures
        r == read_buttons_spec(*input),
        r < 32,
{
    match input {
        Some(s) => {
            let mut res: u32 = 0;
            let mut i: usize = 0;
            let mut weight: u32 = 1;
            while i < BUTTONS
                invariant
                    i <= 5,
                    weight == weight_of(i as int),
                    res == mask_of(s.buttons@, i as int),
                    res < weight,
                decreases 5 - i,
            {
                if s.buttons[i] {
                    res = res + weight;
                }
                weight = weight * 2;
                i = i + 1;
            }
            res
        },
        None => 0,
    }
}

} // verus!
