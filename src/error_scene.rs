use vstd::prelude::*;

verus! {

/// How long the confirmation button stays disabled, in milliseconds.
pub const BTN_DELAY_MS: u64 = 4_000;

/// The buttons that count as a confirmation.
pub const BUTTONS_MASK: u8 = 0b11111;

/// An alert popup showing an error message. Its button is enabled after a
/// delay; the scene ends once the user has pressed and released a button.
pub struct ErrorScene {
    pub msg: String,
    pub start: Option<u64>,
    pub showed_msg: bool,
    pub showed_btn: bool,
    pub enabled_btn: bool,
    /// The buttons last seen held down while the button was enabled.
    pub buttons: u8,
}

/// What a render pass has to draw.
#[derive(Clone, Copy, Debug, PartialEq, Eq, Structural)]
pub struct RenderPlan {
    /// Draw the message.
    pub msg: bool,
    /// Draw the button, enabled or not.
    pub btn: Option<bool>,
}

impl ErrorScene {
    /// The button is enabled at `now`, given what `self` knows.
    pub open spec fn enabled_at(&self, now: u64) -> bool {
        self.enabled_btn || {
            let start = match self.start {
                Some(s) => s,
                None => now,
            };
            now > start && now - start > BTN_DELAY_MS
        }
    }

    pub fn new(msg: String) -> (r: Self)
        ensures
            r.msg@ == msg@,
            r.start.is_none(),
            !r.showed_msg,
            !r.showed_btn,
            !r.enabled_btn,
            r.buttons == 0,
    {
        ErrorScene {
            msg,
            start: None,
            showed_msg: false,
            showed_btn: false,
            enabled_btn: false,
            buttons: 0,
        }
    }

    /// Take one tick at time `now` (in milliseconds) with the buttons held,
    /// if the device has input. Returns true when the user has confirmed.
    pub fn update(&mut self, now: u64, input: Option<u8>) -> (r: bool)
        ensures
            final(self).msg == old(self).msg,
            final(self).showed_msg == old(self).showed_msg,
            final(self).showed_btn == old(self).showed_btn,
            final(self).start == if !old(self).enabled_btn && old(self).start.is_none() {
                Some(now)
            } else {
                old(self).start
            },
            final(self).enabled_btn == old(self).enabled_at(now),
            ({
                let held = (match input {
                    Some(b) => b,
                    None => 0u8,
                } & BUTTONS_MASK) as u8;
                if final(self).enabled_btn {
                    if held != 0 {
                        !r && final(self).buttons == held
                    } else {
                        r == (old(self).buttons != 0) && final(self).buttons == old(self).buttons
                    }
                } else {
                    !r && final(self).buttons == old(self).buttons
                }
            }),
    {
        if !self.enabled_btn {
            let start = match self.start {
                Some(start) => start,
                None => {
                    self.start = Some(now);
                    now
                },
            };
            if now > start && now - start > BTN_DELAY_MS {
                self.enabled_btn = true;
            }
        }
        if self.enabled_btn {
            let buttons = match input {
                Some(b) => b,
                None => 0u8,
            };
            let buttons = buttons & BUTTONS_MASK;
            if buttons != 0 {
                self.buttons = buttons;
            } else if self.buttons != 0 {
                return true;
            }
        }
        false
    }

    /// What to draw now: the message and the button, each once.
    pub fn render(&mut self) -> (r: RenderPlan)
        ensures
            r.msg == !old(self).showed_msg,
            r.btn == if old(self).showed_btn {
                None
            } else {
                Some(old(self).enabled_btn)
            },
            final(self).showed_msg,
            final(self).showed_btn,
            final(self).enabled_btn == old(self).enabled_btn,
            final(self).buttons == old(self).buttons,
            final(self).start == old(self).start,
            final(self).msg == old(self).msg,
    {
        let msg = !self.showed_msg;
        let btn = if self.showed_btn {
            None
        } else {
            Some(self.enabled_btn)
        };
        self.showed_msg = true;
        self.showed_btn = true;
        RenderPlan { msg, btn }
    }
}

} // verus!
