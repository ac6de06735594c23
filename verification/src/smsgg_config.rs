//! Master System / Game Gear configuration types.
pub mod cheats;

use crate::input::Player;
use vstd::prelude::*;

verus! {

pub const NATIVE_Z80_DIVIDER: u32 = 15;

#[derive(Debug, Clone, Copy, PartialEq, Eq, Structural, Default)]
pub enum Sn76489Version {
    #[default]
    MasterSystem2,
    Standard,
}

#[derive(Debug, Clone, Copy, PartialEq, Eq, Structural, Default)]
pub enum SmsModel {
    #[default]
    Sms1,
    Sms2,
}

#[derive(Debug, Clone, Copy, PartialEq, Eq, Structural, Default)]
pub enum SmsGgRegion {
    #[default]
    International,
    Domestic,
}

#[derive(Debug, Clone, Copy, PartialEq, Eq, Structural, Default)]
pub enum SmsAspectRatio {
    #[default]
    Ntsc,
    Pal,
    SquarePixels,
    Stretched,
}

#[derive(Debug, Clone, Copy, PartialEq, Eq, Structural, Default)]
pub enum GgAspectRatio {
    #[default]
    GgLcd,
    SquarePixels,
    Stretched,
}

#[derive(Debug, Clone, Copy, PartialEq, Eq, Structural)]
pub enum SmsGgButton {
    Up,
    Left,
    Right,
    Down,
    Button1,
    Button2,
    Pause,
}

/// Gamepad button state (`true` = pressed).
#[derive(Debug, Clone, Copy, PartialEq, Eq, Structural, Default)]
pub struct SmsGgJoypadState {
    pub up: bool,
    pub left: bool,
    pub right: bool,
    pub down: bool,
    pub button1: bool,
    pub button2: bool,
}

impl SmsGgJoypadState {
    pub open spec fn set_button_spec(self, button: SmsGgButton, pressed: bool) -> SmsGgJoypadState {
        match button {
            SmsGgButton::Up => SmsGgJoypadState { up: pressed, ..self },
            SmsGgButton::Left => SmsGgJoypadState { left: pressed, ..self },
            SmsGgButton::Right => SmsGgJoypadState { right: pressed, ..self },
            SmsGgButton::Down => SmsGgJoypadState { down: pressed, ..self },
            SmsGgButton::Button1 => SmsGgJoypadState { button1: pressed, ..self },
            SmsGgButton::Button2 => SmsGgJoypadState { button2: pressed, ..self },
            _ => self,
        }
    }

    /// Sets a gamepad button; buttons that are not on the gamepad are ignored.
    pub fn set_button(&mut self, button: SmsGgButton, pressed: bool)
        ensures
            *final(self) == old(self).set_button_spec(button, pressed),
    {
        let s = *self;
        *self = match button {
            SmsGgButton::Up => SmsGgJoypadState { up: pressed, ..s },
            SmsGgButton::Left => SmsGgJoypadState { left: pressed, ..s },
            SmsGgButton::Right => SmsGgJoypadState { right: pressed, ..s },
            SmsGgButton::Down => SmsGgJoypadState { down: pressed, ..s },
            SmsGgButton::Button1 => SmsGgJoypadState { button1: pressed, ..s },
            SmsGgButton::Button2 => SmsGgJoypadState { button2: pressed, ..s },
            _ => s,
        };
    }
}

/// Both players' gamepads and the console's Pause button.
#[derive(Debug, Clone, Copy, PartialEq, Eq, Structural, Default)]
pub struct SmsGgInputs {
    pub p1: SmsGgJoypadState,
    pub p2: SmsGgJoypadState,
    pub pause: bool,
}

impl SmsGgInputs {
    /// Pause is a console button whichever player presses it; other buttons go to player 1's or
    /// player 2's gamepad.
    pub fn set_field(&mut self, button: SmsGgButton, player: Player, pressed: bool)
        ensures
            button == SmsGgButton::Pause ==> *final(self) == (SmsGgInputs { pause: pressed, ..*old(self) }),
            button != SmsGgButton::Pause && player == Player::One ==> *final(self) == (SmsGgInputs {
                p1: old(self).p1.set_button_spec(button, pressed),
                ..*old(self)
            }),
            button != SmsGgButton::Pause && player == Player::Two ==> *final(self) == (SmsGgInputs {
                p2: old(self).p2.set_button_spec(button, pressed),
                ..*old(self)
            }),
            button != SmsGgButton::Pause && player != Player::One && player != Player::Two ==> *final(self)
                == *old(self),
    {
        if button == SmsGgButton::Pause {
            self.pause = pressed;
        } else {
            match player {
                Player::One => self.p1.set_button(button, pressed),
                Player::Two => self.p2.set_button(button, pressed),
                _ => {},
            }
        }
    }
}

} // verus!
