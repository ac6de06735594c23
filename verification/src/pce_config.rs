//! PC Engine / TurboGrafx-16 configuration types.
use crate::input::Player;
use vstd::prelude::*;

verus! {

pub const TURBO_TAP_GAMEPADS: u8 = 5;

#[derive(Debug, Clone, Copy, PartialEq, Eq, Structural)]
pub enum PceButton {
    Up,
    Left,
    Right,
    Down,
    Button1,
    Button2,
    Run,
    Select,
}

/// Gamepad button state (`true` = pressed).
#[derive(Debug, Clone, Copy, PartialEq, Eq, Structural, Default)]
pub struct PceJoypadState {
    pub up: bool,
    pub left: bool,
    pub right: bool,
    pub down: bool,
    pub button1: bool,
    pub button2: bool,
    pub run: bool,
    pub select: bool,
}

impl PceJoypadState {
    pub open spec fn set_button_spec(self, button: PceButton, pressed: bool) -> PceJoypadState {
        match button {
            PceButton::Up => PceJoypadState { up: pressed, ..self },
            PceButton::Left => PceJoypadState { left: pressed, ..self },
            PceButton::Right => PceJoypadState { right: pressed, ..self },
            PceButton::Down => PceJoypadState { down: pressed, ..self },
            PceButton::Button1 => PceJoypadState { button1: pressed, ..self },
            PceButton::Button2 => PceJoypadState { button2: pressed, ..self },
            PceButton::Run => PceJoypadState { run: pressed, ..self },
            PceButton::Select => PceJoypadState { select: pressed, ..self },
            _ => self,
        }
    }

    /// Sets a gamepad button; buttons that are not on the gamepad are ignored.
    pub fn set_button(&mut self, button: PceButton, pressed: bool)
        ensures
            *final(self) == old(self).set_button_spec(button, pressed),
    {
        let s = *self;
        *self = match button {
            PceButton::Up => PceJoypadState { up: pressed, ..s },
            PceButton::Left => PceJoypadState { left: pressed, ..s },
            PceButton::Right => PceJoypadState { right: pressed, ..s },
            PceButton::Down => PceJoypadState { down: pressed, ..s },
            PceButton::Button1 => PceJoypadState { button1: pressed, ..s },
            PceButton::Button2 => PceJoypadState { button2: pressed, ..s },
            PceButton::Run => PceJoypadState { run: pressed, ..s },
            PceButton::Select => PceJoypadState { select: pressed, ..s },
            _ => s,
        };
    }
}

/// Gamepad state of the five players a TurboTap connects.
#[derive(Debug, Clone, Copy, PartialEq, Eq, Structural, Default)]
pub struct PceInputs {
    pub p1: PceJoypadState,
    pub p2: PceJoypadState,
    pub p3: PceJoypadState,
    pub p4: PceJoypadState,
    pub p5: PceJoypadState,
}

impl PceInputs {
    /// Sets a button of one player's gamepad.
    pub fn set_field(&mut self, button: PceButton, player: Player, pressed: bool)
        ensures
            *final(self) == (match player {
                Player::One => PceInputs { p1: old(self).p1.set_button_spec(button, pressed), ..*old(self) },
                Player::Two => PceInputs { p2: old(self).p2.set_button_spec(button, pressed), ..*old(self) },
                Player::Three => PceInputs { p3: old(self).p3.set_button_spec(button, pressed), ..*old(self) },
                Player::Four => PceInputs { p4: old(self).p4.set_button_spec(button, pressed), ..*old(self) },
                Player::Five => PceInputs { p5: old(self).p5.set_button_spec(button, pressed), ..*old(self) },
            }),
    {
        match player {
            Player::One => self.p1.set_button(button, pressed),
            Player::Two => self.p2.set_button(button, pressed),
            Player::Three => self.p3.set_button(button, pressed),
            Player::Four => self.p4.set_button(button, pressed),
            Player::Five => self.p5.set_button(button, pressed),
        }
    }
}

#[derive(Debug, Clone, Copy, PartialEq, Eq, Structural, Default)]
pub enum PceRegion {
    #[default]
    TurboGrafx16,
    PcEngine,
}

#[derive(Debug, Clone, Copy, PartialEq, Eq, Structural, Default)]
pub enum PceAspectRatio {
    #[default]
    Ntsc,
    SquarePixels,
    Stretched,
}

#[derive(Debug, Clone, Copy, PartialEq, Eq, Structural, Default)]
pub enum PcePaletteType {
    #[default]
    PceComposite,
    Linear,
}

#[derive(Debug, Clone, Copy, PartialEq, Eq, Structural, Default)]
pub enum PceAudioResampler {
    #[default]
    WindowedSinc,
    LowPassNearestNeighbor,
}

#[derive(Debug, Clone, Copy, PartialEq, Eq, Structural, Default)]
pub enum PceInputDevice {
    #[default]
    TwoButtonGamepad,
    TurboTap,
}

} // verus!
