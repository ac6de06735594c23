//! Game Boy / Game Boy Color configuration types.
use crate::input::Player;
use vstd::prelude::*;

verus! {

#[derive(Debug, Clone, Copy, PartialEq, Eq, Structural, Default)]
pub enum GbAspectRatio {
    #[default]
    SquarePixels,
    Stretched,
}

#[derive(Debug, Clone, Copy, PartialEq, Eq, Structural, Default)]
pub enum GbPalette {
    BlackAndWhite,
    #[default]
    GreenTint,
    LimeGreen,
    Custom,
}

#[derive(Debug, Clone, Copy, PartialEq, Eq, Structural, Default)]
pub enum GbcColorCorrection {
    NoCorrection,
    #[default]
    GbcLcd,
    GbaLcd,
}

#[derive(Debug, Clone, Copy, PartialEq, Eq, Structural, Default)]
pub enum GbAudioResampler {
    LowPassNearestNeighbor,
    #[default]
    WindowedSinc,
}

#[derive(Debug, Clone, Copy, PartialEq, Eq, Structural)]
pub enum GameBoyButton {
    Up,
    Left,
    Right,
    Down,
    A,
    B,
    Start,
    Select,
}

/// Game Boy button state (`true` = pressed).
#[derive(Debug, Clone, Copy, PartialEq, Eq, Structural, Default)]
pub struct GameBoyInputs {
    pub up: bool,
    pub left: bool,
    pub right: bool,
    pub down: bool,
    pub a: bool,
    pub b: bool,
    pub start: bool,
    pub select: bool,
}

impl GameBoyInputs {
    pub open spec fn set_button_spec(self, button: GameBoyButton, pressed: bool) -> GameBoyInputs {
        match button {
            GameBoyButton::Up => GameBoyInputs { up: pressed, ..self },
            GameBoyButton::Left => GameBoyInputs { left: pressed, ..self },
            GameBoyButton::Right => GameBoyInputs { right: pressed, ..self },
            GameBoyButton::Down => GameBoyInputs { down: pressed, ..self },
            GameBoyButton::A => GameBoyInputs { a: pressed, ..self },
            GameBoyButton::B => GameBoyInputs { b: pressed, ..self },
            GameBoyButton::Start => GameBoyInputs { start: pressed, ..self },
            GameBoyButton::Select => GameBoyInputs { select: pressed, ..self },
            _ => self,
        }
    }

    /// Sets a gamepad button; buttons that are not on the gamepad are ignored.
    pub fn set_button(&mut self, button: GameBoyButton, pressed: bool)
        ensures
            *final(self) == old(self).set_button_spec(button, pressed),
    {
        let s = *self;
        *self = match button {
            GameBoyButton::Up => GameBoyInputs { up: pressed, ..s },
            GameBoyButton::Left => GameBoyInputs { left: pressed, ..s },
            GameBoyButton::Right => GameBoyInputs { right: pressed, ..s },
            GameBoyButton::Down => GameBoyInputs { down: pressed, ..s },
            GameBoyButton::A => GameBoyInputs { a: pressed, ..s },
            GameBoyButton::B => GameBoyInputs { b: pressed, ..s },
            GameBoyButton::Start => GameBoyInputs { start: pressed, ..s },
            GameBoyButton::Select => GameBoyInputs { select: pressed, ..s },
            _ => s,
        };
    }
}

impl GameBoyInputs {
    /// Sets a button; the Game Boy has a single player.
    pub fn set_field(&mut self, button: GameBoyButton, player: Player, pressed: bool)
        ensures
            *final(self) == old(self).set_button_spec(button, pressed),
    {
        self.set_button(button, pressed);
    }
}

} // verus!
