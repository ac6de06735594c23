//! SNES configuration types.
use vstd::prelude::*;

verus! {

#[derive(Debug, Clone, Copy, PartialEq, Eq, Structural, Default)]
pub enum SnesAspectRatio {
    #[default]
    Ntsc,
    Pal,
    SquarePixels,
    Stretched,
}

#[derive(Debug, Clone, Copy, PartialEq, Eq, Structural, Default)]
pub enum AudioInterpolationMode {
    #[default]
    Gaussian,
    Hermite,
}

#[derive(Debug, Clone, Copy, PartialEq, Eq, Structural)]
pub enum SnesButton {
    Up,
    Left,
    Right,
    Down,
    A,
    B,
    X,
    Y,
    L,
    R,
    Start,
    Select,
    SuperScopeFire,
    SuperScopeCursor,
    SuperScopePause,
    SuperScopeTurboToggle,
}

/// Gamepad button state (`true` = pressed).
#[derive(Debug, Clone, Copy, PartialEq, Eq, Structural, Default)]
pub struct SnesJoypadState {
    pub up: bool,
    pub left: bool,
    pub right: bool,
    pub down: bool,
    pub a: bool,
    pub b: bool,
    pub x: bool,
    pub y: bool,
    pub l: bool,
    pub r: bool,
    pub start: bool,
    pub select: bool,
}

impl SnesJoypadState {
    pub open spec fn set_button_spec(self, button: SnesButton, pressed: bool) -> SnesJoypadState {
        match button {
            SnesButton::Up => SnesJoypadState { up: pressed, ..self },
            SnesButton::Left => SnesJoypadState { left: pressed, ..self },
            SnesButton::Right => SnesJoypadState { right: pressed, ..self },
            SnesButton::Down => SnesJoypadState { down: pressed, ..self },
            SnesButton::A => SnesJoypadState { a: pressed, ..self },
            SnesButton::B => SnesJoypadState { b: pressed, ..self },
            SnesButton::X => SnesJoypadState { x: pressed, ..self },
            SnesButton::Y => SnesJoypadState { y: pressed, ..self },
            SnesButton::L => SnesJoypadState { l: pressed, ..self },
            SnesButton::R => SnesJoypadState { r: pressed, ..self },
            SnesButton::Start => SnesJoypadState { start: pressed, ..self },
            SnesButton::Select => SnesJoypadState { select: pressed, ..self },
            _ => self,
        }
    }

    /// Sets a gamepad button; buttons that are not on the gamepad are ignored.
    pub fn set_button(&mut self, button: SnesButton, pressed: bool)
        ensures
            *final(self) == old(self).set_button_spec(button, pressed),
    {
        let s = *self;
        *self = match button {
            SnesButton::Up => SnesJoypadState { up: pressed, ..s },
            SnesButton::Left => SnesJoypadState { left: pressed, ..s },
            SnesButton::Right => SnesJoypadState { right: pressed, ..s },
            SnesButton::Down => SnesJoypadState { down: pressed, ..s },
            SnesButton::A => SnesJoypadState { a: pressed, ..s },
            SnesButton::B => SnesJoypadState { b: pressed, ..s },
            SnesButton::X => SnesJoypadState { x: pressed, ..s },
            SnesButton::Y => SnesJoypadState { y: pressed, ..s },
            SnesButton::L => SnesJoypadState { l: pressed, ..s },
            SnesButton::R => SnesJoypadState { r: pressed, ..s },
            SnesButton::Start => SnesJoypadState { start: pressed, ..s },
            SnesButton::Select => SnesJoypadState { select: pressed, ..s },
            _ => s,
        };
    }
}

#[derive(Debug, Clone, Copy, PartialEq, Eq, Structural)]
pub enum SuperScopeButton {
    Fire,
    Cursor,
    Pause,
    TurboToggle,
}

pub open spec fn to_super_scope_spec(b: SnesButton) -> Option<SuperScopeButton> {
    match b {
        SnesButton::SuperScopeFire => Some(SuperScopeButton::Fire),
        SnesButton::SuperScopeCursor => Some(SuperScopeButton::Cursor),
        SnesButton::SuperScopePause => Some(SuperScopeButton::Pause),
        SnesButton::SuperScopeTurboToggle => Some(SuperScopeButton::TurboToggle),
        _ => None,
    }
}

pub open spec fn to_snes_button_spec(b: SuperScopeButton) -> SnesButton {
    match b {
        SuperScopeButton::Fire => SnesButton::SuperScopeFire,
        SuperScopeButton::Cursor => SnesButton::SuperScopeCursor,
        SuperScopeButton::Pause => SnesButton::SuperScopePause,
        SuperScopeButton::TurboToggle => SnesButton::SuperScopeTurboToggle,
    }
}

impl SnesButton {
    /// The Super Scope button a button stands for, if it is one.
    pub fn to_super_scope(self) -> (r: Option<SuperScopeButton>)
        ensures
            r == to_super_scope_spec(self),
    {
        match self {
            Self::SuperScopeFire => Some(SuperScopeButton::Fire),
            Self::SuperScopeCursor => Some(SuperScopeButton::Cursor),
            Self::SuperScopePause => Some(SuperScopeButton::Pause),
            Self::SuperScopeTurboToggle => Some(SuperScopeButton::TurboToggle),
            _ => None,
        }
    }
}

impl SuperScopeButton {
    pub fn to_snes_button(self) -> (r: SnesButton)
        ensures
            r == to_snes_button_spec(self),
    {
        match self {
            Self::Fire => SnesButton::SuperScopeFire,
            Self::Cursor => SnesButton::SuperScopeCursor,
            Self::Pause => SnesButton::SuperScopePause,
            Self::TurboToggle => SnesButton::SuperScopeTurboToggle,
        }
    }
}

/// Converting a Super Scope button to a SNES button and back gives the same button, and a SNES
/// button that converts to a Super Scope button converts back to itself.
pub proof fn lemma_super_scope_roundtrip(s: SuperScopeButton, b: SnesButton)
    ensures
        to_super_scope_spec(to_snes_button_spec(s)) == Some(s),
        to_super_scope_spec(b) matches Some(t) ==> to_snes_button_spec(t) == b,
{
}

} // verus!
