//! Sega Genesis / Mega Drive configuration: regions, controllers and cheat codes.
pub mod cheats;

use crate::input::Player;
use crate::text::{decimal_digits, push_decimal};
use vstd::prelude::*;
use vstd::string::StringExecFns;

verus! {

pub const NATIVE_M68K_DIVIDER: u64 = 7;

pub const NATIVE_SUB_CPU_DIVIDER: u64 = 4;

pub const NATIVE_SH2_MULTIPLIER: u64 = 3;

pub const MODEL_1_VA2_LPF_CUTOFF: u32 = 3390;

pub const MODEL_1_VA3_LPF_CUTOFF: u32 = 2840;

pub const MODEL_2_1ST_LPF_CUTOFF: u32 = 3789;

pub const MODEL_2_2ND_LPF_CUTOFF: u32 = 6725;

pub const DEFAULT_PCM_LPF_CUTOFF: u32 = 7973;

#[derive(Debug, Clone, Copy, PartialEq, Eq, Structural)]
pub struct GenParParams {
    pub force_square_in_h40: bool,
    pub adjust_for_2x_resolution: bool,
    pub anamorphic_widescreen: bool,
}

#[derive(Debug, Clone, Copy, PartialEq, Eq, Structural, Default)]
pub enum GenesisAspectRatio {
    #[default]
    Auto,
    Ntsc,
    Pal,
    SquarePixels,
    Stretched,
}

#[derive(Debug, Clone, Copy, PartialEq, Eq, Structural)]
pub enum GenesisRegion {
    Americas,
    Japan,
    Europe,
}

impl GenesisRegion {
    pub fn short_name(self) -> (r: &'static str)
        ensures
            self == GenesisRegion::Americas ==> r@ == "US"@,
            self == GenesisRegion::Europe ==> r@ == "EU"@,
            self == GenesisRegion::Japan ==> r@ == "JP"@,
    {
        match self {
            Self::Americas => "US",
            Self::Europe => "EU",
            Self::Japan => "JP",
        }
    }

    pub fn long_name(self) -> (r: &'static str)
        ensures
            self == GenesisRegion::Americas ==> r@ == "US"@,
            self == GenesisRegion::Europe ==> r@ == "Europe"@,
            self == GenesisRegion::Japan ==> r@ == "Japan"@,
    {
        match self {
            Self::Americas => "US",
            Self::Europe => "Europe",
            Self::Japan => "Japan",
        }
    }
}

#[derive(Debug, Clone, Copy, PartialEq, Eq, Structural, Default)]
pub enum Opn2BusyBehavior {
    Ym2612,
    #[default]
    Ym3438,
    AlwaysZero,
}

#[derive(Debug, Clone, Copy, PartialEq, Eq, Structural, Default)]
pub enum GenesisControllerType {
    ThreeButton,
    #[default]
    SixButton,
    Xe1ap,
    NoController,
}

#[derive(Debug, Clone, Copy, PartialEq, Eq, Structural, Default)]
pub enum PcmInterpolation {
    #[default]
    NoInterpolation,
    Linear,
    CubicHermite,
    CubicHermite6Point,
}

#[derive(Debug, Clone, Copy, PartialEq, Eq, Structural, Default)]
pub enum S32XVideoOut {
    #[default]
    Combined,
    GenesisOnly,
    S32XOnly,
}

#[derive(Debug, Clone, Copy, PartialEq, Eq, Structural, Default)]
pub enum S32XColorTint {
    #[default]
    NoTint,
    SlightYellow,
    Yellow,
    SlightPurple,
    Purple,
}

#[derive(Debug, Clone, Copy, PartialEq, Eq, Structural)]
pub enum S32XVoidColor {
    PaletteRam { idx: u8 },
    Direct { r: u8, g: u8, b: u8, a: bool },
}

impl S32XVoidColor {
    /// `Palette RAM index <idx>`, or `RGBA(<r>, <g>, <b>, <a>)` with the alpha flag as 0 or 1.
    pub open spec fn text(self) -> Seq<char> {
        match self {
            S32XVoidColor::PaletteRam { idx } => "Palette RAM index "@ + decimal_digits(idx as nat),
            S32XVoidColor::Direct { r, g, b, a } => "RGBA("@ + decimal_digits(r as nat) + ", "@
                + decimal_digits(g as nat) + ", "@ + decimal_digits(b as nat) + ", "@
                + decimal_digits(if a { 1 } else { 0 }) + ")"@,
        }
    }

    /// The color as shown to the user.
    pub fn to_string(&self) -> (r: String)
        ensures
            r@ == self.text(),
    {
        match *self {
            S32XVoidColor::PaletteRam { idx } => {
                let mut t = String::from_str("Palette RAM index ");
                push_decimal(&mut t, idx as u32);
                t
            },
            S32XVoidColor::Direct { r, g, b, a } => {
                let mut t = String::from_str("RGBA(");
                push_decimal(&mut t, r as u32);
                t.append(", ");
                push_decimal(&mut t, g as u32);
                t.append(", ");
                push_decimal(&mut t, b as u32);
                t.append(", ");
                push_decimal(&mut t, if a { 1 } else { 0 });
                t.append(")");
                t
            },
        }
    }
}

impl Default for S32XVoidColor {
    fn default() -> (r: Self)
        ensures
            r == (S32XVoidColor::Direct { r: 0, g: 0, b: 0, a: false }),
    {
        Self::Direct { r: 0, g: 0, b: 0, a: false }
    }
}

#[derive(Debug, Clone, Copy, PartialEq, Eq, Structural, Default)]
pub enum S32XVoidColorType {
    PaletteRam,
    #[default]
    Direct,
}

#[derive(Debug, Clone, Copy, PartialEq, Eq, Structural, Default)]
pub enum S32XPwmResampling {
    CubicHermite,
    #[default]
    WindowedSinc,
}

#[derive(Debug, Clone, Copy, PartialEq, Eq, Structural)]
pub enum GenesisButton {
    Up,
    Left,
    Right,
    Down,
    A,
    B,
    C,
    X,
    Y,
    Z,
    Start,
    Mode,
    Xe1apAnalogLeft,
    Xe1apAnalogRight,
    Xe1apAnalogUp,
    Xe1apAnalogDown,
    Xe1apSliderForward,
    Xe1apSliderBackward,
    Xe1apA,
    Xe1apB,
    Xe1apC,
    Xe1apD,
    Xe1apE1,
    Xe1apE2,
    Xe1apAp,
    Xe1apBp,
    Xe1apStart,
    Xe1apSelect,
}

pub open spec fn is_gamepad_spec(b: GenesisButton) -> bool {
    b == GenesisButton::Up || b == GenesisButton::Left || b == GenesisButton::Right || b
        == GenesisButton::Down || b == GenesisButton::A || b == GenesisButton::B || b
        == GenesisButton::C || b == GenesisButton::X || b == GenesisButton::Y || b
        == GenesisButton::Z || b == GenesisButton::Start || b == GenesisButton::Mode
}

impl GenesisButton {
    /// Whether the button is one of the 12 buttons of the 3- and 6-button gamepads.
    pub fn is_gamepad(self) -> (r: bool)
        ensures
            r == is_gamepad_spec(self),
    {
        match self {
            Self::Up | Self::Left | Self::Right | Self::Down | Self::A | Self::B | Self::C | Self::X
            | Self::Y | Self::Z | Self::Start | Self::Mode => true,
            _ => false,
        }
    }

    /// Whether the button is one of the XE-1 AP analog controller's inputs.
    pub fn is_xe1ap(self) -> (r: bool)
        ensures
            r == !is_gamepad_spec(self),
    {
        match self {
            Self::Xe1apAnalogLeft | Self::Xe1apAnalogRight | Self::Xe1apAnalogUp
            | Self::Xe1apAnalogDown | Self::Xe1apSliderForward | Self::Xe1apSliderBackward
            | Self::Xe1apA | Self::Xe1apB | Self::Xe1apC | Self::Xe1apD | Self::Xe1apE1
            | Self::Xe1apE2 | Self::Xe1apAp | Self::Xe1apBp | Self::Xe1apStart | Self::Xe1apSelect => {
                true
            },
            _ => false,
        }
    }
}

/// State of the 3- and 6-button gamepads' buttons (`true` = pressed).
#[derive(Debug, Clone, Copy, PartialEq, Eq, Structural, Default)]
pub struct GenesisJoypadState {
    pub up: bool,
    pub left: bool,
    pub right: bool,
    pub down: bool,
    pub a: bool,
    pub b: bool,
    pub c: bool,
    pub x: bool,
    pub y: bool,
    pub z: bool,
    pub start: bool,
    pub mode: bool,
}

impl GenesisJoypadState {
    pub fn new() -> (r: Self)
        ensures
            !r.up && !r.left && !r.right && !r.down && !r.a && !r.b && !r.c && !r.x && !r.y && !r.z
                && !r.start && !r.mode,
    {
        GenesisJoypadState {
            up: false,
            left: false,
            right: false,
            down: false,
            a: false,
            b: false,
            c: false,
            x: false,
            y: false,
            z: false,
            start: false,
            mode: false,
        }
    }

    /// Sets the state of a gamepad button; other buttons do not belong to the gamepad.
    #[verifier::spinoff_prover]
    pub fn set_button(&mut self, button: GenesisButton, pressed: bool)
        ensures
            *final(self) == (match button {
                GenesisButton::Up => GenesisJoypadState { up: pressed, ..*old(self) },
                GenesisButton::Left => GenesisJoypadState { left: pressed, ..*old(self) },
                GenesisButton::Right => GenesisJoypadState { right: pressed, ..*old(self) },
                GenesisButton::Down => GenesisJoypadState { down: pressed, ..*old(self) },
                GenesisButton::A => GenesisJoypadState { a: pressed, ..*old(self) },
                GenesisButton::B => GenesisJoypadState { b: pressed, ..*old(self) },
                GenesisButton::C => GenesisJoypadState { c: pressed, ..*old(self) },
                GenesisButton::X => GenesisJoypadState { x: pressed, ..*old(self) },
                GenesisButton::Y => GenesisJoypadState { y: pressed, ..*old(self) },
                GenesisButton::Z => GenesisJoypadState { z: pressed, ..*old(self) },
                GenesisButton::Start => GenesisJoypadState { start: pressed, ..*old(self) },
                GenesisButton::Mode => GenesisJoypadState { mode: pressed, ..*old(self) },
                _ => *old(self),
            }),
    {
        match button {
            GenesisButton::Up => self.up = pressed,
            GenesisButton::Left => self.left = pressed,
            GenesisButton::Right => self.right = pressed,
            GenesisButton::Down => self.down = pressed,
            GenesisButton::A => self.a = pressed,
            GenesisButton::B => self.b = pressed,
            GenesisButton::C => self.c = pressed,
            GenesisButton::X => self.x = pressed,
            GenesisButton::Y => self.y = pressed,
            GenesisButton::Z => self.z = pressed,
            GenesisButton::Start => self.start = pressed,
            GenesisButton::Mode => self.mode = pressed,
            _ => {},
        }
    }
}

#[derive(Debug, Clone, Copy, PartialEq, Eq, Structural)]
pub struct Xe1apJoypadState {
    pub analog_x: u8,
    pub analog_y: u8,
    pub slider: u8,
    pub a: bool,
    pub b: bool,
    pub c: bool,
    pub d: bool,
    pub e1: bool,
    pub e2: bool,
    pub ap: bool,
    pub bp: bool,
    pub start: bool,
    pub select: bool,
    // Fields used only for mapping real world digital inputs to XE-1 AP analog inputs
    pub analog_left: bool,
    pub analog_right: bool,
    pub analog_up: bool,
    pub analog_down: bool,
    pub slider_forward: bool,
    pub slider_backward: bool,
}

/// Analog position from an input axis value pushed in the negative direction: 0 (full) to 128
/// (center), rounding toward full deflection.
#[verifier::opaque]
pub open spec fn analog_negative_spec(value: i16) -> u8 {
    let shifted = value / 256 + (if value % 256 != 0 { 1int } else { 0int });
    (128 - shifted) as u8
}

/// Analog position from an input axis value pushed in the positive direction: 128 (center) to
/// 255 (full).
#[verifier::opaque]
pub open spec fn analog_positive_spec(value: i16) -> u8 {
    (value / 256 + 128) as u8
}

/// Analog position from a pair of digital inputs: center when neither or both are pressed.
#[verifier::opaque]
pub open spec fn digital_to_analog_spec(negative: bool, positive: bool) -> u8 {
    if negative == positive {
        128
    } else if negative {
        0
    } else {
        255
    }
}

pub fn xe1ap_analog_negative(value: i16) -> (r: u8)
    ensures
        r == analog_negative_spec(value),
{
    // Negative values map to 0-128; round towards negative infinity instead of 0
    reveal(analog_negative_spec);
    let v = value as i32 + 0x8000;
    let floor = v / 256 - 128;
    let shifted = floor + (if v % 256 != 0 { 1i32 } else { 0i32 });
    assert(value / 256 == floor && (value % 256 != 0) == (v % 256 != 0)) by {
        assert(v == value + 0x8000);
        assert((value + 0x8000) / 256 == value / 256 + 128 && (value + 0x8000) % 256 == value % 256)
            by (nonlinear_arith)
            requires
                -0x8000 <= value < 0x8000,
        ;
    }
    (128 - shifted) as u8
}

pub fn xe1ap_analog_positive(value: i16) -> (r: u8)
    ensures
        r == analog_positive_spec(value),
{
    // Positive values map to 128-255
    reveal(analog_positive_spec);
    let v = value as i32 + 0x8000;
    assert((value + 0x8000) / 256 == value / 256 + 128) by (nonlinear_arith)
        requires
            -0x8000 <= value < 0x8000,
    ;
    (v / 256) as u8
}

pub fn xe1ap_digital_to_analog(negative: bool, positive: bool) -> (r: u8)
    ensures
        r == digital_to_analog_spec(negative, positive),
{
    reveal(analog_positive_spec);
    reveal(analog_negative_spec);
    reveal(digital_to_analog_spec);
    if negative == positive {
        // Neither is pressed or both are pressed
        xe1ap_analog_positive(0)
    } else if negative {
        xe1ap_analog_negative(i16::MAX)
    } else {
        xe1ap_analog_positive(i16::MAX)
    }
}

impl Default for Xe1apJoypadState {
    fn default() -> (r: Self)
        ensures
            r == Xe1apJoypadState::spec_default(),
    {
        reveal(analog_positive_spec);
        Self {
            analog_x: xe1ap_analog_positive(0),
            analog_y: xe1ap_analog_positive(0),
            slider: xe1ap_analog_positive(0),
            a: false,
            b: false,
            c: false,
            d: false,
            e1: false,
            e2: false,
            ap: false,
            bp: false,
            start: false,
            select: false,
            analog_left: false,
            analog_right: false,
            analog_up: false,
            analog_down: false,
            slider_forward: false,
            slider_backward: false,
        }
    }
}

impl Xe1apJoypadState {
    /// Stick and slider centered, no button pressed.
    pub open spec fn spec_default() -> Xe1apJoypadState {
        Xe1apJoypadState {
            analog_x: 128,
            analog_y: 128,
            slider: 128,
            a: false,
            b: false,
            c: false,
            d: false,
            e1: false,
            e2: false,
            ap: false,
            bp: false,
            start: false,
            select: false,
            analog_left: false,
            analog_right: false,
            analog_up: false,
            analog_down: false,
            slider_forward: false,
            slider_backward: false,
        }
    }

    /// State after a digital input: a stick or slider direction moves the axis to full
    /// deflection (or back to center when released or when both directions are held); a button
    /// sets its flag. Gamepad buttons do not belong to the XE-1 AP.
    pub open spec fn set_button_spec(self, button: GenesisButton, pressed: bool) -> Xe1apJoypadState {
        match button {
            GenesisButton::Xe1apAnalogLeft => Xe1apJoypadState {
                analog_left: pressed,
                analog_x: digital_to_analog_spec(pressed, self.analog_right),
                ..self
            },
            GenesisButton::Xe1apAnalogRight => Xe1apJoypadState {
                analog_right: pressed,
                analog_x: digital_to_analog_spec(self.analog_left, pressed),
                ..self
            },
            GenesisButton::Xe1apAnalogUp => Xe1apJoypadState {
                analog_up: pressed,
                analog_y: digital_to_analog_spec(pressed, self.analog_down),
                ..self
            },
            GenesisButton::Xe1apAnalogDown => Xe1apJoypadState {
                analog_down: pressed,
                analog_y: digital_to_analog_spec(self.analog_up, pressed),
                ..self
            },
            GenesisButton::Xe1apSliderForward => Xe1apJoypadState {
                slider_forward: pressed,
                slider: digital_to_analog_spec(self.slider_backward, pressed),
                ..self
            },
            GenesisButton::Xe1apSliderBackward => Xe1apJoypadState {
                slider_backward: pressed,
                slider: digital_to_analog_spec(pressed, self.slider_forward),
                ..self
            },
            GenesisButton::Xe1apA => Xe1apJoypadState { a: pressed, ..self },
            GenesisButton::Xe1apB => Xe1apJoypadState { b: pressed, ..self },
            GenesisButton::Xe1apC => Xe1apJoypadState { c: pressed, ..self },
            GenesisButton::Xe1apD => Xe1apJoypadState { d: pressed, ..self },
            GenesisButton::Xe1apE1 => Xe1apJoypadState { e1: pressed, ..self },
            GenesisButton::Xe1apE2 => Xe1apJoypadState { e2: pressed, ..self },
            GenesisButton::Xe1apAp => Xe1apJoypadState { ap: pressed, ..self },
            GenesisButton::Xe1apBp => Xe1apJoypadState { bp: pressed, ..self },
            GenesisButton::Xe1apStart => Xe1apJoypadState { start: pressed, ..self },
            GenesisButton::Xe1apSelect => Xe1apJoypadState { select: pressed, ..self },
            _ => self,
        }
    }

    #[verifier::rlimit(100)]
    pub fn set_button(&mut self, button: GenesisButton, pressed: bool)
        ensures
            *final(self) == old(self).set_button_spec(button, pressed),
    {
        let s = *self;
        *self = match button {
            GenesisButton::Xe1apAnalogLeft => Xe1apJoypadState {
                analog_left: pressed,
                analog_x: xe1ap_digital_to_analog(pressed, s.analog_right),
                ..s
            },
            GenesisButton::Xe1apAnalogRight => Xe1apJoypadState {
                analog_right: pressed,
                analog_x: xe1ap_digital_to_analog(s.analog_left, pressed),
                ..s
            },
            GenesisButton::Xe1apAnalogUp => Xe1apJoypadState {
                analog_up: pressed,
                analog_y: xe1ap_digital_to_analog(pressed, s.analog_down),
                ..s
            },
            GenesisButton::Xe1apAnalogDown => Xe1apJoypadState {
                analog_down: pressed,
                analog_y: xe1ap_digital_to_analog(s.analog_up, pressed),
                ..s
            },
            GenesisButton::Xe1apSliderForward => Xe1apJoypadState {
                slider_forward: pressed,
                slider: xe1ap_digital_to_analog(s.slider_backward, pressed),
                ..s
            },
            GenesisButton::Xe1apSliderBackward => Xe1apJoypadState {
                slider_backward: pressed,
                slider: xe1ap_digital_to_analog(pressed, s.slider_forward),
                ..s
            },
            GenesisButton::Xe1apA => Xe1apJoypadState { a: pressed, ..s },
            GenesisButton::Xe1apB => Xe1apJoypadState { b: pressed, ..s },
            GenesisButton::Xe1apC => Xe1apJoypadState { c: pressed, ..s },
            GenesisButton::Xe1apD => Xe1apJoypadState { d: pressed, ..s },
            GenesisButton::Xe1apE1 => Xe1apJoypadState { e1: pressed, ..s },
            GenesisButton::Xe1apE2 => Xe1apJoypadState { e2: pressed, ..s },
            GenesisButton::Xe1apAp => Xe1apJoypadState { ap: pressed, ..s },
            GenesisButton::Xe1apBp => Xe1apJoypadState { bp: pressed, ..s },
            GenesisButton::Xe1apStart => Xe1apJoypadState { start: pressed, ..s },
            GenesisButton::Xe1apSelect => Xe1apJoypadState { select: pressed, ..s },
            _ => s,
        };
    }

    pub open spec fn set_analog_spec(self, button: GenesisButton, value: i16) -> Xe1apJoypadState {
        match button {
            GenesisButton::Xe1apAnalogLeft => Xe1apJoypadState {
                analog_x: analog_negative_spec(value),
                ..self
            },
            GenesisButton::Xe1apAnalogRight => Xe1apJoypadState {
                analog_x: analog_positive_spec(value),
                ..self
            },
            GenesisButton::Xe1apAnalogUp => Xe1apJoypadState {
                analog_y: analog_negative_spec(value),
                ..self
            },
            GenesisButton::Xe1apAnalogDown => Xe1apJoypadState {
                analog_y: analog_positive_spec(value),
                ..self
            },
            GenesisButton::Xe1apSliderForward => Xe1apJoypadState {
                slider: analog_positive_spec(value),
                ..self
            },
            GenesisButton::Xe1apSliderBackward => Xe1apJoypadState {
                slider: analog_negative_spec(value),
                ..self
            },
            _ => self,
        }
    }

    pub fn set_analog(&mut self, button: GenesisButton, value: i16)
        ensures
            *final(self) == old(self).set_analog_spec(button, value),
    {
        let s = *self;
        *self = match button {
            GenesisButton::Xe1apAnalogLeft => Xe1apJoypadState { analog_x: xe1ap_analog_negative(value), ..s },
            GenesisButton::Xe1apAnalogRight => Xe1apJoypadState { analog_x: xe1ap_analog_positive(value), ..s },
            GenesisButton::Xe1apAnalogUp => Xe1apJoypadState { analog_y: xe1ap_analog_negative(value), ..s },
            GenesisButton::Xe1apAnalogDown => Xe1apJoypadState { analog_y: xe1ap_analog_positive(value), ..s },
            GenesisButton::Xe1apSliderForward => Xe1apJoypadState { slider: xe1ap_analog_positive(value), ..s },
            GenesisButton::Xe1apSliderBackward => Xe1apJoypadState { slider: xe1ap_analog_negative(value), ..s },
            _ => s,
        };
    }
}

#[derive(Debug, Clone, Copy, PartialEq, Eq, Structural)]
pub enum GenesisController {
    ThreeButton(GenesisJoypadState),
    SixButton(GenesisJoypadState),
    Xe1ap(Xe1apJoypadState),
    NoController,
}

pub open spec fn controller_type_spec(c: GenesisController) -> GenesisControllerType {
    match c {
        GenesisController::ThreeButton(_) => GenesisControllerType::ThreeButton,
        GenesisController::SixButton(_) => GenesisControllerType::SixButton,
        GenesisController::Xe1ap(_) => GenesisControllerType::Xe1ap,
        GenesisController::NoController => GenesisControllerType::NoController,
    }
}

impl GenesisController {
    /// A controller of the given type with nothing pressed (XE-1 AP axes centered).
    pub fn new(controller_type: GenesisControllerType) -> (r: Self)
        ensures
            controller_type_spec(r) == controller_type,
            r matches GenesisController::Xe1ap(s) ==> s == Xe1apJoypadState::spec_default(),
            r matches GenesisController::ThreeButton(s) ==> s == GenesisJoypadState::spec_default(),
            r matches GenesisController::SixButton(s) ==> s == GenesisJoypadState::spec_default(),
    {
        match controller_type {
            GenesisControllerType::ThreeButton => Self::ThreeButton(GenesisJoypadState::new()),
            GenesisControllerType::SixButton => Self::SixButton(GenesisJoypadState::new()),
            GenesisControllerType::Xe1ap => Self::Xe1ap(Xe1apJoypadState::default()),
            GenesisControllerType::NoController => Self::NoController,
        }
    }

    pub fn set_field(&mut self, button: GenesisButton, pressed: bool)
        ensures
            controller_type_spec(*final(self)) == controller_type_spec(*old(self)),
            *old(self) matches GenesisController::ThreeButton(s) ==> *final(self) matches GenesisController::ThreeButton(n) && n
                    == s.set_button_spec(button, pressed),
            *old(self) matches GenesisController::SixButton(s) ==> *final(self) matches GenesisController::SixButton(n) && n == s.set_button_spec(button, pressed),
            *old(self) matches GenesisController::Xe1ap(s) ==> *final(self) matches GenesisController::Xe1ap(n) && n == s.set_button_spec(button, pressed),
            *old(self) == GenesisController::NoController ==> *final(self) == *old(self),
    {
        match self {
            Self::ThreeButton(state) => state.set_button(button, pressed),
            Self::SixButton(state) => state.set_button(button, pressed),
            Self::Xe1ap(state) => state.set_button(button, pressed),
            Self::NoController => {},
        }
    }

    pub fn set_analog(&mut self, button: GenesisButton, value: i16)
        ensures
            *old(self) matches GenesisController::Xe1ap(s) ==> *final(self) matches GenesisController::Xe1ap(n) && n == s.set_analog_spec(button, value),
            !(*old(self) is Xe1ap) ==> *final(self) == *old(self),
    {
        match self {
            Self::Xe1ap(state) => state.set_analog(button, value),
            _ => {},
        }
    }

    pub fn controller_type(self) -> (r: GenesisControllerType)
        ensures
            r == controller_type_spec(self),
    {
        match self {
            Self::ThreeButton(_) => GenesisControllerType::ThreeButton,
            Self::SixButton(_) => GenesisControllerType::SixButton,
            Self::Xe1ap(_) => GenesisControllerType::Xe1ap,
            Self::NoController => GenesisControllerType::NoController,
        }
    }
}

impl GenesisJoypadState {
    pub open spec fn spec_default() -> GenesisJoypadState {
        GenesisJoypadState {
            up: false,
            left: false,
            right: false,
            down: false,
            a: false,
            b: false,
            c: false,
            x: false,
            y: false,
            z: false,
            start: false,
            mode: false,
        }
    }

    pub open spec fn set_button_spec(self, button: GenesisButton, pressed: bool) -> GenesisJoypadState {
        match button {
            GenesisButton::Up => GenesisJoypadState { up: pressed, ..self },
            GenesisButton::Left => GenesisJoypadState { left: pressed, ..self },
            GenesisButton::Right => GenesisJoypadState { right: pressed, ..self },
            GenesisButton::Down => GenesisJoypadState { down: pressed, ..self },
            GenesisButton::A => GenesisJoypadState { a: pressed, ..self },
            GenesisButton::B => GenesisJoypadState { b: pressed, ..self },
            GenesisButton::C => GenesisJoypadState { c: pressed, ..self },
            GenesisButton::X => GenesisJoypadState { x: pressed, ..self },
            GenesisButton::Y => GenesisJoypadState { y: pressed, ..self },
            GenesisButton::Z => GenesisJoypadState { z: pressed, ..self },
            GenesisButton::Start => GenesisJoypadState { start: pressed, ..self },
            GenesisButton::Mode => GenesisJoypadState { mode: pressed, ..self },
            _ => self,
        }
    }
}

impl Default for GenesisController {
    fn default() -> (r: Self)
        ensures
            r == GenesisController::SixButton(GenesisJoypadState::spec_default()),
    {
        Self::new(GenesisControllerType::SixButton)
    }
}

#[derive(Debug, Clone, Copy, PartialEq, Eq, Structural)]
pub struct GenesisInputs {
    pub p1: GenesisController,
    pub p2: GenesisController,
}

impl Default for GenesisInputs {
    fn default() -> (r: Self)
        ensures
            r.p1 == GenesisController::SixButton(GenesisJoypadState::spec_default()),
            r.p2 == GenesisController::NoController,
    {
        Self { p1: GenesisController::default(), p2: GenesisController::NoController }
    }
}

impl GenesisInputs {
    /// Sets a button of player 1's or player 2's controller; other players have none.
    pub fn set_field(&mut self, button: GenesisButton, player: Player, pressed: bool)
        ensures
            player == Player::One ==> final(self).p2 == old(self).p2,
            player == Player::Two ==> final(self).p1 == old(self).p1,
            player != Player::One && player != Player::Two ==> *final(self) == *old(self),
            player == Player::One ==> controller_type_spec(final(self).p1) == controller_type_spec(
                old(self).p1,
            ),
            player == Player::Two ==> controller_type_spec(final(self).p2) == controller_type_spec(
                old(self).p2,
            ),
    {
        match player {
            Player::One => self.p1.set_field(button, pressed),
            Player::Two => self.p2.set_field(button, pressed),
            _ => {},
        }
    }

    /// Sets an analog input of player 1's or player 2's controller.
    pub fn set_analog(&mut self, button: GenesisButton, player: Player, value: i16)
        ensures
            player == Player::One ==> final(self).p2 == old(self).p2,
            player == Player::Two ==> final(self).p1 == old(self).p1,
            player != Player::One && player != Player::Two ==> *final(self) == *old(self),
    {
        match player {
            Player::One => self.p1.set_analog(button, value),
            Player::Two => self.p2.set_analog(button, value),
            _ => {},
        }
    }
}

} // verus!
