//! Game Boy Advance configuration types.
use crate::input::{InputModal, Player};
use crate::text::{decimal_digits, push_decimal};
use vstd::prelude::*;
use vstd::string::StringExecFns;

verus! {

#[derive(Debug, Clone, Copy, PartialEq, Eq, Structural)]
pub enum GbaButton {
    Up,
    Left,
    Right,
    Down,
    A,
    B,
    L,
    R,
    Start,
    Select,
    SolarIncreaseBrightness,
    SolarDecreaseBrightness,
    SolarMinBrightness,
    SolarMaxBrightness,
}

pub open spec fn is_solar_spec(b: GbaButton) -> bool {
    b == GbaButton::SolarIncreaseBrightness || b == GbaButton::SolarDecreaseBrightness || b
        == GbaButton::SolarMinBrightness || b == GbaButton::SolarMaxBrightness
}

impl GbaButton {
    /// Whether the button is one of the console's own buttons.
    pub fn is_joypad(self) -> (r: bool)
        ensures
            r == !is_solar_spec(self),
    {
        match self {
            Self::Up | Self::Left | Self::Right | Self::Down | Self::A | Self::B | Self::L | Self::R
            | Self::Start | Self::Select => true,
            _ => false,
        }
    }

    /// Whether the button controls the cartridge solar sensor's simulated brightness.
    pub fn is_solar_sensor(self) -> (r: bool)
        ensures
            r == is_solar_spec(self),
    {
        match self {
            Self::SolarIncreaseBrightness | Self::SolarDecreaseBrightness | Self::SolarMinBrightness
            | Self::SolarMaxBrightness => true,
            _ => false,
        }
    }
}

/// Gamepad button state (`true` = pressed).
#[derive(Debug, Clone, Copy, PartialEq, Eq, Structural, Default)]
pub struct GbaJoypadInputs {
    pub up: bool,
    pub left: bool,
    pub right: bool,
    pub down: bool,
    pub a: bool,
    pub b: bool,
    pub l: bool,
    pub r: bool,
    pub start: bool,
    pub select: bool,
}

impl GbaJoypadInputs {
    pub open spec fn set_button_spec(self, button: GbaButton, pressed: bool) -> GbaJoypadInputs {
        match button {
            GbaButton::Up => GbaJoypadInputs { up: pressed, ..self },
            GbaButton::Left => GbaJoypadInputs { left: pressed, ..self },
            GbaButton::Right => GbaJoypadInputs { right: pressed, ..self },
            GbaButton::Down => GbaJoypadInputs { down: pressed, ..self },
            GbaButton::A => GbaJoypadInputs { a: pressed, ..self },
            GbaButton::B => GbaJoypadInputs { b: pressed, ..self },
            GbaButton::L => GbaJoypadInputs { l: pressed, ..self },
            GbaButton::R => GbaJoypadInputs { r: pressed, ..self },
            GbaButton::Start => GbaJoypadInputs { start: pressed, ..self },
            GbaButton::Select => GbaJoypadInputs { select: pressed, ..self },
            _ => self,
        }
    }

    /// Sets a gamepad button; buttons that are not on the gamepad are ignored.
    pub fn set_button(&mut self, button: GbaButton, pressed: bool)
        ensures
            *final(self) == old(self).set_button_spec(button, pressed),
    {
        let s = *self;
        *self = match button {
            GbaButton::Up => GbaJoypadInputs { up: pressed, ..s },
            GbaButton::Left => GbaJoypadInputs { left: pressed, ..s },
            GbaButton::Right => GbaJoypadInputs { right: pressed, ..s },
            GbaButton::Down => GbaJoypadInputs { down: pressed, ..s },
            GbaButton::A => GbaJoypadInputs { a: pressed, ..s },
            GbaButton::B => GbaJoypadInputs { b: pressed, ..s },
            GbaButton::L => GbaJoypadInputs { l: pressed, ..s },
            GbaButton::R => GbaJoypadInputs { r: pressed, ..s },
            GbaButton::Start => GbaJoypadInputs { start: pressed, ..s },
            GbaButton::Select => GbaJoypadInputs { select: pressed, ..s },
            _ => s,
        };
    }
}

pub const DEFAULT_SOLAR_BRIGHTNESS_STEP: u8 = 5;

pub const DEFAULT_SOLAR_MIN_BRIGHTNESS: u8 = 255 - 0xE8;

pub const DEFAULT_SOLAR_MAX_BRIGHTNESS: u8 = 255 - 0x50;

#[derive(Debug, Clone, Copy, PartialEq, Eq, Structural)]
pub struct SolarSensorState {
    pub brightness: u8,
    pub brightness_step: u8,
    pub min_brightness: u8,
    pub max_brightness: u8,
}

impl Default for SolarSensorState {
    fn default() -> (r: Self)
        ensures
            r == (SolarSensorState {
                brightness: DEFAULT_SOLAR_MIN_BRIGHTNESS,
                brightness_step: DEFAULT_SOLAR_BRIGHTNESS_STEP,
                min_brightness: DEFAULT_SOLAR_MIN_BRIGHTNESS,
                max_brightness: DEFAULT_SOLAR_MAX_BRIGHTNESS,
            }),
    {
        Self {
            brightness: DEFAULT_SOLAR_MIN_BRIGHTNESS,
            brightness_step: DEFAULT_SOLAR_BRIGHTNESS_STEP,
            min_brightness: DEFAULT_SOLAR_MIN_BRIGHTNESS,
            max_brightness: DEFAULT_SOLAR_MAX_BRIGHTNESS,
        }
    }
}

/// Brightness after a solar sensor button: one step up (saturating, then capped at the maximum),
/// one step down (saturating at 0, then raised to the minimum), or straight to the minimum or
/// maximum. Other buttons leave it.
pub open spec fn solar_press_spec(s: SolarSensorState, button: GbaButton) -> u8 {
    match button {
        GbaButton::SolarIncreaseBrightness => {
            let up = if s.brightness + s.brightness_step > 255 {
                255
            } else {
                s.brightness + s.brightness_step
            };
            if up < s.max_brightness {
                up as u8
            } else {
                s.max_brightness
            }
        },
        GbaButton::SolarDecreaseBrightness => {
            let down = if s.brightness < s.brightness_step {
                0
            } else {
                s.brightness - s.brightness_step
            };
            if down > s.min_brightness {
                down as u8
            } else {
                s.min_brightness
            }
        },
        GbaButton::SolarMinBrightness => s.min_brightness,
        GbaButton::SolarMaxBrightness => s.max_brightness,
        _ => s.brightness,
    }
}

impl SolarSensorState {
    pub fn handle_button_press(&mut self, button: GbaButton)
        ensures
            *final(self) == (SolarSensorState { brightness: solar_press_spec(*old(self), button), ..*old(self) }),
    {
        match button {
            GbaButton::SolarIncreaseBrightness => {
                let up = self.brightness.saturating_add(self.brightness_step);
                self.brightness = if up < self.max_brightness { up } else { self.max_brightness };
            },
            GbaButton::SolarDecreaseBrightness => {
                let down = self.brightness.saturating_sub(self.brightness_step);
                self.brightness = if down > self.min_brightness { down } else { self.min_brightness };
            },
            GbaButton::SolarMinBrightness => {
                self.brightness = self.min_brightness;
            },
            GbaButton::SolarMaxBrightness => {
                self.brightness = self.max_brightness;
            },
            _ => {},
        }
    }
}

#[derive(Debug, Clone, Copy, PartialEq, Eq, Structural)]
pub struct GbaInputs {
    pub joypad: GbaJoypadInputs,
    pub solar: SolarSensorState,
}

impl GbaInputs {
    /// A press of a solar sensor button shows the sensor's brightness; no other input shows a
    /// message.
    pub fn modal_for_input(&self, button: GbaButton, _player: Player, pressed: bool) -> (r: Option<
        InputModal,
    >)
        ensures
            r is Some <==> pressed && is_solar_spec(button),
            r matches Some(modal) ==> modal.id matches Some(id) && id@ == "solar_sensor"@
                && modal.text@ == "Solar sensor brightness: "@ + decimal_digits(
                self.solar.brightness as nat,
            ),
    {
        if !pressed || !button.is_solar_sensor() {
            return None;
        }

        let mut text = String::from_str("Solar sensor brightness: ");
        push_decimal(&mut text, self.solar.brightness as u32);
        Some(InputModal { id: Some(String::from_str("solar_sensor")), text })
    }

    /// A solar sensor button acts on press only; any other button sets the joypad state.
    pub fn set_field(&mut self, button: GbaButton, player: Player, pressed: bool)
        ensures
            is_solar_spec(button) && pressed ==> final(self).joypad == old(self).joypad && final(self).solar
                == (SolarSensorState { brightness: solar_press_spec(old(self).solar, button), ..old(self).solar }),
            is_solar_spec(button) && !pressed ==> *final(self) == *old(self),
            !is_solar_spec(button) ==> final(self).solar == old(self).solar && final(self).joypad
                == old(self).joypad.set_button_spec(button, pressed),
    {
        if button.is_solar_sensor() {
            if pressed {
                self.solar.handle_button_press(button);
            }
        } else {
            self.joypad.set_button(button, pressed);
        }
    }
}

#[derive(Debug, Clone, Copy, PartialEq, Eq, Structural, Default)]
pub enum GbaAspectRatio {
    #[default]
    SquarePixels,
    Stretched,
}

#[derive(Debug, Clone, Copy, PartialEq, Eq, Structural, Default)]
pub enum GbaColorCorrection {
    NoCorrection,
    #[default]
    GbaLcd,
}

#[derive(Debug, Clone, Copy, PartialEq, Eq, Structural)]
pub enum GbaSaveMemory {
    Sram,
    EepromUnknownSize,
    Eeprom512,
    Eeprom8K,
    FlashRom64K,
    FlashRom128K,
    NoSaveMemory,
}

impl GbaSaveMemory {
    /// Display name of the save memory type.
    pub fn name(self) -> (r: &'static str)
        ensures
            self == GbaSaveMemory::Sram ==> r@ == "SRAM"@,
            self == GbaSaveMemory::EepromUnknownSize ==> r@ == "EEPROM (unspecified size)"@,
            self == GbaSaveMemory::Eeprom512 ==> r@ == "EEPROM 512 bytes"@,
            self == GbaSaveMemory::Eeprom8K ==> r@ == "EEPROM 8 KB"@,
            self == GbaSaveMemory::FlashRom64K ==> r@ == "Flash ROM 64 KB"@,
            self == GbaSaveMemory::FlashRom128K ==> r@ == "Flash ROM 128 KB"@,
            self == GbaSaveMemory::NoSaveMemory ==> r@ == "None"@,
    {
        match self {
            Self::Sram => "SRAM",
            Self::EepromUnknownSize => "EEPROM (unspecified size)",
            Self::Eeprom512 => "EEPROM 512 bytes",
            Self::Eeprom8K => "EEPROM 8 KB",
            Self::FlashRom64K => "Flash ROM 64 KB",
            Self::FlashRom128K => "Flash ROM 128 KB",
            Self::NoSaveMemory => "None",
        }
    }
}

#[derive(Debug, Clone, Copy, PartialEq, Eq, Structural, Default)]
pub enum GbaAudioInterpolation {
    #[default]
    NearestNeighbor,
    WindowedSinc,
}

} // verus!
