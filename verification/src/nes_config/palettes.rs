//! Which NTSC signal level the NES outputs for each color, emphasis and sample phase; the
//! voltages and the conversion to RGB are floating-point work done outside the library.
use vstd::prelude::*;

verus! {

/// Color emphasis bits of the PPU mask register.
#[derive(Debug, Clone, Copy, PartialEq, Eq, Structural)]
pub struct ColorEmphasis {
    pub r: bool,
    pub g: bool,
    pub b: bool,
}

impl ColorEmphasis {
    /// No emphasis.
    pub fn none() -> (r: Self)
        ensures
            r == (ColorEmphasis { r: false, g: false, b: false }),
    {
        Self { r: false, g: false, b: false }
    }
}

/// The emphasis of a 512-entry palette index: bits 6, 7 and 8 emphasize red, green and blue.
pub fn emphasis_from_index(index: usize) -> (r: ColorEmphasis)
    ensures
        r.r == (index & 0x040 != 0),
        r.g == (index & 0x080 != 0),
        r.b == (index & 0x100 != 0),
{
    ColorEmphasis { r: index & 0x040 != 0, g: index & 0x080 != 0, b: index & 0x100 != 0 }
}

/// One of the NTSC voltage levels: the row of the level table (by luma), whether the attenuated
/// table is used, and whether the high or the low level of the row is output.
#[derive(Debug, Clone, Copy, PartialEq, Eq, Structural)]
pub struct SignalLevel {
    pub luma: u8,
    pub attenuated: bool,
    pub high: bool,
}

/// Whether the color wave of a hue is in its high half at a sample phase (12 phases per cycle).
pub open spec fn in_color_phase(color: int, phase: int) -> bool {
    (color + phase) % 12 < 6
}

/// The level output for a color at a phase: luma from bits 4-5 (forced to 1 for hues $E and
/// $F); attenuated when an emphasized primary's phase is active (never for hues $E and $F); high
/// for hue 0, low for hues $D-$F, and otherwise high in the hue's half of the color cycle.
pub open spec fn signal_level(nes_color: u8, emphasis: ColorEmphasis, phase: u8) -> SignalLevel {
    let hue = nes_color % 16;
    let luma = if hue < 0xE {
        (nes_color / 16) % 4
    } else {
        1
    };
    let attenuated = hue < 0xE && ((emphasis.r && in_color_phase(0, phase as int)) || (emphasis.g
        && in_color_phase(4, phase as int)) || (emphasis.b && in_color_phase(8, phase as int)));
    let high = hue == 0 || (1 <= hue <= 12 && in_color_phase(hue as int, phase as int));
    SignalLevel { luma: luma as u8, attenuated, high }
}

fn color_phase(color: u8, phase: u8) -> (r: bool)
    requires
        color <= 12,
        phase <= 243,
    ensures
        r == in_color_phase(color as int, phase as int),
{
    (color + phase) % 12 < 6
}

/// The signal level of a color at a sample phase.
pub fn ntsc_signal_level(nes_color: u8, emphasis: ColorEmphasis, phase: u8) -> (r: SignalLevel)
    requires
        phase <= 243,
    ensures
        r == signal_level(nes_color, emphasis, phase),
{
    proof {
        assert(nes_color & 0xF == nes_color % 16 && (nes_color >> 4) & 3 == (nes_color / 16) % 4)
            by (bit_vector);
    }
    let hue = nes_color & 0xF;

    // Luma is forced to 1 for colors $xE and $xF
    let luma = if hue < 0xE {
        (nes_color >> 4) & 3
    } else {
        1
    };

    // Color emphasis does not apply to colors $xE and $xF
    let attenuated = hue < 0xE && ((emphasis.r && color_phase(0, phase)) || (emphasis.g
        && color_phase(4, phase)) || (emphasis.b && color_phase(8, phase)));

    // Signal is always high for colors $x0 and always low for colors $xD, $xE, $xF
    let high = if hue == 0 {
        true
    } else if hue <= 12 {
        color_phase(hue, phase)
    } else {
        false
    };

    SignalLevel { luma, attenuated, high }
}

/// Hues $E and $F are black or gray at any emphasis: luma 1, no attenuation, the low level; hue 0
/// is always at the high level and hue $D always at the low level.
pub proof fn lemma_fixed_hues(nes_color: u8, emphasis: ColorEmphasis, phase: u8)
    ensures
        nes_color % 16 >= 0xE ==> signal_level(nes_color, emphasis, phase) == (SignalLevel {
            luma: 1,
            attenuated: false,
            high: false,
        }),
        nes_color % 16 == 0 ==> signal_level(nes_color, emphasis, phase).high,
        nes_color % 16 == 0xD ==> !signal_level(nes_color, emphasis, phase).high,
{
}

/// Without emphasis no level is attenuated.
pub proof fn lemma_no_emphasis_no_attenuation(nes_color: u8, phase: u8)
    ensures
        !signal_level(nes_color, ColorEmphasis { r: false, g: false, b: false }, phase).attenuated,
{
}

} // verus!
