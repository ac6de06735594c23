//! NES configuration types.
pub mod palettes;
pub mod serialization;

use crate::text::{decimal_digits, push_decimal, push_decimal_u64};
use vstd::prelude::*;
use vstd::string::StringExecFns;

verus! {

#[derive(Debug, Clone, Copy, PartialEq, Eq, Structural, Default)]
pub enum NesAspectRatio {
    #[default]
    Ntsc,
    Pal,
    SquarePixels,
    Stretched,
}

#[verifier::external_type_specification]
#[verifier::external_body]
pub struct ExIoError(std::io::Error);

/// Why a palette file could not be loaded.
#[derive(Debug)]
pub enum PaletteLoadError {
    Io(std::io::Error),
    IncorrectSize(u64),
}

/// std's `Display` for `std::io::Error`: the error's message, which depends on the system and
/// is not stated.
#[verifier::external_body]
fn io_error_text(err: &std::io::Error) -> String {
    format!("{err}")
}

impl PaletteLoadError {
    /// The error as shown to the user: the I/O error's message after a fixed prefix, or the
    /// expected and actual sizes of the file.
    pub fn to_string(&self) -> (r: String)
        ensures
            self matches PaletteLoadError::Io(_) ==> "I/O error loading palette: "@.is_prefix_of(r@),
            self matches PaletteLoadError::IncorrectSize(len) ==> r@
                == "Incorrect palette size; expected "@ + decimal_digits(512 * 3) + " bytes, was "@
                + decimal_digits(len as nat),
    {
        match self {
            PaletteLoadError::Io(err) => {
                let mut t = String::from_str("I/O error loading palette: ");
                let message = io_error_text(err);
                t.append(message.as_str());
                t
            },
            PaletteLoadError::IncorrectSize(len) => {
                let mut t = String::from_str("Incorrect palette size; expected ");
                push_decimal(&mut t, 512 * 3);
                t.append(" bytes, was ");
                push_decimal_u64(&mut t, *len);
                t
            },
        }
    }
}

/// An NES palette: RGB for each of the 64 colors under each of the 8 emphasis combinations.
#[derive(Debug, Clone, Copy, PartialEq, Eq)]
pub struct NesPalette(pub [(u8, u8, u8); 512]);

/// The color stored at entry `i` of a run of RGB bytes.
pub open spec fn triple_at(bytes: Seq<u8>, i: int) -> (u8, u8, u8) {
    (bytes[3 * i], bytes[3 * i + 1], bytes[3 * i + 2])
}

/// The first `count` colors of a run of RGB bytes.
pub open spec fn triples(bytes: Seq<u8>, count: nat) -> Seq<(u8, u8, u8)> {
    Seq::new(count, |i: int| triple_at(bytes, i))
}

/// Component `k` (0 = red, 1 = green, 2 = blue) of a color.
pub open spec fn component(color: (u8, u8, u8), k: int) -> u8 {
    if k == 0 {
        color.0
    } else if k == 1 {
        color.1
    } else {
        color.2
    }
}

/// Colors written out as red, green and blue bytes, one color after another.
pub open spec fn palette_bytes(colors: Seq<(u8, u8, u8)>) -> Seq<u8> {
    Seq::new(3 * colors.len(), |k: int| component(colors[k / 3], k % 3))
}

/// Colors written out as bytes read back as the same colors.
pub proof fn lemma_palette_bytes_round_trip(colors: Seq<(u8, u8, u8)>)
    ensures
        triples(palette_bytes(colors), colors.len()) == colors,
{
    let bytes = palette_bytes(colors);
    assert forall|i: int| 0 <= i < colors.len() implies #[trigger] triple_at(bytes, i) == colors[i] by {
        assert((3 * i) / 3 == i && (3 * i) % 3 == 0);
        assert((3 * i + 1) / 3 == i && (3 * i + 1) % 3 == 1);
        assert((3 * i + 2) / 3 == i && (3 * i + 2) % 3 == 2);
    }
    assert(triples(bytes, colors.len()) =~= colors);
}

/// The first `count` colors of a run of RGB bytes.
pub fn bytes_to_triples(bytes: &[u8], count: usize) -> (r: Vec<(u8, u8, u8)>)
    requires
        3 * count <= bytes.len(),
    ensures
        r@ == triples(bytes@, count as nat),
{
    let mut colors: Vec<(u8, u8, u8)> = Vec::new();
    let mut i: usize = 0;
    while i < count
        invariant
            i <= count,
            3 * count <= bytes.len(),
            colors@ == triples(bytes@, i as nat),
        decreases count - i,
    {
        colors.push((bytes[3 * i], bytes[3 * i + 1], bytes[3 * i + 2]));
        i += 1;
        assert(colors@ =~= triples(bytes@, i as nat));
    }
    colors
}

/// How a palette file is read, by its length in bytes.
#[derive(Debug, Clone, Copy, PartialEq, Eq, Structural)]
pub enum PaletteFileKind {
    /// 64 colors, to be extrapolated to 512
    Colors64,
    /// 512 colors
    Colors512,
}

/// How a palette file of `len` bytes is read: one smaller than 64 colors is refused, one smaller
/// than 512 colors holds 64 colors, any other holds 512 colors (bytes past them are ignored).
pub fn palette_file_kind(len: u64) -> (r: Result<PaletteFileKind, PaletteLoadError>)
    ensures
        r is Err <==> len < 64 * 3,
        r is Err ==> (r matches Err(PaletteLoadError::IncorrectSize(size)) && size == len),
        r == Ok::<PaletteFileKind, PaletteLoadError>(PaletteFileKind::Colors64) <==> 64 * 3 <= len
            < 512 * 3,
        r == Ok::<PaletteFileKind, PaletteLoadError>(PaletteFileKind::Colors512) <==> 512 * 3
            <= len,
{
    if len < 64 * 3 {
        return Err(PaletteLoadError::IncorrectSize(len));
    }
    if len < 512 * 3 {
        return Ok(PaletteFileKind::Colors64);
    }
    Ok(PaletteFileKind::Colors512)
}

impl NesPalette {
    /// The palette held by the first 512 * 3 bytes of a 512-color palette file.
    pub fn from_bytes(bytes: &[u8]) -> (r: Self)
        requires
            bytes@.len() >= 512 * 3,
        ensures
            r.0@ == triples(bytes@, 512),
    {
        let mut colors = [(0u8, 0u8, 0u8); 512];
        let mut i: usize = 0;
        while i < 512
            invariant
                i <= 512,
                bytes@.len() >= 512 * 3,
                forall|j: int| 0 <= j < i ==> colors@[j] == triple_at(bytes@, j),
            decreases 512 - i,
        {
            colors[i] = (bytes[3 * i], bytes[3 * i + 1], bytes[3 * i + 2]);
            i += 1;
        }
        assert(colors@ =~= triples(bytes@, 512));
        Self(colors)
    }

    /// The bytes of a palette file: red, green and blue of each color in turn.
    pub fn to_bytes(&self) -> (r: Vec<u8>)
        ensures
            r@ == palette_bytes(self.0@),
    {
        let mut bytes: Vec<u8> = Vec::new();
        let mut i: usize = 0;
        while i < 512
            invariant
                i <= 512,
                bytes@ == palette_bytes(self.0@.subrange(0, i as int)),
            decreases 512 - i,
        {
            let (r, g, b) = self.0[i];
            bytes.push(r);
            bytes.push(g);
            bytes.push(b);
            proof {
                let next = self.0@.subrange(0, i + 1);
                assert forall|k: int| 0 <= k < 3 * (i + 1) implies #[trigger] bytes@[k]
                    == component(next[k / 3], k % 3) by {
                    if k >= 3 * i {
                        assert(k / 3 == i);
                    } else {
                        assert(k / 3 < i);
                    }
                }
                assert(bytes@ =~= palette_bytes(next));
            }
            i += 1;
        }
        assert(self.0@.subrange(0, 512) =~= self.0@);
        bytes
    }

    /// The RGB triple of a palette entry.
    pub fn get(&self, index: usize) -> (r: (u8, u8, u8))
        requires
            index < 512,
        ensures
            r == self.0[index as int],
    {
        self.0[index]
    }
}

#[derive(Debug, Clone, Copy, PartialEq, Eq, Structural, Default)]
pub struct Overscan {
    pub top: u16,
    pub bottom: u16,
    pub left: u16,
    pub right: u16,
}

impl Overscan {
    /// `Overscan { top=.., bottom=.., left=.., right=.. }` with the four sizes in decimal.
    pub open spec fn text(self) -> Seq<char> {
        "Overscan { top="@ + decimal_digits(self.top as nat) + ", bottom="@ + decimal_digits(
            self.bottom as nat,
        ) + ", left="@ + decimal_digits(self.left as nat) + ", right="@ + decimal_digits(
            self.right as nat,
        ) + " }"@
    }

    /// The overscan as shown to the user.
    pub fn to_string(&self) -> (r: String)
        ensures
            r@ == self.text(),
    {
        let mut t = String::from_str("Overscan { top=");
        push_decimal(&mut t, self.top as u32);
        t.append(", bottom=");
        push_decimal(&mut t, self.bottom as u32);
        t.append(", left=");
        push_decimal(&mut t, self.left as u32);
        t.append(", right=");
        push_decimal(&mut t, self.right as u32);
        t.append(" }");
        t
    }

    /// No overscan cropping on any side.
    pub fn none() -> (r: Self)
        ensures
            r == (Overscan { top: 0, bottom: 0, left: 0, right: 0 }),
    {
        Self { top: 0, bottom: 0, left: 0, right: 0 }
    }
}

#[derive(Debug, Clone, Copy, PartialEq, Eq, Structural, Default)]
pub enum NesAudioResampler {
    LowPassNearestNeighbor,
    #[default]
    WindowedSinc,
}

#[derive(Debug, Clone, Copy, PartialEq, Eq, Structural)]
pub enum NesButton {
    Up,
    Left,
    Right,
    Down,
    A,
    B,
    Start,
    Select,
    ZapperFire,
    ZapperForceOffscreen,
}

impl NesButton {
    /// Whether the button belongs to the Zapper light gun.
    pub fn is_zapper(self) -> (r: bool)
        ensures
            r == (self == NesButton::ZapperFire || self == NesButton::ZapperForceOffscreen),
    {
        match self {
            Self::ZapperFire | Self::ZapperForceOffscreen => true,
            _ => false,
        }
    }
}

/// Gamepad button state (`true` = pressed).
#[derive(Debug, Clone, Copy, PartialEq, Eq, Structural, Default)]
pub struct NesJoypadState {
    pub up: bool,
    pub left: bool,
    pub right: bool,
    pub down: bool,
    pub a: bool,
    pub b: bool,
    pub start: bool,
    pub select: bool,
}

impl NesJoypadState {
    pub open spec fn set_button_spec(self, button: NesButton, pressed: bool) -> NesJoypadState {
        match button {
            NesButton::Up => NesJoypadState { up: pressed, ..self },
            NesButton::Left => NesJoypadState { left: pressed, ..self },
            NesButton::Right => NesJoypadState { right: pressed, ..self },
            NesButton::Down => NesJoypadState { down: pressed, ..self },
            NesButton::A => NesJoypadState { a: pressed, ..self },
            NesButton::B => NesJoypadState { b: pressed, ..self },
            NesButton::Start => NesJoypadState { start: pressed, ..self },
            NesButton::Select => NesJoypadState { select: pressed, ..self },
            _ => self,
        }
    }

    /// Sets a gamepad button; buttons that are not on the gamepad are ignored.
    pub fn set_button(&mut self, button: NesButton, pressed: bool)
        ensures
            *final(self) == old(self).set_button_spec(button, pressed),
    {
        let s = *self;
        *self = match button {
            NesButton::Up => NesJoypadState { up: pressed, ..s },
            NesButton::Left => NesJoypadState { left: pressed, ..s },
            NesButton::Right => NesJoypadState { right: pressed, ..s },
            NesButton::Down => NesJoypadState { down: pressed, ..s },
            NesButton::A => NesJoypadState { a: pressed, ..s },
            NesButton::B => NesJoypadState { b: pressed, ..s },
            NesButton::Start => NesJoypadState { start: pressed, ..s },
            NesButton::Select => NesJoypadState { select: pressed, ..s },
            _ => s,
        };
    }
}

} // verus!
