//! Master System / Game Gear cheat codes: Game Genie and Pro Action Replay codes, decoded to
//! Z80 address/value pairs.
use crate::genesis_config::cheats::{hex_number, parse_hex, pattern_matches, regex_match};
use vstd::prelude::*;
use vstd::string::StringSliceAdditionalSpecFns;

verus! {

/// A byte written at a 16-bit address, optionally only while the byte there equals a reference
/// value.
#[derive(Debug, Clone, Copy, PartialEq, Eq, Structural)]
pub struct ByteCheatCodeU16Address {
    pub address: u16,
    pub value: u8,
    pub reference: Option<u8>,
}

#[derive(Debug, Clone, Copy, PartialEq, Eq, Structural)]
pub enum SmsGgCheatCodeType {
    GameGenie,
    ProActionReplay,
}

/// Pattern of a Game Genie code: `DDA-AAA` or `DDA-AAA-RRR` in hex digits.
pub const GAME_GENIE_PATTERN: &'static str = r"^[[:xdigit:]]{3}-[[:xdigit:]]{3}(-[[:xdigit:]]{3})?$";

/// Pattern of a Pro Action Replay code: two characters, 2 hex digits, an optional hyphen or
/// space, 4 hex digits.
pub const PRO_ACTION_REPLAY_PATTERN: &'static str = r"^..[[:xdigit:]]{2}[- ]?[[:xdigit:]]{4}$";

/// The code type a code's format suggests: Game Genie first, then Pro Action Replay.
pub open spec fn guess_spec(code: Seq<char>) -> Option<SmsGgCheatCodeType> {
    if regex_match(GAME_GENIE_PATTERN@, code) == Some(true) {
        Some(SmsGgCheatCodeType::GameGenie)
    } else if regex_match(PRO_ACTION_REPLAY_PATTERN@, code) == Some(true) {
        Some(SmsGgCheatCodeType::ProActionReplay)
    } else {
        None
    }
}

/// A 16-bit value rotated right by 4 bits.
pub open spec fn ror16_4(x: u16) -> u16 {
    ((x / 16) + (x % 16) * 0x1000) as u16
}

/// An 8-bit value rotated right by 2 bits.
pub open spec fn ror8_2(x: u8) -> u8 {
    ((x / 4) + (x % 4) * 0x40) as u8
}

/// A Game Genie code from its three groups of 3 hex digits (the third optional): the value is
/// the first two digits; the address is the remaining 4 digits rotated right by 4 with the top
/// 4 bits inverted; the reference is the first and last digit of the third group, rotated right
/// by 2 and XORed with 0xBA.
pub open spec fn game_genie_fields(first: int, second: int, third: Option<int>) -> ByteCheatCodeU16Address {
    let address_bits = ((first % 16) * 0x1000 + second) as u16;
    ByteCheatCodeU16Address {
        address: ror16_4(address_bits) ^ 0xF000,
        value: (first / 16) as u8,
        reference: match third {
            Some(t) => Some(ror8_2(((t / 256) * 16 + t % 16) as u8) ^ 0xBA),
            None => None,
        },
    }
}

/// A Game Genie code `DDA-AAA` or `DDA-AAA-RRR` (hex groups as `from_str_radix` reads them).
pub open spec fn game_genie_spec(code: Seq<u8>) -> Option<ByteCheatCodeU16Address> {
    if code.len() < 7 || code[3] != 0x2D {
        None
    } else if code.len() > 7 && (code.len() != 11 || code[7] != 0x2D) {
        None
    } else {
        match (hex_number(code.subrange(0, 3)), hex_number(code.subrange(4, 7))) {
            (Some(first), Some(second)) => if code.len() == 11 {
                match hex_number(code.subrange(8, 11)) {
                    Some(third) => Some(game_genie_fields(first, second, Some(third))),
                    None => None,
                }
            } else {
                Some(game_genie_fields(first, second, None))
            },
            _ => None,
        }
    }
}

/// A Pro Action Replay code `00AAAADD` or `00AA AADD` / `00AA-AADD`: unobfuscated address and
/// value in hex; the first two characters are not read.
pub open spec fn pro_action_replay_spec(code: Seq<u8>) -> Option<ByteCheatCodeU16Address> {
    if code.len() == 8 {
        match (hex_number(code.subrange(2, 6)), hex_number(code.subrange(6, 8))) {
            (Some(address), Some(value)) => Some(
                ByteCheatCodeU16Address { address: address as u16, value: value as u8, reference: None },
            ),
            _ => None,
        }
    } else if code.len() == 9 && (code[4] == 0x20 || code[4] == 0x2D) {
        match (
            hex_number(code.subrange(2, 4)),
            hex_number(code.subrange(5, 7)),
            hex_number(code.subrange(7, 9)),
        ) {
            (Some(high), Some(low), Some(value)) => Some(
                ByteCheatCodeU16Address {
                    address: (high * 256 + low) as u16,
                    value: value as u8,
                    reference: None,
                },
            ),
            _ => None,
        }
    } else {
        None
    }
}

impl SmsGgCheatCodeType {
    pub open spec fn decode_spec(self, code: Seq<u8>) -> Option<ByteCheatCodeU16Address> {
        match self {
            Self::GameGenie => game_genie_spec(code),
            Self::ProActionReplay => pro_action_replay_spec(code),
        }
    }

    pub fn decode(self, code: &str) -> (r: Option<ByteCheatCodeU16Address>)
        ensures
            r == self.decode_spec(code.spec_bytes()),
    {
        match self {
            Self::GameGenie => decode_game_genie(code),
            Self::ProActionReplay => decode_pro_action_replay(code),
        }
    }

    /// Guesses a code's type from its format.
    pub fn guess_from(code: &str) -> (r: Option<Self>)
        ensures
            r == guess_spec(code@),
    {
        if pattern_matches(GAME_GENIE_PATTERN, code) == Some(true) {
            return Some(Self::GameGenie);
        }

        if pattern_matches(PRO_ACTION_REPLAY_PATTERN, code) == Some(true) {
            return Some(Self::ProActionReplay);
        }

        None
    }
}

fn rotate_right_4(x: u16) -> (r: u16)
    ensures
        r == ror16_4(x),
{
    x / 16 + (x % 16) * 0x1000
}

fn rotate_right_2(x: u8) -> (r: u8)
    ensures
        r == ror8_2(x),
{
    x / 4 + (x % 4) * 0x40
}

pub fn decode_game_genie(code: &str) -> (r: Option<ByteCheatCodeU16Address>)
    ensures
        r == game_genie_spec(code.spec_bytes()),
{
    // Game Genie codes are in format DDA-AAA or DDA-AAA-RRR with hex chars, per:
    //   https://www.smspower.org/Development/GameGenie
    // First 2 chars are value, next 4 chars are address (obfuscated), and last 3 chars are
    // reference value (optional and obfuscated)
    let bytes = code.as_bytes();

    if bytes.len() < 7 || bytes[3] != 0x2Du8 {
        return None;
    }

    let has_reference = bytes.len() > 7;
    if has_reference && (bytes.len() != 11 || bytes[7] != 0x2Du8) {
        return None;
    }

    let first = match parse_hex(bytes, 0, 3) {
        Some(v) => v,
        None => {
            return None;
        },
    };
    let second = match parse_hex(bytes, 4, 7) {
        Some(v) => v,
        None => {
            return None;
        },
    };
    proof {
        crate::bit_facts::lemma_constants();
    }

    // Override value is first 2 chars, not obfuscated
    let value = (first / 16) as u8;

    // Address is next 4 chars, obfuscated
    // 16-bit value is rotated right by 4, then the highest 4 bits are inverted
    let address = rotate_right_4(((first % 16) * 0x1000 + second) as u16) ^ 0xF000;

    // Reference (if present) is last 3 chars, obfuscated
    // First and third digits form an 8-bit value, that gets rotated right by 2, then XORed with 0xBA
    // There's also a "cloak" value in here but that doesn't seem useful for emulation purposes
    let reference = if has_reference {
        let third = match parse_hex(bytes, 8, 11) {
            Some(v) => v,
            None => {
                return None;
            },
        };
        let scrambled = ((third / 256) * 16 + third % 16) as u8;
        Some(rotate_right_2(scrambled) ^ 0xBA)
    } else {
        None
    };

    Some(ByteCheatCodeU16Address { address, value, reference })
}

pub fn decode_pro_action_replay(code: &str) -> (r: Option<ByteCheatCodeU16Address>)
    ensures
        r == pro_action_replay_spec(code.spec_bytes()),
{
    // Pro Action Replay codes are in format "00AA AADD", per:
    //   https://www.smspower.org/Development/ProActionReplay
    // Contains unobfuscated address and value, no support for reference values
    let bytes = code.as_bytes();
    let valid_len = bytes.len() == 8 || (bytes.len() == 9 && (bytes[4] == 0x20u8 || bytes[4]
        == 0x2Du8));
    if !valid_len {
        return None;
    }
    proof {
        crate::bit_facts::lemma_constants();
    }

    if bytes.len() == 8 {
        let address = match parse_hex(bytes, 2, 6) {
            Some(v) => v,
            None => {
                return None;
            },
        };
        let value = match parse_hex(bytes, 6, 8) {
            Some(v) => v,
            None => {
                return None;
            },
        };
        Some(ByteCheatCodeU16Address { address: address as u16, value: value as u8, reference: None })
    } else {
        // Skip 5th char
        let high = match parse_hex(bytes, 2, 4) {
            Some(v) => v,
            None => {
                return None;
            },
        };
        let low = match parse_hex(bytes, 5, 7) {
            Some(v) => v,
            None => {
                return None;
            },
        };
        let value = match parse_hex(bytes, 7, 9) {
            Some(v) => v,
            None => {
                return None;
            },
        };
        Some(
            ByteCheatCodeU16Address {
                address: (high * 256 + low) as u16,
                value: value as u8,
                reference: None,
            },
        )
    }
}

/// The cheat a code gives, if its type is recognized and it decodes.
pub open spec fn code_cheat(code: Seq<char>) -> Option<ByteCheatCodeU16Address> {
    match guess_spec(code) {
        Some(t) => t.decode_spec(vstd::utf8::encode_utf8(code)),
        None => None,
    }
}

/// The cheats of a list of codes, in order, skipping codes that are not recognized or do not
/// decode.
pub open spec fn codes_cheats(codes: Seq<String>) -> Seq<ByteCheatCodeU16Address>
    decreases codes.len(),
{
    if codes.len() == 0 {
        Seq::empty()
    } else {
        let rest = codes_cheats(codes.drop_last());
        match code_cheat(codes.last()@) {
            Some(o) => rest.push(o),
            None => rest,
        }
    }
}

/// The cheat one code gives.
pub fn code_to_cheat(code: &str) -> (r: Option<ByteCheatCodeU16Address>)
    ensures
        r == code_cheat(code@),
{
    match SmsGgCheatCodeType::guess_from(code) {
        Some(code_type) => code_type.decode(code),
        None => None,
    }
}

#[derive(Debug, Clone)]
pub struct SmsGgCheat {
    pub name: String,
    pub enabled: bool,
    pub codes: Vec<String>,
}

/// The memory overrides of a cheat: none when disabled.
pub open spec fn cheat_overrides(cheat: SmsGgCheat) -> Seq<ByteCheatCodeU16Address> {
    if cheat.enabled {
        codes_cheats(cheat.codes@)
    } else {
        Seq::empty()
    }
}

/// The memory overrides of a list of cheats, concatenated in order.
pub open spec fn cheats_overrides(cheats: Seq<SmsGgCheat>) -> Seq<ByteCheatCodeU16Address>
    decreases cheats.len(),
{
    if cheats.len() == 0 {
        Seq::empty()
    } else {
        cheats_overrides(cheats.drop_last()) + cheat_overrides(cheats.last())
    }
}

impl Default for SmsGgCheat {
    fn default() -> (r: Self)
        ensures
            r.name@ == Seq::<char>::empty(),
            r.enabled,
            r.codes@.len() == 0,
    {
        Self { name: String::new(), enabled: true, codes: Vec::new() }
    }
}

impl SmsGgCheat {
    /// Memory overrides of the cheat's codes, in order; empty when the cheat is disabled. Codes
    /// that are not recognized or do not decode are skipped.
    pub fn to_memory_override_vec(&self) -> (r: Vec<ByteCheatCodeU16Address>)
        ensures
            r@ == cheat_overrides(*self),
    {
        let mut result: Vec<ByteCheatCodeU16Address> = Vec::new();
        if !self.enabled {
            return result;
        }
        let mut i: usize = 0;
        while i < self.codes.len()
            invariant
                i <= self.codes@.len(),
                self.enabled,
                result@ == codes_cheats(self.codes@.subrange(0, i as int)),
            decreases self.codes@.len() - i,
        {
            let code = &self.codes[i];
            let o = code_to_cheat(code.as_str());
            proof {
                assert(self.codes@.subrange(0, i as int + 1).drop_last() =~= self.codes@.subrange(
                    0,
                    i as int,
                ));
            }
            match o {
                Some(cheat) => result.push(cheat),
                None => {},
            }
            i += 1;
        }
        assert(self.codes@.subrange(0, self.codes@.len() as int) =~= self.codes@);
        result
    }
}

#[derive(Debug, Clone)]
pub struct SmsGgCheats {
    pub cheats: Vec<SmsGgCheat>,
}

impl Default for SmsGgCheats {
    fn default() -> (r: Self)
        ensures
            r.cheats@.len() == 0,
    {
        SmsGgCheats { cheats: Vec::new() }
    }
}

impl SmsGgCheats {
    /// The memory overrides of every enabled cheat, in order.
    pub fn to_memory_override_vec(&self) -> (r: Vec<ByteCheatCodeU16Address>)
        ensures
            r@ == cheats_overrides(self.cheats@),
    {
        let mut result: Vec<ByteCheatCodeU16Address> = Vec::new();
        let mut i: usize = 0;
        while i < self.cheats.len()
            invariant
                i <= self.cheats@.len(),
                result@ == cheats_overrides(self.cheats@.subrange(0, i as int)),
            decreases self.cheats@.len() - i,
        {
            let mut overrides = self.cheats[i].to_memory_override_vec();
            proof {
                assert(self.cheats@.subrange(0, i as int + 1).drop_last() =~= self.cheats@.subrange(
                    0,
                    i as int,
                ));
            }
            result.append(&mut overrides);
            i += 1;
        }
        assert(self.cheats@.subrange(0, self.cheats@.len() as int) =~= self.cheats@);
        result
    }
}

} // verus!
