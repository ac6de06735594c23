//! Genesis cheat codes: Game Genie, Pro Action Replay and raw memory override codes, decoded to
//! 68000 address/value pairs.
use vstd::prelude::*;
use vstd::string::StringExecFns;
use vstd::string::StringSliceAdditionalSpecFns;

verus! {

#[derive(Debug, Clone, Copy, PartialEq, Eq, Structural)]
pub enum GenesisCheatCodeType {
    GameGenie,
    ActionReplay,
    MemoryOverride,
}

impl GenesisCheatCodeType {
    /// The name of the code format, as shown to the user.
    pub open spec fn display_name(self) -> Seq<char> {
        match self {
            GenesisCheatCodeType::GameGenie => "Game Genie"@,
            GenesisCheatCodeType::ActionReplay => "Action Replay"@,
            GenesisCheatCodeType::MemoryOverride => "Memory Override"@,
        }
    }

    /// The name of the code format, as shown to the user.
    pub fn to_string(&self) -> (r: String)
        ensures
            r@ == self.display_name(),
    {
        match self {
            GenesisCheatCodeType::GameGenie => String::from_str("Game Genie"),
            GenesisCheatCodeType::ActionReplay => String::from_str("Action Replay"),
            GenesisCheatCodeType::MemoryOverride => String::from_str("Memory Override"),
        }
    }
}

/// Pattern of a Game Genie code: two groups of 4 base-32 characters separated by a hyphen.
pub const GAME_GENIE_PATTERN: &'static str = r"^(?i)[A-HJ-NPR-TV-Z0-9]{4}-[A-HJ-NPR-TV-Z0-9]{4}$";

/// Pattern of a Pro Action Replay code: 5 hex digits, an optional space or hyphen, 5 hex digits.
pub const PRO_ACTION_REPLAY_PATTERN: &'static str = r"^[[:xdigit:]]{5}[ -]?[[:xdigit:]]{5}$";

/// Pattern of a memory override code: 6 hex digits, a colon, 4 hex digits.
pub const MEMORY_OVERRIDE_PATTERN: &'static str = r"^[[:xdigit:]]{6}:[[:xdigit:]]{4}$";

/// Result of compiling a regular expression and matching it against a text: `None` when the
/// pattern does not compile, else whether the text matches.
pub uninterp spec fn regex_match(pattern: Seq<char>, text: Seq<char>) -> Option<bool>;

/// Compiles `pattern` with `regex::Regex::new` and tests `text` with `Regex::is_match`.
/// The contract only names the outcome (`regex_match`): what the regex engine computes is not
/// restated here.
#[verifier::external_body]
pub(crate) fn pattern_matches(pattern: &str, text: &str) -> (r: Option<bool>)
    ensures
        r == regex_match(pattern@, text@),
{
    match regex::Regex::new(pattern) {
        Ok(re) => Some(re.is_match(text)),
        Err(_) => None,
    }
}

/// Whether a pattern compiled and matched.
pub open spec fn matched(r: Option<bool>) -> bool {
    r == Some(true)
}

/// The code type chosen from the three pattern tests, in priority order.
pub open spec fn code_type_spec(game_genie: bool, action_replay: bool, memory_override: bool) -> Option<
    GenesisCheatCodeType,
> {
    if game_genie {
        Some(GenesisCheatCodeType::GameGenie)
    } else if action_replay {
        Some(GenesisCheatCodeType::ActionReplay)
    } else if memory_override {
        Some(GenesisCheatCodeType::MemoryOverride)
    } else {
        None
    }
}

/// The code type that `guess_from` gives for a code.
pub open spec fn guess_spec(code: Seq<char>) -> Option<GenesisCheatCodeType> {
    code_type_spec(
        matched(regex_match(GAME_GENIE_PATTERN@, code)),
        matched(regex_match(PRO_ACTION_REPLAY_PATTERN@, code)),
        matched(regex_match(MEMORY_OVERRIDE_PATTERN@, code)),
    )
}

impl GenesisCheatCodeType {
    /// Picks the code type from which of the three code patterns matched: Game Genie first, then
    /// Pro Action Replay, then memory override.
    pub fn from_pattern_matches(game_genie: bool, action_replay: bool, memory_override: bool) -> (r:
        Option<Self>)
        ensures
            r == code_type_spec(game_genie, action_replay, memory_override),
    {
        if game_genie {
            Some(Self::GameGenie)
        } else if action_replay {
            Some(Self::ActionReplay)
        } else if memory_override {
            Some(Self::MemoryOverride)
        } else {
            None
        }
    }

    /// Guesses a code's type from its format.
    pub fn guess_from(code: &str) -> (r: Option<Self>)
        ensures
            r == guess_spec(code@),
    {
        let game_genie = pattern_matches(GAME_GENIE_PATTERN, code) == Some(true);
        let action_replay = pattern_matches(PRO_ACTION_REPLAY_PATTERN, code) == Some(true);
        let memory_override = pattern_matches(MEMORY_OVERRIDE_PATTERN, code) == Some(true);
        Self::from_pattern_matches(game_genie, action_replay, memory_override)
    }

    pub open spec fn decode_spec(self, code: Seq<u8>) -> Option<(u32, u16)> {
        match self {
            Self::GameGenie => game_genie_spec(code),
            Self::ActionReplay => action_replay_spec(code),
            Self::MemoryOverride => memory_override_spec(code),
        }
    }

    pub fn decode(self, code: &str) -> (r: Option<(u32, u16)>)
        ensures
            r == self.decode_spec(code.spec_bytes()),
    {
        match self {
            Self::GameGenie => decode_game_genie(code),
            Self::ActionReplay => decode_action_replay(code),
            Self::MemoryOverride => decode_memory_override(code),
        }
    }

    /// Display name of the code type.
    pub fn name(self) -> (r: &'static str)
        ensures
            self == GenesisCheatCodeType::GameGenie ==> r@ == "Game Genie"@,
            self == GenesisCheatCodeType::ActionReplay ==> r@ == "Action Replay"@,
            self == GenesisCheatCodeType::MemoryOverride ==> r@ == "Memory Override"@,
    {
        match self {
            Self::GameGenie => "Game Genie",
            Self::ActionReplay => "Action Replay",
            Self::MemoryOverride => "Memory Override",
        }
    }
}

/// Value of a Game Genie character: base 32 over A-Z and 0-9 without I, O, Q and U (either case).
pub open spec fn game_genie_char_spec(c: u8) -> Option<u64> {
    if 0x41 <= c <= 0x48 {
        Some((c - 0x41) as u64)
    } else if 0x4A <= c <= 0x4E {
        Some((c - 0x41 - 1) as u64)
    } else if c == 0x50 {
        Some((c - 0x41 - 2) as u64)
    } else if 0x52 <= c <= 0x54 {
        Some((c - 0x41 - 3) as u64)
    } else if 0x56 <= c <= 0x5A {
        Some((c - 0x41 - 4) as u64)
    } else if 0x30 <= c <= 0x39 {
        Some((c - 0x30 + 22) as u64)
    } else if 0x61 <= c <= 0x68 {
        Some((c - 0x61) as u64)
    } else if 0x6A <= c <= 0x6E {
        Some((c - 0x61 - 1) as u64)
    } else if c == 0x70 {
        Some((c - 0x61 - 2) as u64)
    } else if 0x72 <= c <= 0x74 {
        Some((c - 0x61 - 3) as u64)
    } else if 0x76 <= c <= 0x7A {
        Some((c - 0x61 - 4) as u64)
    } else {
        None
    }
}

/// The number whose base-32 digits are the Game Genie characters, most significant first.
pub open spec fn game_genie_number(chars: Seq<u8>) -> Option<int>
    decreases chars.len(),
{
    if chars.len() == 0 {
        Some(0)
    } else {
        match (game_genie_number(chars.drop_last()), game_genie_char_spec(chars.last())) {
            (Some(high), Some(low)) => Some(high * 32 + low),
            _ => None,
        }
    }
}

/// 68000 address encoded by a descrambled Game Genie value.
pub open spec fn game_genie_address(s: u64) -> u32 {
    ((((s >> 16) & 0xFF) << 16) | (((s >> 24) & 0xFF) << 8) | (s & 0xFF)) as u32
}

/// Value (16-bit) encoded by a descrambled Game Genie value.
pub open spec fn game_genie_value(s: u64) -> u16 {
    ((((s >> 8) & 7) << 13) | (((s >> 11) & 0x1F) << 8) | ((s >> 32) & 0xFF)) as u16
}

/// A Game Genie code `ABCD-EFGH` as 8 base-32 characters holding a scrambled 40-bit value:
///     A     B     C     D  -  E     F     G     H
///   ijklm nopIJ KLMNO PABCD EFGHd efgha bcQRS TUVWX
/// Address (24-bit): ABCD EFGH IJKL MNOP QRST UVWX; value (16-bit): abcd efgh ijkl mnop
pub open spec fn game_genie_spec(code: Seq<u8>) -> Option<(u32, u16)> {
    if code.len() != 9 || code[4] != 0x2D {
        None
    } else {
        match game_genie_number(code.subrange(0, 4) + code.subrange(5, 9)) {
            Some(n) => Some((game_genie_address(n as u64), game_genie_value(n as u64))),
            None => None,
        }
    }
}

/// Value of a hexadecimal digit (either case).
pub open spec fn hex_digit_spec(c: u8) -> Option<int> {
    if 0x30 <= c <= 0x39 {
        Some(c - 0x30)
    } else if 0x41 <= c <= 0x46 {
        Some(c - 0x41 + 10)
    } else if 0x61 <= c <= 0x66 {
        Some(c - 0x61 + 10)
    } else {
        None
    }
}

/// The number written by a sequence of hexadecimal digits (0 for none).
pub open spec fn hex_digits_value(s: Seq<u8>) -> Option<int>
    decreases s.len(),
{
    if s.len() == 0 {
        Some(0)
    } else {
        match (hex_digits_value(s.drop_last()), hex_digit_spec(s.last())) {
            (Some(high), Some(low)) => Some(high * 16 + low),
            _ => None,
        }
    }
}

/// Hexadecimal number as parsed by `from_str_radix(_, 16)`: an optional leading `+` followed by
/// at least one hex digit.
pub open spec fn hex_number(s: Seq<u8>) -> Option<int> {
    if s.len() == 0 {
        None
    } else if s[0] == 0x2B {
        if s.len() == 1 {
            None
        } else {
            hex_digits_value(s.drop_first())
        }
    } else {
        hex_digits_value(s)
    }
}

/// A 16-bit value with its two bytes exchanged.
pub open spec fn swap_bytes_spec(v: u16) -> u16 {
    ((v % 256) * 256 + v / 256) as u16
}

/// A Pro Action Replay code `98765-43210` (or with a space): the first 6 hex digits are the
/// address and the last 4 the value, whose bytes are stored little-endian.
pub open spec fn action_replay_spec(code: Seq<u8>) -> Option<(u32, u16)> {
    if code.len() != 11 || !(code[5] == 0x2D || code[5] == 0x20) {
        None
    } else {
        match (
            hex_number(code.subrange(0, 5)),
            hex_digit_spec(code[6]),
            hex_number(code.subrange(7, 11)),
        ) {
            (Some(high), Some(low), Some(value)) => Some(
                ((16 * high + low) as u32, swap_bytes_spec(value as u16)),
            ),
            _ => None,
        }
    }
}

/// A memory override code `987654:3210`: address and value in hex.
pub open spec fn memory_override_spec(code: Seq<u8>) -> Option<(u32, u16)> {
    if code.len() != 11 || code[6] != 0x3A {
        None
    } else {
        match (hex_number(code.subrange(0, 6)), hex_number(code.subrange(7, 11))) {
            (Some(address), Some(value)) => Some((address as u32, value as u16)),
            _ => None,
        }
    }
}

fn decode_game_genie_char(c: u8) -> (r: Option<u64>)
    ensures
        r == game_genie_char_spec(c),
        r matches Some(v) ==> v < 32,
{
    // Codes are encoded in base 32 using the characters A-Z and 0-9 excluding I, O, Q, and U
    // Any other character is invalid
    if 0x41u8 <= c && c <= 0x48u8 {
        Some((c - 0x41u8) as u64)
    } else if 0x4Au8 <= c && c <= 0x4Eu8 {
        Some((c - 0x41u8 - 1) as u64)
    } else if c == 0x50u8 {
        Some((c - 0x41u8 - 2) as u64)
    } else if 0x52u8 <= c && c <= 0x54u8 {
        Some((c - 0x41u8 - 3) as u64)
    } else if 0x56u8 <= c && c <= 0x5Au8 {
        Some((c - 0x41u8 - 4) as u64)
    } else if 0x30u8 <= c && c <= 0x39u8 {
        Some((c - 0x30u8 + 22) as u64)
    } else if 0x61u8 <= c && c <= 0x68u8 {
        // Support lowercase letters too, why not
        Some((c - 0x61u8) as u64)
    } else if 0x6Au8 <= c && c <= 0x6Eu8 {
        Some((c - 0x61u8 - 1) as u64)
    } else if c == 0x70u8 {
        Some((c - 0x61u8 - 2) as u64)
    } else if 0x72u8 <= c && c <= 0x74u8 {
        Some((c - 0x61u8 - 3) as u64)
    } else if 0x76u8 <= c && c <= 0x7Au8 {
        Some((c - 0x61u8 - 4) as u64)
    } else {
        None
    }
}

proof fn lemma_shift_or(acc: u64, c: u64, k: u64)
    requires
        k <= 7,
        acc < (1u64 << (5 * k)),
        c < 32,
    ensures
        (acc << 5) | c == acc * 32 + c,
        acc * 32 + c < (1u64 << (5 * (k + 1))),
{
    assert((acc << 5) | c == acc * 32 + c && acc * 32 + c < (1u64 << (5 * (k + 1)))) by (bit_vector)
        requires
            k <= 7,
            acc < (1u64 << (5 * k)),
            c < 32,
    ;
}

proof fn lemma_hex_step(value: u32, d: u32, k: u32)
    requires
        k <= 6,
        value < (1u32 << (4 * k)),
        d < 16,
    ensures
        value * 16 + d < (1u32 << (4 * (k + 1))),
{
    assert(value * 16 + d < (1u32 << (4 * (k + 1)))) by (bit_vector)
        requires
            k <= 6,
            value < (1u32 << (4 * k)),
            d < 16,
    ;
}

proof fn lemma_shift_mono(a: u32, b: u32)
    requires
        a <= b <= 7,
    ensures
        (1u32 << (4 * a)) <= (1u32 << (4 * b)),
{
    assert((1u32 << (4 * a)) <= (1u32 << (4 * b))) by (bit_vector)
        requires
            a <= b <= 7,
    ;
}

pub fn decode_game_genie(code: &str) -> (r: Option<(u32, u16)>)
    ensures
        r == game_genie_spec(code.spec_bytes()),
{
    let bytes = code.as_bytes();

    // Codes should always be in ABCD-EFGH format
    if bytes.len() != 9 || bytes[4] != 0x2Du8 {
        return None;
    }
    let ghost chars = bytes@.subrange(0, 4) + bytes@.subrange(5, 9);

    // The 8 non-hyphen characters decode into a scrambled 40-bit value, 5 bits per char
    let mut scrambled: u64 = 0;
    let mut i: usize = 0;
    proof {
        crate::bit_facts::lemma_constants();
    }
    while i < 9
        invariant
            bytes@ == code.spec_bytes(),
            bytes@.len() == 9,
            chars == bytes@.subrange(0, 4) + bytes@.subrange(5, 9),
            i <= 9,
            i != 4,
            game_genie_number(chars.subrange(0, if i < 4 { i as int } else { i as int - 1 }))
                == Some(scrambled as int),
            scrambled < (1u64 << (5 * (if i < 4 { i as u64 } else { (i - 1) as u64 }))),
        decreases 9 - i,
    {
        let k: usize = if i < 4 { i } else { i - 1 };
        let c = match decode_game_genie_char(bytes[i]) {
            Some(c) => c,
            None => {
                proof {
                    assert(chars.subrange(0, k as int + 1).drop_last() =~= chars.subrange(0, k as int));
                    assert(chars[k as int] == bytes@[i as int]);
                    assert(chars.subrange(0, k as int + 1).last() == bytes@[i as int]);
                    assert(game_genie_number(chars.subrange(0, k as int)) == Some(scrambled as int));
                    assert(game_genie_number(chars.subrange(0, k as int + 1)) is None);
                    lemma_none_propagates(chars, k as int + 1);
                    assert(game_genie_number(chars) is None);
                    assert(game_genie_spec(bytes@) is None);
                }
                return None;
            },
        };
        proof {
            assert(chars.subrange(0, k as int + 1).drop_last() =~= chars.subrange(0, k as int));
            assert(chars[k as int] == bytes@[i as int]);
            lemma_shift_or(scrambled, c, k as u64);
        }
        scrambled = (scrambled << 5) | c;
        i = if i == 3 { 5 } else { i + 1 };
    }
    proof {
        assert(chars.subrange(0, 8) =~= chars);
    }
    let address = (((scrambled >> 16) & 0xFF) << 16) | (((scrambled >> 24) & 0xFF) << 8) | (
    scrambled & 0xFF);
    let value = (((scrambled >> 8) & 7) << 13) | (((scrambled >> 11) & 0x1F) << 8) | ((scrambled
        >> 32) & 0xFF);
    Some((address as u32, value as u16))
}

/// If a prefix of the characters does not decode, neither does any longer prefix.
proof fn lemma_none_propagates(chars: Seq<u8>, k: int)
    requires
        0 < k <= chars.len(),
        game_genie_number(chars.subrange(0, k)) is None,
    ensures
        game_genie_number(chars) is None,
    decreases chars.len() - k,
{
    if k < chars.len() {
        assert(chars.subrange(0, k + 1).drop_last() =~= chars.subrange(0, k));
        lemma_none_propagates(chars, k + 1);
    } else {
        assert(chars.subrange(0, k) =~= chars);
    }
}

fn hex_digit(c: u8) -> (r: Option<u32>)
    ensures
        r matches Some(v) ==> hex_digit_spec(c) == Some(v as int) && v < 16,
        r is None ==> hex_digit_spec(c) is None,
{
    if 0x30u8 <= c && c <= 0x39u8 {
        Some((c - 0x30u8) as u32)
    } else if 0x41u8 <= c && c <= 0x46u8 {
        Some((c - 0x41u8 + 10) as u32)
    } else if 0x61u8 <= c && c <= 0x66u8 {
        Some((c - 0x61u8 + 10) as u32)
    } else {
        None
    }
}

proof fn lemma_hex_none_propagates(s: Seq<u8>, k: int)
    requires
        0 < k <= s.len(),
        hex_digits_value(s.subrange(0, k)) is None,
    ensures
        hex_digits_value(s) is None,
    decreases s.len() - k,
{
    if k < s.len() {
        assert(s.subrange(0, k + 1).drop_last() =~= s.subrange(0, k));
        lemma_hex_none_propagates(s, k + 1);
    } else {
        assert(s.subrange(0, k) =~= s);
    }
}

/// Parses the hexadecimal number in `bytes[start..end]` as `from_str_radix(_, 16)` does.
pub(crate) fn parse_hex(bytes: &[u8], start: usize, end: usize) -> (r: Option<u32>)
    requires
        start <= end <= bytes@.len(),
        end - start <= 7,
    ensures
        r matches Some(v) ==> hex_number(bytes@.subrange(start as int, end as int)) == Some(v as int)
            && v < (1u32 << (4 * (end - start) as u32)),
        r is None ==> hex_number(bytes@.subrange(start as int, end as int)) is None,
{
    let ghost s = bytes@.subrange(start as int, end as int);
    if start == end {
        return None;
    }
    let mut i = start;
    if bytes[start] == 0x2Bu8 {
        if end - start == 1 {
            return None;
        }
        i = start + 1;
    }
    let ghost first = i;
    let ghost digits = bytes@.subrange(first as int, end as int);
    assert(digits =~= if bytes[start as int] == 0x2B { s.drop_first() } else { s });
    assert(hex_number(s) == hex_digits_value(digits));
    proof {
        crate::bit_facts::lemma_constants();
    }
    let mut value: u32 = 0;
    while i < end
        invariant
            s == bytes@.subrange(start as int, end as int),
            hex_number(s) == hex_digits_value(digits),
            start <= first <= i <= end <= bytes@.len(),
            end - first <= 7,
            digits == bytes@.subrange(first as int, end as int),
            hex_digits_value(digits.subrange(0, i - first)) == Some(value as int),
            value < (1u32 << (4 * (i - first) as u32)),
        decreases end - i,
    {
        let ghost k = i - first;
        match hex_digit(bytes[i]) {
            Some(d) => {
                proof {
                    assert(digits.subrange(0, k + 1).drop_last() =~= digits.subrange(0, k));
                    assert(digits[k] == bytes@[i as int]);
                    lemma_hex_step(value, d, k as u32);
                    lemma_shift_mono((k + 1) as u32, 7);
                }
                value = value * 16 + d;
            },
            None => {
                proof {
                    assert(digits.subrange(0, k + 1).drop_last() =~= digits.subrange(0, k));
                    assert(digits[k] == bytes@[i as int]);
                    assert(digits.subrange(0, k + 1).last() == bytes@[i as int]);
                    assert(hex_digits_value(digits.subrange(0, k)) == Some(value as int));
                    assert(hex_digits_value(digits.subrange(0, k + 1)) is None);
                    lemma_hex_none_propagates(digits, k + 1);
                    assert(hex_digits_value(digits) is None);
                    assert(hex_number(s) is None);
                }
                return None;
            },
        }
        i += 1;
    }
    assert(digits.subrange(0, end - first) =~= digits);
    proof {
        lemma_shift_mono((end - first) as u32, (end - start) as u32);
    }
    Some(value)
}

fn swap_bytes(v: u16) -> (r: u16)
    ensures
        r == swap_bytes_spec(v),
{
    (v % 256) * 256 + v / 256
}

pub fn decode_action_replay(code: &str) -> (r: Option<(u32, u16)>)
    ensures
        r == action_replay_spec(code.spec_bytes()),
{
    // Pro Action Replay codes are in format "98765-43210" or "98765 43210"
    // With hyphen/space removed, first 6 digits are address and last 4 are value (in hex)
    let bytes = code.as_bytes();

    if bytes.len() != 11 || !(bytes[5] == 0x2Du8 || bytes[5] == 0x20u8) {
        return None;
    }
    let high = match parse_hex(bytes, 0, 5) {
        Some(v) => v,
        None => {
            return None;
        },
    };
    proof {
        crate::bit_facts::lemma_constants();
    }
    let low = match hex_digit(bytes[6]) {
        Some(v) => v,
        None => {
            return None;
        },
    };
    let value = match parse_hex(bytes, 7, 11) {
        Some(v) => v,
        None => {
            return None;
        },
    };
    proof {
        crate::bit_facts::lemma_constants();
    }
    let address = 16 * high + low;

    // Action Replay memory values seem to be little-endian instead of big-endian; byteswap
    let value = swap_bytes(value as u16);

    Some((address, value))
}

pub fn decode_memory_override(code: &str) -> (r: Option<(u32, u16)>)
    ensures
        r == memory_override_spec(code.spec_bytes()),
{
    // Memory override codes are in format 987654:3210 (address:value in hex)
    let bytes = code.as_bytes();
    if bytes.len() != 11 || bytes[6] != 0x3Au8 {
        return None;
    }
    let address = match parse_hex(bytes, 0, 6) {
        Some(v) => v,
        None => {
            return None;
        },
    };
    let value = match parse_hex(bytes, 7, 11) {
        Some(v) => v,
        None => {
            return None;
        },
    };
    proof {
        crate::bit_facts::lemma_constants();
    }
    Some((address, value as u16))
}

/// The memory override a code gives, if its type is recognized and it decodes.
pub open spec fn code_override(code: Seq<char>) -> Option<(u32, u16)> {
    match guess_spec(code) {
        Some(t) => t.decode_spec(vstd::utf8::encode_utf8(code)),
        None => None,
    }
}

/// The overrides of a list of codes, in order, skipping codes that are not recognized or do not
/// decode.
pub open spec fn codes_overrides(codes: Seq<String>) -> Seq<(u32, u16)>
    decreases codes.len(),
{
    if codes.len() == 0 {
        Seq::empty()
    } else {
        let rest = codes_overrides(codes.drop_last());
        match code_override(codes.last()@) {
            Some(o) => rest.push(o),
            None => rest,
        }
    }
}

#[derive(Debug, Clone)]
pub struct GenesisCheat {
    pub name: String,
    pub enabled: bool,
    pub codes: Vec<String>,
}

/// The overrides of a cheat: none when disabled.
pub open spec fn cheat_overrides(cheat: GenesisCheat) -> Seq<(u32, u16)> {
    if cheat.enabled {
        codes_overrides(cheat.codes@)
    } else {
        Seq::empty()
    }
}

/// The overrides of a list of cheats, concatenated in order.
pub open spec fn cheats_overrides(cheats: Seq<GenesisCheat>) -> Seq<(u32, u16)>
    decreases cheats.len(),
{
    if cheats.len() == 0 {
        Seq::empty()
    } else {
        cheats_overrides(cheats.drop_last()) + cheat_overrides(cheats.last())
    }
}

/// The memory override of one code.
pub fn code_to_override(code: &str) -> (r: Option<(u32, u16)>)
    ensures
        r == code_override(code@),
{
    match GenesisCheatCodeType::guess_from(code) {
        Some(code_type) => code_type.decode(code),
        None => None,
    }
}

impl GenesisCheat {
    /// Memory overrides of the cheat's codes, in order; empty when the cheat is disabled. Codes
    /// that are not recognized or do not decode are skipped.
    pub fn to_memory_override_vec(&self) -> (r: Vec<(u32, u16)>)
        ensures
            r@ == cheat_overrides(*self),
    {
        let mut result: Vec<(u32, u16)> = Vec::new();
        if !self.enabled {
            return result;
        }
        let mut i: usize = 0;
        while i < self.codes.len()
            invariant
                i <= self.codes@.len(),
                self.enabled,
                result@ == codes_overrides(self.codes@.subrange(0, i as int)),
            decreases self.codes@.len() - i,
        {
            let code = &self.codes[i];
            let o = code_to_override(code.as_str());
            proof {
                assert(self.codes@.subrange(0, i as int + 1).drop_last() =~= self.codes@.subrange(
                    0,
                    i as int,
                ));
            }
            match o {
                Some(pair) => result.push(pair),
                None => {},
            }
            i += 1;
        }
        assert(self.codes@.subrange(0, self.codes@.len() as int) =~= self.codes@);
        result
    }

    pub fn new(name: String) -> (r: Self)
        ensures
            r.name == name,
            r.enabled,
            r.codes@.len() == 0,
    {
        Self { name, enabled: true, codes: Vec::new() }
    }
}

impl Default for GenesisCheat {
    fn default() -> (r: Self)
        ensures
            r.name@ == Seq::<char>::empty(),
            r.enabled,
            r.codes@.len() == 0,
    {
        Self::new(String::new())
    }
}

#[derive(Debug, Clone)]
pub struct GenesisCheats {
    pub cheats: Vec<GenesisCheat>,
}

impl GenesisCheats {
    pub fn new() -> (r: Self)
        ensures
            r.cheats@.len() == 0,
    {
        GenesisCheats { cheats: Vec::new() }
    }

    /// Convert to a [`Vec`] of 68000 address/value pairs
    ///
    /// Excludes disabled cheats and any cheats that have invalid codes
    pub fn to_memory_override_vec(&self) -> (r: Vec<(u32, u16)>)
        ensures
            r@ == cheats_overrides(self.cheats@),
    {
        let mut result: Vec<(u32, u16)> = Vec::new();
        let mut i: usize = 0;
        while i < self.cheats.len()
            invariant
                i <= self.cheats@.len(),
                result@ == cheats_overrides(self.cheats@.subrange(0, i as int)),
            decreases self.cheats@.len() - i,
        {
            let mut overrides = self.cheats[i].to_memory_override_vec();
            proof {
                assert(self.cheats@.subrange(0, i as int + 1).drop_last() =~= self.cheats@.subrange(
                    0,
                    i as int,
                ));
            }
            result.append(&mut overrides);
            i += 1;
        }
        assert(self.cheats@.subrange(0, self.cheats@.len() as int) =~= self.cheats@);
        result
    }
}

impl Default for GenesisCheats {
    fn default() -> (r: Self)
        ensures
            r.cheats@.len() == 0,
    {
        Self::new()
    }
}

} // verus!
