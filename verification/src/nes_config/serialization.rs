//! NES palettes in configuration files: the palette's bytes as a base64 string (standard
//! alphabet, no padding), which reads better in TOML and other text formats than raw bytes.
use crate::nes_config::{palette_bytes, triples, NesPalette};
use base64::Engine;
use vstd::prelude::*;

verus! {

/// The character of a 6-bit value in the standard base64 alphabet.
pub open spec fn base64_char(v: int) -> char {
    if v < 26 {
        (65 + v) as char
    } else if v < 52 {
        (97 + v - 26) as char
    } else if v < 62 {
        (48 + v - 52) as char
    } else if v == 62 {
        '+'
    } else {
        '/'
    }
}

/// Base64 text of bytes, standard alphabet, without padding: every 3 bytes give 4 characters,
/// a final 1 or 2 bytes give 2 or 3 characters (the unused low bits being zero).
pub open spec fn base64_text(bytes: Seq<u8>) -> Seq<char>
    decreases bytes.len(),
{
    if bytes.len() == 0 {
        seq![]
    } else {
        let b0 = bytes[0] as int;
        if bytes.len() == 1 {
            seq![base64_char(b0 / 4), base64_char((b0 % 4) * 16)]
        } else {
            let b1 = bytes[1] as int;
            if bytes.len() == 2 {
                seq![
                    base64_char(b0 / 4),
                    base64_char((b0 % 4) * 16 + b1 / 16),
                    base64_char((b1 % 16) * 4),
                ]
            } else {
                base64_quad(bytes) + base64_text(bytes.subrange(3, bytes.len() as int))
            }
        }
    }
}

#[verifier::external_type_specification]
#[verifier::external_body]
pub struct ExDecodeError(base64::DecodeError);

/// base64's `Engine::encode` on `STANDARD_NO_PAD`: the base64 text of the bytes, standard
/// alphabet, no padding.
#[verifier::external_body]
fn base64_encode(bytes: &[u8]) -> (r: String)
    requires
        bytes.len() <= usize::MAX / 2,
    ensures
        r@ == base64_text(bytes@),
{
    base64::engine::general_purpose::STANDARD_NO_PAD.encode(bytes)
}

/// base64's `Engine::decode` on `STANDARD_NO_PAD`, which requires canonical text without
/// padding: it succeeds exactly on the base64 text of some bytes, and gives bytes whose text it
/// is. Which error comes for other text is not stated.
#[verifier::external_body]
fn base64_decode(text: &str) -> (r: Result<Vec<u8>, base64::DecodeError>)
    ensures
        match r {
            Ok(bytes) => base64_text(bytes@) == text@,
            Err(_) => forall|bytes: Seq<u8>| #[trigger] base64_text(bytes) != text@,
        },
{
    base64::engine::general_purpose::STANDARD_NO_PAD.decode(text.as_bytes())
}

/// `base64_char` gives distinct characters to distinct 6-bit values.
proof fn lemma_base64_char_injective(v: int, w: int)
    requires
        0 <= v < 64,
        0 <= w < 64,
        base64_char(v) == base64_char(w),
    ensures
        v == w,
{
    assert(base64_char(v) as int == if v < 26 {
        65 + v
    } else if v < 52 {
        97 + v - 26
    } else if v < 62 {
        48 + v - 52
    } else if v == 62 {
        43
    } else {
        47
    });
    assert(base64_char(w) as int == if w < 26 {
        65 + w
    } else if w < 52 {
        97 + w - 26
    } else if w < 62 {
        48 + w - 52
    } else if w == 62 {
        43
    } else {
        47
    });
}

/// The length of base64 text: 4 characters for every 3 bytes, and 2 or 3 for a final 1 or 2.
proof fn lemma_base64_text_len(bytes: Seq<u8>)
    ensures
        base64_text(bytes).len() == 4 * (bytes.len() / 3) + if bytes.len() % 3 == 0 {
            0
        } else {
            bytes.len() % 3 + 1
        },
    decreases bytes.len(),
{
    if bytes.len() >= 3 {
        lemma_base64_text_len(bytes.subrange(3, bytes.len() as int));
    }
}

/// The first four characters of the base64 text of at least 3 bytes.
pub open spec fn base64_quad(bytes: Seq<u8>) -> Seq<char> {
    let b0 = bytes[0] as int;
    let b1 = bytes[1] as int;
    let b2 = bytes[2] as int;
    seq![
        base64_char(b0 / 4),
        base64_char((b0 % 4) * 16 + b1 / 16),
        base64_char((b1 % 16) * 4 + b2 / 64),
        base64_char(b2 % 64),
    ]
}

/// Distinct bytes have distinct base64 text: the text can be decoded.
pub proof fn lemma_base64_text_injective(a: Seq<u8>, b: Seq<u8>)
    requires
        base64_text(a) == base64_text(b),
    ensures
        a == b,
    decreases a.len(),
{
    lemma_base64_text_len(a);
    lemma_base64_text_len(b);
    assert(a.len() == b.len());
    let t = base64_text(a);
    if a.len() == 0 {
        assert(a =~= b);
    } else if a.len() == 1 {
        lemma_base64_char_injective(a[0] as int / 4, b[0] as int / 4);
        lemma_base64_char_injective((a[0] as int % 4) * 16, (b[0] as int % 4) * 16);
        assert(a =~= b);
    } else if a.len() == 2 {
        lemma_base64_char_injective(a[0] as int / 4, b[0] as int / 4);
        lemma_base64_char_injective(
            (a[0] as int % 4) * 16 + a[1] as int / 16,
            (b[0] as int % 4) * 16 + b[1] as int / 16,
        );
        lemma_base64_char_injective((a[1] as int % 16) * 4, (b[1] as int % 16) * 4);
        assert(a =~= b);
    } else {
        let ra = a.subrange(3, a.len() as int);
        let rb = b.subrange(3, b.len() as int);
        let qa = base64_quad(a);
        let qb = base64_quad(b);
        assert(t == qa + base64_text(ra));
        assert(t == qb + base64_text(rb));
        assert(qa =~= t.subrange(0, 4));
        assert(qb =~= t.subrange(0, 4));
        assert(qa[0] == qb[0] && qa[1] == qb[1] && qa[2] == qb[2] && qa[3] == qb[3]);
        lemma_base64_char_injective(a[0] as int / 4, b[0] as int / 4);
        lemma_base64_char_injective(
            (a[0] as int % 4) * 16 + a[1] as int / 16,
            (b[0] as int % 4) * 16 + b[1] as int / 16,
        );
        lemma_base64_char_injective(
            (a[1] as int % 16) * 4 + a[2] as int / 64,
            (b[1] as int % 16) * 4 + b[2] as int / 64,
        );
        lemma_base64_char_injective(a[2] as int % 64, b[2] as int % 64);
        assert(base64_text(ra) =~= t.subrange(4, t.len() as int));
        assert(base64_text(rb) =~= t.subrange(4, t.len() as int));
        lemma_base64_text_injective(ra, rb);
        assert(a =~= b) by {
            assert forall|k: int| 0 <= k < a.len() implies a[k] == b[k] by {
                if k >= 3 {
                    assert(a[k] == ra[k - 3]);
                    assert(b[k] == rb[k - 3]);
                }
            }
        }
    }
}

/// The bytes whose base64 text a text is, if it is the text of any.
pub open spec fn base64_bytes(text: Seq<char>) -> Option<Seq<u8>> {
    if exists|bytes: Seq<u8>| #[trigger] base64_text(bytes) == text {
        Some(choose|bytes: Seq<u8>| #[trigger] base64_text(bytes) == text)
    } else {
        None
    }
}

/// Decoding base64 text gives back the bytes that were encoded.
pub proof fn lemma_base64_round_trip(bytes: Seq<u8>)
    ensures
        base64_bytes(base64_text(bytes)) == Some(bytes),
{
    let text = base64_text(bytes);
    assert(exists|b: Seq<u8>| #[trigger] base64_text(b) == text);
    let chosen = choose|b: Seq<u8>| #[trigger] base64_text(b) == text;
    lemma_base64_text_injective(chosen, bytes);
}

/// Why the text of a palette could not be read.
#[derive(Debug)]
pub enum PaletteTextError {
    /// The text is not canonical base64 without padding
    InvalidBase64(base64::DecodeError),
    /// The text decodes to this many bytes rather than 512 * 3
    IncorrectLength(usize),
}

/// The base64 text of a palette's bytes.
pub fn palette_to_base64(palette: &NesPalette) -> (r: String)
    ensures
        r@ == base64_text(palette_bytes(palette.0@)),
{
    let bytes = palette.to_bytes();
    base64_encode(bytes.as_slice())
}

/// The palette whose bytes a base64 text holds: an error if the text is not base64 without
/// padding, or if it does not hold exactly 512 * 3 bytes.
pub fn palette_from_base64(text: &str) -> (r: Result<NesPalette, PaletteTextError>)
    ensures
        match base64_bytes(text@) {
            None => r matches Err(PaletteTextError::InvalidBase64(_)),
            Some(bytes) => if bytes.len() == 512 * 3 {
                r matches Ok(palette) && palette.0@ == triples(bytes, 512)
            } else {
                r matches Err(PaletteTextError::IncorrectLength(len)) && len == bytes.len()
            },
        },
{
    let bytes = match base64_decode(text) {
        Ok(bytes) => bytes,
        Err(err) => {
            return Err(PaletteTextError::InvalidBase64(err));
        },
    };
    proof {
        let chosen = choose|b: Seq<u8>| #[trigger] base64_text(b) == text@;
        assert(base64_text(bytes@) == text@);
        lemma_base64_text_injective(chosen, bytes@);
    }

    if bytes.len() != 512 * 3 {
        return Err(PaletteTextError::IncorrectLength(bytes.len()));
    }

    Ok(NesPalette::from_bytes(bytes.as_slice()))
}

/// A palette written as base64 text reads back as the same palette.
pub proof fn lemma_palette_text_round_trip(palette: NesPalette)
    ensures
        base64_bytes(base64_text(palette_bytes(palette.0@))) matches Some(bytes) && bytes.len()
            == 512 * 3 && triples(bytes, 512) == palette.0@,
{
    lemma_base64_round_trip(palette_bytes(palette.0@));
    crate::nes_config::lemma_palette_bytes_round_trip(palette.0@);
}

} // verus!
