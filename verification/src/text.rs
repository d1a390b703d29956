//! Decoding of platform-native UTF-16 text into portable strings.
//!
//! Volume identifiers and the text fields of a metadata query arrive as
//! buffers of 16-bit code units.  Decoding is lossy by design: a malformed
//! unit becomes the replacement character, so that a volume with a damaged
//! name still yields a record rather than an error.

use vstd::prelude::*;
use vstd::slice::slice_subrange;

verus! {

/// The character substituted for each malformed code unit.
pub const REPLACEMENT_CHARACTER: char = '\u{FFFD}';

/// True of a value that an isolated `char` may carry: below the surrogate
/// range, or between the surrogates and the top of the Unicode code space.
pub open spec fn is_scalar_value(v: u32) -> bool {
    v < 0xD800 || (0xE000 <= v && v <= 0x10FFFF)
}

/// True of a UTF-16 high (leading) surrogate code unit.
pub open spec fn is_high_surrogate(u: u16) -> bool {
    0xD800 <= u && u < 0xDC00
}

/// True of a UTF-16 low (trailing) surrogate code unit.
pub open spec fn is_low_surrogate(u: u16) -> bool {
    0xDC00 <= u && u < 0xE000
}

/// The scalar value a well-formed surrogate pair encodes.
pub open spec fn combined_scalar(hi: u16, lo: u16) -> u32
    recommends
        is_high_surrogate(hi),
        is_low_surrogate(lo),
{
    (0x10000 + (hi - 0xD800) * 0x400 + (lo - 0xDC00)) as u32
}

/// Lossy UTF-16 decoding, unit by unit from the front: a well-formed
/// surrogate pair becomes the scalar it encodes, an unpaired surrogate
/// becomes the replacement character, and any other unit is its own code
/// point.
pub open spec fn decoded_utf16(s: Seq<u16>) -> Seq<char>
    decreases s.len(),
{
    if s.len() == 0 {
        Seq::empty()
    } else if is_high_surrogate(s[0]) {
        if s.len() >= 2 && is_low_surrogate(s[1]) {
            seq![combined_scalar(s[0], s[1]) as char] + decoded_utf16(s.skip(2))
        } else {
            seq![REPLACEMENT_CHARACTER] + decoded_utf16(s.skip(1))
        }
    } else if is_low_surrogate(s[0]) {
        seq![REPLACEMENT_CHARACTER] + decoded_utf16(s.skip(1))
    } else {
        seq![(s[0] as u32) as char] + decoded_utf16(s.skip(1))
    }
}

/// The units of a fixed-size output buffer that precede its first zero
/// unit — the portion a platform query actually filled.  The whole buffer
/// when no zero occurs.
pub open spec fn nul_terminated_prefix(s: Seq<u16>) -> Seq<u16>
    decreases s.len(),
{
    if s.len() == 0 || s[0] == 0 {
        Seq::empty()
    } else {
        seq![s[0]] + nul_terminated_prefix(s.skip(1))
    }
}

/// Relies on char::from_u32: `Some` exactly on Unicode scalar values, and
/// the character returned carries the given value.
pub assume_specification[ char::from_u32 ](v: u32) -> (r: Option<char>)
    ensures
        r is Some <==> is_scalar_value(v),
        r matches Some(c) ==> c as u32 == v && c == (v as char),
;

/// Relies on String::push: appends exactly the given character.
pub assume_specification[ String::push ](s: &mut String, c: char)
    ensures
        final(s)@ == old(s)@ + seq![c],
;

/// Decoding never erases text: a non-empty buffer decodes to a non-empty
/// sequence of characters, since every step consumes at least one unit and
/// yields exactly one character.
pub proof fn lemma_decoded_nonempty(s: Seq<u16>)
    requires
        s.len() > 0,
    ensures
        decoded_utf16(s).len() > 0,
{
    if is_high_surrogate(s[0]) && s.len() >= 2 && is_low_surrogate(s[1]) {
        assert(decoded_utf16(s) == seq![combined_scalar(s[0], s[1]) as char]
            + decoded_utf16(s.skip(2)));
    } else if is_high_surrogate(s[0]) || is_low_surrogate(s[0]) {
        assert(decoded_utf16(s) == seq![REPLACEMENT_CHARACTER] + decoded_utf16(s.skip(1)));
    } else {
        assert(decoded_utf16(s) == seq![(s[0] as u32) as char] + decoded_utf16(s.skip(1)));
    }
}

/// Decodes a buffer of UTF-16 code units, substituting the replacement
/// character for malformed sequences; decoding never fails.
pub fn decode_utf16_lossy(units: &[u16]) -> (r: String)
    ensures
        r@ == decoded_utf16(units@),
{
    let mut out = String::new();
    let mut i: usize = 0;
    proof {
        assert(units@.skip(0) =~= units@);
        assert(out@ + decoded_utf16(units@) =~= decoded_utf16(units@));
    }
    while i < units.len()
        invariant
            i <= units@.len(),
            out@ + decoded_utf16(units@.skip(i as int)) == decoded_utf16(units@),
        decreases units@.len() - i,
    {
        let ghost rest = units@.skip(i as int);
        let ghost prev = out@;
        let u = units[i];
        assert(rest[0] == u);
        if 0xD800 <= u && u < 0xDC00 {
            if i + 1 < units.len() && 0xDC00 <= units[i + 1] && units[i + 1] < 0xE000 {
                let lo = units[i + 1];
                assert(rest.len() >= 2 && rest[1] == lo);
                let v: u32 = 0x10000 + ((u - 0xD800) as u32) * 0x400 + ((lo - 0xDC00) as u32);
                proof {
                    assert(v == combined_scalar(u, lo));
                    assert(is_scalar_value(v));
                }
                let c = char::from_u32(v).unwrap();
                out.push(c);
                proof {
                    assert(rest.skip(2) =~= units@.skip(i as int + 2));
                    assert(decoded_utf16(rest) == seq![combined_scalar(u, lo) as char]
                        + decoded_utf16(rest.skip(2)));
                    assert(out@ + decoded_utf16(units@.skip(i as int + 2))
                        =~= prev + decoded_utf16(rest));
                }
                i = i + 2;
            } else {
                out.push(REPLACEMENT_CHARACTER);
                proof {
                    assert(rest.skip(1) =~= units@.skip(i as int + 1));
                    assert(decoded_utf16(rest) == seq![REPLACEMENT_CHARACTER]
                        + decoded_utf16(rest.skip(1)));
                    assert(out@ + decoded_utf16(units@.skip(i as int + 1))
                        =~= prev + decoded_utf16(rest));
                }
                i = i + 1;
            }
        } else if 0xDC00 <= u && u < 0xE000 {
            out.push(REPLACEMENT_CHARACTER);
            proof {
                assert(rest.skip(1) =~= units@.skip(i as int + 1));
                assert(decoded_utf16(rest) == seq![REPLACEMENT_CHARACTER]
                    + decoded_utf16(rest.skip(1)));
                assert(out@ + decoded_utf16(units@.skip(i as int + 1))
                    =~= prev + decoded_utf16(rest));
            }
            i = i + 1;
        } else {
            let v: u32 = u as u32;
            assert(is_scalar_value(v));
            let c = char::from_u32(v).unwrap();
            out.push(c);
            proof {
                assert(rest.skip(1) =~= units@.skip(i as int + 1));
                assert(decoded_utf16(rest) == seq![(u as u32) as char]
                    + decoded_utf16(rest.skip(1)));
                assert(out@ + decoded_utf16(units@.skip(i as int + 1))
                    =~= prev + decoded_utf16(rest));
            }
            i = i + 1;
        }
    }
    proof {
        assert(units@.skip(units@.len() as int) =~= Seq::<u16>::empty());
        assert(out@ + decoded_utf16(Seq::<u16>::empty()) =~= out@);
    }
    out
}

/// The decoded form of the filled portion of a fixed-size, nul-terminated
/// output buffer.
pub fn decode_to_nul(units: &[u16]) -> (r: String)
    ensures
        r@ == decoded_utf16(nul_terminated_prefix(units@)),
{
    let mut end: usize = 0;
    while end < units.len() && units[end] != 0
        invariant
            end <= units@.len(),
            forall|j: int| 0 <= j < end ==> units@[j] != 0,
        decreases units@.len() - end,
    {
        end = end + 1;
    }
    proof {
        lemma_nul_prefix_is_take(units@, end as int);
    }
    let filled = slice_subrange(units, 0, end);
    proof {
        assert(filled@ =~= units@.take(end as int));
    }
    decode_utf16_lossy(filled)
}

/// When the first `end` units of a buffer are non-zero and either the
/// buffer ends there or the unit at `end` is zero, the prefix before the
/// first zero is exactly those `end` units.
proof fn lemma_nul_prefix_is_take(s: Seq<u16>, end: int)
    requires
        0 <= end <= s.len(),
        forall|j: int| 0 <= j < end ==> s[j] != 0,
        end == s.len() || s[end] == 0,
    ensures
        nul_terminated_prefix(s) == s.take(end),
    decreases s.len(),
{
    if end == 0 {
        assert(s.take(0) =~= Seq::<u16>::empty());
    } else {
        assert(s[0] != 0);
        lemma_nul_prefix_is_take(s.skip(1), end - 1);
        assert(s.take(end) =~= seq![s[0]] + s.skip(1).take(end - 1));
    }
}

} // verus!
