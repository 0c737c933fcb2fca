//! Canonical text form of the opaque 128-bit identifiers: 32 lowercase
//! hex digits in five hyphen-separated fields, as transports render
//! them. Rendering and parsing are exact inverses, proved below.

use vstd::prelude::*;

use crate::domain::{GroupId, UserId};
use crate::error::Error;
use crate::rbac::Principal;

verus! {

/// Whether text position `i` (of 36) holds a field separator.
pub open spec fn spec_is_hyphen_pos(i: int) -> bool {
    i == 8 || i == 13 || i == 18 || i == 23
}

/// The index of the hex digit at text position `i`, hyphens skipped.
pub open spec fn spec_digit_index(i: int) -> int {
    if i < 8 {
        i
    } else if i < 13 {
        i - 1
    } else if i < 18 {
        i - 2
    } else if i < 23 {
        i - 3
    } else {
        i - 4
    }
}

/// How many of the 32 hex digits lie before text position `i`.
pub open spec fn spec_digits_before(i: int) -> int {
    if i <= 8 {
        i
    } else if i <= 13 {
        i - 1
    } else if i <= 18 {
        i - 2
    } else if i <= 23 {
        i - 3
    } else {
        i - 4
    }
}

/// The `k`-th hex digit of the value, most significant first.
pub open spec fn spec_nibble(v: u128, k: int) -> u8 {
    ((v >> ((4 * (31 - k)) as u128)) & 0xfu128) as u8
}

/// The ASCII byte of one hex digit, lowercase.
pub open spec fn spec_hex_digit(n: u8) -> u8 {
    if n < 10 {
        (0x30 + n) as u8
    } else {
        (0x57 + n) as u8
    }
}

/// The value of one ASCII hex digit byte.
pub open spec fn spec_hex_val(c: u8) -> u8 {
    if 0x30 <= c <= 0x39 {
        (c - 0x30) as u8
    } else {
        (c - 0x57) as u8
    }
}

/// Whether a byte is a lowercase ASCII hex digit.
pub open spec fn spec_is_hex_digit(c: u8) -> bool {
    (0x30 <= c <= 0x39) || (0x61 <= c <= 0x66)
}

/// The canonical 36-byte text of a 128-bit identifier.
pub open spec fn spec_uuid_text(v: u128) -> Seq<u8> {
    Seq::new(
        36,
        |i: int|
            if spec_is_hyphen_pos(i) {
                45u8
            } else {
                spec_hex_digit(spec_nibble(v, spec_digit_index(i)))
            },
    )
}

/// Whether text position `i` is well-formed canonical text.
pub open spec fn spec_uuid_char_ok(s: Seq<u8>, i: int) -> bool {
    if spec_is_hyphen_pos(i) {
        s[i] == 45u8
    } else {
        spec_is_hex_digit(s[i])
    }
}

/// Whether a byte string is canonical identifier text.
pub open spec fn spec_is_uuid_text(s: Seq<u8>) -> bool {
    s.len() == 36 && forall|i: int| 0 <= i < 36 ==> #[trigger] spec_uuid_char_ok(s, i)
}

/// The value read from the first `i` positions of canonical text.
pub open spec fn spec_text_value_prefix(s: Seq<u8>, i: int) -> u128
    decreases i,
{
    if i <= 0 {
        0u128
    } else if spec_is_hyphen_pos(i - 1) {
        spec_text_value_prefix(s, i - 1)
    } else {
        (spec_text_value_prefix(s, i - 1) << 4u128) | (spec_hex_val(s[i - 1]) as u128)
    }
}

/// The value canonical text denotes.
pub open spec fn spec_uuid_value(s: Seq<u8>) -> u128 {
    spec_text_value_prefix(s, 36)
}

/// The canonical text of the anonymous principal.
pub open spec fn spec_anonymous_text() -> Seq<u8> {
    // the bytes of "anonymous"
    seq![0x61u8, 0x6eu8, 0x6fu8, 0x6eu8, 0x79u8, 0x6du8, 0x6fu8, 0x75u8, 0x73u8]
}

/// The index of the hex digit at a text position, hyphens skipped.
fn digit_index(i: usize) -> (k: usize)
    requires
        i < 36,
        !spec_is_hyphen_pos(i as int),
    ensures
        k == spec_digit_index(i as int),
        k < 32,
{
    if i < 8 {
        i
    } else if i < 13 {
        i - 1
    } else if i < 18 {
        i - 2
    } else if i < 23 {
        i - 3
    } else {
        i - 4
    }
}

/// The ASCII byte of one hex digit, lowercase.
fn hex_digit(n: u8) -> (c: u8)
    requires
        n < 16,
    ensures
        c == spec_hex_digit(n),
{
    if n < 10 {
        0x30 + n
    } else {
        0x57 + n
    }
}

/// Renders a 128-bit identifier in its canonical text form.
pub fn uuid_text(v: u128) -> (r: Vec<u8>)
    ensures
        r@ == spec_uuid_text(v),
{
    let mut out: Vec<u8> = Vec::new();
    for i in 0..36usize
        invariant
            out@.len() == i,
            forall|j: int| 0 <= j < i ==> out@[j] == spec_uuid_text(v)[j],
    {
        if i == 8 || i == 13 || i == 18 || i == 23 {
            out.push(45u8);
        } else {
            let k = digit_index(i);
            let sh: u128 = (4 * (31 - k)) as u128;
            assert((v >> sh) & 0xfu128 <= 15) by (bit_vector);
            let nib: u8 = ((v >> sh) & 0xfu128) as u8;
            proof {
                assert(sh == (4 * (31 - spec_digit_index(i as int))) as u128);
                assert(nib == spec_nibble(v, spec_digit_index(i as int)));
            }
            let c = hex_digit(nib);
            out.push(c);
        }
    }
    proof {
        assert(out@ =~= spec_uuid_text(v));
    }
    out
}

/// Parses canonical identifier text back to its 128-bit value. Any
/// other shape — wrong length, misplaced separators, a byte outside
/// the lowercase hex alphabet — is an encoding error.
pub fn parse_uuid_text(s: &[u8]) -> (r: Result<u128, Error>)
    ensures
        spec_is_uuid_text(s@) ==> (r matches Ok(v) && v == spec_uuid_value(s@)),
        !spec_is_uuid_text(s@) ==> (r matches Err(e) && e == Error::Encoding),
{
    if s.len() != 36 {
        return Err(Error::Encoding);
    }
    let mut acc: u128 = 0;
    for i in 0..36usize
        invariant
            s@.len() == 36,
            forall|j: int| 0 <= j < i ==> #[trigger] spec_uuid_char_ok(s@, j),
            acc == spec_text_value_prefix(s@, i as int),
    {
        let c = s[i];
        if i == 8 || i == 13 || i == 18 || i == 23 {
            if c != 45 {
                proof {
                    if spec_is_uuid_text(s@) {
                        assert(spec_uuid_char_ok(s@, i as int));
                    }
                }
                return Err(Error::Encoding);
            }
        } else {
            let hv: u8;
            if 0x30 <= c && c <= 0x39 {
                hv = c - 0x30;
            } else if 0x61 <= c && c <= 0x66 {
                hv = c - 0x61 + 10;
            } else {
                proof {
                    if spec_is_uuid_text(s@) {
                        assert(spec_uuid_char_ok(s@, i as int));
                    }
                }
                return Err(Error::Encoding);
            }
            proof {
                assert(hv == spec_hex_val(s@[i as int]));
            }
            acc = (acc << 4u128) | (hv as u128);
        }
        proof {
            assert(spec_uuid_char_ok(s@, i as int));
        }
    }
    proof {
        assert(spec_is_uuid_text(s@));
    }
    Ok(acc)
}

/// The value whose hex digits before position `k` have been read.
spec fn spec_high_nibbles(v: u128, k: int) -> u128 {
    if k <= 0 {
        0u128
    } else {
        v >> ((4 * (32 - k)) as u128)
    }
}

/// One hex digit renders to a byte that reads back as itself.
proof fn lemma_hex_digit_round_trip(n: u8)
    requires
        n < 16,
    ensures
        spec_is_hex_digit(spec_hex_digit(n)),
        spec_hex_val(spec_hex_digit(n)) == n,
{
}

/// Reading the first `i` positions of rendered text recovers the
/// rendered value's leading hex digits.
proof fn lemma_text_value_prefix(v: u128, i: int)
    requires
        0 <= i <= 36,
    ensures
        spec_text_value_prefix(spec_uuid_text(v), i) == spec_high_nibbles(
            v,
            spec_digits_before(i),
        ),
    decreases i,
{
    if i > 0 {
        lemma_text_value_prefix(v, i - 1);
        let t = spec_uuid_text(v);
        if !spec_is_hyphen_pos(i - 1) {
            let k = spec_digit_index(i - 1);
            assert(k == spec_digits_before(i - 1));
            assert(spec_digits_before(i) == k + 1);
            assert(t[i - 1] == spec_hex_digit(spec_nibble(v, k)));
            let nsh: u128 = (4 * (31 - k)) as u128;
            assert((v >> nsh) & 0xfu128 <= 15) by (bit_vector);
            lemma_hex_digit_round_trip(spec_nibble(v, k));
            assert(spec_hex_val(t[i - 1]) == spec_nibble(v, k));
            if k == 0 {
                assert((0u128 << 4u128) | ((v >> 124u128) & 0xfu128) == v >> 124u128)
                    by (bit_vector);
                assert(nsh == 124u128);
            } else {
                let sh: u128 = (4 * (32 - k)) as u128;
                assert(((v >> sh) << 4u128) | ((v >> nsh) & 0xfu128) == v >> nsh) by (bit_vector)
                    requires
                        4 <= sh <= 124 && nsh == sh - 4,
                ;
                assert(nsh == sh - 4);
                assert((4 * (32 - (k + 1))) as u128 == nsh);
            }
        }
    }
}

/// Rendering and parsing are inverses: the canonical text of a value
/// is well-formed and denotes that value — so two values with equal
/// canonical text are equal.
pub proof fn lemma_uuid_text_round_trip(v: u128)
    ensures
        spec_is_uuid_text(spec_uuid_text(v)),
        spec_uuid_value(spec_uuid_text(v)) == v,
{
    let t = spec_uuid_text(v);
    assert forall|i: int| 0 <= i < 36 implies #[trigger] spec_uuid_char_ok(t, i) by {
        if !spec_is_hyphen_pos(i) {
            let k = spec_digit_index(i);
            let sh: u128 = (4 * (31 - k)) as u128;
            assert((v >> sh) & 0xfu128 <= 15) by (bit_vector);
            lemma_hex_digit_round_trip(spec_nibble(v, k));
        }
    }
    lemma_text_value_prefix(v, 36);
    assert(spec_high_nibbles(v, 32) == v >> 0u128);
    assert(v >> 0u128 == v) by (bit_vector);
}

/// Renders a user id in its canonical text form.
pub fn user_id_text(id: UserId) -> (r: Vec<u8>)
    ensures
        r@ == spec_uuid_text(id.0),
{
    uuid_text(id.0)
}

/// Parses canonical text as a user id.
pub fn parse_user_id(s: &[u8]) -> (r: Result<UserId, Error>)
    ensures
        spec_is_uuid_text(s@) ==> (r matches Ok(id) && id.0 == spec_uuid_value(s@)),
        !spec_is_uuid_text(s@) ==> (r matches Err(e) && e == Error::Encoding),
{
    match parse_uuid_text(s) {
        Ok(v) => Ok(UserId::new(v)),
        Err(e) => Err(e),
    }
}

/// Renders a group id in its canonical text form.
pub fn group_id_text(id: GroupId) -> (r: Vec<u8>)
    ensures
        r@ == spec_uuid_text(id.0),
{
    uuid_text(id.0)
}

/// Parses canonical text as a group id.
pub fn parse_group_id(s: &[u8]) -> (r: Result<GroupId, Error>)
    ensures
        spec_is_uuid_text(s@) ==> (r matches Ok(id) && id.0 == spec_uuid_value(s@)),
        !spec_is_uuid_text(s@) ==> (r matches Err(e) && e == Error::Encoding),
{
    match parse_uuid_text(s) {
        Ok(v) => Ok(GroupId::new(v)),
        Err(e) => Err(e),
    }
}

/// The canonical text of a principal's identity: its id's text, or
/// "anonymous" for the anonymous principal.
pub fn principal_text(p: Principal) -> (r: Vec<u8>)
    ensures
        p matches Principal::User(u) ==> r@ == spec_uuid_text(u.0),
        p == Principal::Anonymous ==> r@ == spec_anonymous_text(),
{
    match p {
        Principal::User(u) => uuid_text(u.0),
        Principal::Anonymous => {
            let mut out: Vec<u8> = Vec::new();
            out.push(0x61);
            out.push(0x6e);
            out.push(0x6f);
            out.push(0x6e);
            out.push(0x79);
            out.push(0x6d);
            out.push(0x6f);
            out.push(0x75);
            out.push(0x73);
            proof {
                assert(out@ =~= spec_anonymous_text());
            }
            out
        },
    }
}

} // verus!
