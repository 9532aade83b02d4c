//! Record identifiers: random version-4 UUIDs in their canonical text form.

use vstd::prelude::*;
use vstd::string::StrSliceExecFns;

verus! {

/// A lower-case hexadecimal digit.
pub open spec fn is_lower_hex(c: char) -> bool {
    ('0' <= c && c <= '9') || ('a' <= c && c <= 'f')
}

/// The positions of the four hyphens in the canonical text form.
pub open spec fn is_hyphen_position(i: int) -> bool {
    i == 8 || i == 13 || i == 18 || i == 23
}

/// Whether `c` may stand at position `i` of a version-4 identifier.
pub open spec fn is_v4_char_at(i: int, c: char) -> bool {
    if is_hyphen_position(i) {
        c == '-'
    } else if i == 14 {
        c == '4'
    } else if i == 19 {
        c == '8' || c == '9' || c == 'a' || c == 'b'
    } else {
        is_lower_hex(c)
    }
}

/// The canonical text form of a version-4 UUID: 36 characters in groups of
/// 8-4-4-4-12 lower-case hexadecimal digits separated by hyphens, where the
/// first digit of the third group is `4` (the version) and the first digit of
/// the fourth group is one of `8`, `9`, `a`, `b` (the variant).
pub open spec fn is_uuid_v4(s: Seq<char>) -> bool {
    &&& s.len() == 36
    &&& forall|i: int| 0 <= i < 36 ==> is_v4_char_at(i, #[trigger] s[i])
}

fn v4_char_at(i: usize, c: char) -> (ok: bool)
    ensures
        ok == is_v4_char_at(i as int, c),
{
    if i == 8 || i == 13 || i == 18 || i == 23 {
        c == '-'
    } else if i == 14 {
        c == '4'
    } else if i == 19 {
        c == '8' || c == '9' || c == 'a' || c == 'b'
    } else {
        ('0' <= c && c <= '9') || ('a' <= c && c <= 'f')
    }
}

/// Decides whether `s` is the canonical text form of a version-4 UUID.
pub fn is_valid_v4(s: &str) -> (ok: bool)
    ensures
        ok == is_uuid_v4(s@),
{
    if s.unicode_len() != 36 {
        return false;
    }
    let mut i: usize = 0;
    while i < 36
        invariant
            i <= 36,
            s@.len() == 36,
            forall|j: int| 0 <= j < i ==> is_v4_char_at(j, #[trigger] s@[j]),
        decreases 36 - i,
    {
        let c = s.get_char(i);
        if !v4_char_at(i, c) {
            return false;
        }
        i += 1;
    }
    true
}

/// Calls `uuid::Uuid::new_v4` and renders the result with its `Display` impl.
///
/// Trusted: whatever the random bits are, the text is the lower-case
/// hyphenated form with version digit `4` and a variant digit in `8..=b`.
/// Nothing is claimed about which identifier comes back, nor that two calls
/// differ. The call aborts if the operating system cannot supply randomness.
#[verifier::external_body]
pub(crate) fn random_v4() -> (id: String)
    ensures
        is_uuid_v4(id@),
{
    uuid::Uuid::new_v4().to_string()
}

} // verus!
