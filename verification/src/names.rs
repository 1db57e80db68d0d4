//! Package-name validation and ASCII lower-casing.
//!
//! A package name doubles as a directory name and as an address
//! identifier in the generated manifest, so it is restricted to a
//! non-empty ASCII identifier.

use vstd::prelude::*;
use vstd::string::StrSliceExecFns;

verus! {

/// An ASCII lower-case letter.
pub open spec fn is_lower_letter(c: char) -> bool {
    'a' <= c <= 'z'
}

/// An ASCII upper-case letter.
pub open spec fn is_upper_letter(c: char) -> bool {
    'A' <= c <= 'Z'
}

/// An ASCII decimal digit.
pub open spec fn is_digit_char(c: char) -> bool {
    '0' <= c <= '9'
}

/// A character allowed at the start of a package name: an ASCII letter
/// or an underscore.
pub open spec fn is_name_start_char(c: char) -> bool {
    is_lower_letter(c) || is_upper_letter(c) || c == '_'
}

/// A character allowed anywhere in a package name: an ASCII letter, a
/// decimal digit, or an underscore.
pub open spec fn is_name_char(c: char) -> bool {
    is_name_start_char(c) || is_digit_char(c)
}

/// A package name usable both as a directory name and as an address
/// identifier: non-empty, starting with a letter or an underscore, and
/// containing only ASCII letters, digits and underscores.
pub open spec fn valid_package_name(s: Seq<char>) -> bool {
    &&& s.len() > 0
    &&& is_name_start_char(s[0])
    &&& forall|i: int| 0 <= i < s.len() ==> is_name_char(#[trigger] s[i])
}

/// Decides `is_name_start_char`.
pub fn char_is_name_start(c: char) -> (b: bool)
    ensures
        b == is_name_start_char(c),
{
    ('a' <= c && c <= 'z') || ('A' <= c && c <= 'Z') || c == '_'
}

/// Decides `is_name_char`.
pub fn char_is_name(c: char) -> (b: bool)
    ensures
        b == is_name_char(c),
{
    char_is_name_start(c) || ('0' <= c && c <= '9')
}

/// Decides `valid_package_name` for a string slice.
pub fn is_valid_package_name(s: &str) -> (b: bool)
    ensures
        b == valid_package_name(s@),
{
    let n: usize = s.unicode_len();
    if n == 0 {
        return false;
    }
    if !char_is_name_start(s.get_char(0)) {
        return false;
    }
    let mut i: usize = 1;
    while i < n
        invariant
            1 <= i <= n,
            n == s@.len(),
            is_name_start_char(s@[0]),
            forall|j: int| 0 <= j < i ==> is_name_char(#[trigger] s@[j]),
        decreases n - i,
    {
        if !char_is_name(s.get_char(i)) {
            return false;
        }
        i += 1;
    }
    true
}

/// The ASCII lower-casing of one character: an upper-case letter maps
/// to the corresponding lower-case letter, everything else is kept.
pub open spec fn lower_char(c: char) -> char {
    if is_upper_letter(c) {
        ((c as u32) + 32) as char
    } else {
        c
    }
}

/// The ASCII lower-casing of a character sequence.
pub open spec fn lower_seq(s: Seq<char>) -> Seq<char> {
    s.map_values(|c: char| lower_char(c))
}

/// Relies on `str::to_ascii_lowercase`: ASCII upper-case letters are
/// replaced by their lower-case counterparts and every other character
/// is left unchanged.
#[verifier::external_body]
pub(crate) fn ascii_lowercase(s: &str) -> (r: String)
    ensures
        r@ == lower_seq(s@),
{
    s.to_ascii_lowercase()
}

/// Lower-casing a character keeps it a name character, maps a name
/// start character to a name start character, and leaves no upper-case
/// letter behind.
pub proof fn lemma_lower_char_kind(c: char)
    ensures
        is_name_char(c) ==> is_name_char(lower_char(c)),
        is_name_start_char(c) ==> is_name_start_char(lower_char(c)),
        is_name_char(c) ==> !is_upper_letter(lower_char(c)),
{
    if is_upper_letter(c) {
        assert('a' <= lower_char(c) <= 'z');
    }
}

/// Lower-casing preserves validity of a package name, so the lowered
/// name can itself serve as a directory name; the lowered name has the
/// same length and holds no upper-case letter.
pub proof fn lemma_lower_preserves_valid(s: Seq<char>)
    requires
        valid_package_name(s),
    ensures
        valid_package_name(lower_seq(s)),
        lower_seq(s).len() == s.len(),
        forall|i: int| 0 <= i < s.len() ==> !is_upper_letter(#[trigger] lower_seq(s)[i]),
{
    assert(lower_seq(s)[0] == lower_char(s[0]));
    lemma_lower_char_kind(s[0]);
    assert forall|i: int| 0 <= i < s.len() implies is_name_char(#[trigger] lower_seq(s)[i])
        && !is_upper_letter(lower_seq(s)[i]) by {
        lemma_lower_char_kind(s[i]);
    }
}

} // verus!
