//! Format checks on secret names, namespaces and data keys.
//!
//! A name or namespace must be a DNS-1123-style label: lowercase
//! alphanumerics and hyphens, 1 to 63 characters, starting with an
//! alphanumeric, and ending with one when the length is 63. A data key
//! must be one or more characters drawn from letters, digits, `.`, `_`
//! and `-`.

use vstd::prelude::*;

verus! {

/// A lowercase ASCII letter or an ASCII digit.
pub open spec fn is_lower_alnum(c: char) -> bool {
    ('a' as u32 <= c as u32 && c as u32 <= 'z' as u32) || ('0' as u32 <= c as u32 && c as u32
        <= '9' as u32)
}

/// A character admitted anywhere in a label: lowercase alphanumeric or hyphen.
pub open spec fn is_label_char(c: char) -> bool {
    is_lower_alnum(c) || c == '-'
}

/// The name/namespace rule: a label of 1 to 63 characters over lowercase
/// alphanumerics and hyphens, whose first character is alphanumeric and
/// whose last character is alphanumeric when the label is 63 characters
/// long.
pub open spec fn is_rfc1123_label(s: Seq<char>) -> bool {
    &&& 1 <= s.len() <= 63
    &&& (forall|i: int| 0 <= i < s.len() ==> is_label_char(#[trigger] s[i]))
    &&& is_lower_alnum(s[0])
    &&& (s.len() <= 62 || is_lower_alnum(s[s.len() - 1]))
}

/// A character admitted in a data key: an ASCII letter of either case, a
/// digit, `.`, `_` or `-`.
pub open spec fn is_data_key_char(c: char) -> bool {
    ||| ('a' as u32 <= c as u32 && c as u32 <= 'z' as u32)
    ||| ('A' as u32 <= c as u32 && c as u32 <= 'Z' as u32)
    ||| ('0' as u32 <= c as u32 && c as u32 <= '9' as u32)
    ||| c == '.'
    ||| c == '_'
    ||| c == '-'
}

/// The data-key rule: non-empty, every character a data-key character.
pub open spec fn is_data_key(s: Seq<char>) -> bool {
    &&& s.len() >= 1
    &&& (forall|i: int| 0 <= i < s.len() ==> is_data_key_char(#[trigger] s[i]))
}

/// The name/namespace rule, characterized: a string satisfies it exactly
/// when it is 1 to 63 characters of lowercase letters, digits and hyphens
/// and neither starts nor ends with a hyphen.
///
/// The rule itself additionally admits labels of 2 to 62 characters that
/// end with a hyphen; those inputs are excluded here, and on no others is
/// anything assumed.
pub proof fn lemma_label_characterization(s: Seq<char>)
    requires
        !(2 <= s.len() <= 62 && (forall|i: int| 0 <= i < s.len() ==> is_label_char(#[trigger] s[i]))
            && is_lower_alnum(s[0]) && s[s.len() - 1] == '-'),
    ensures
        is_rfc1123_label(s) <==> (1 <= s.len() <= 63 && (forall|i: int|
            0 <= i < s.len() ==> is_label_char(#[trigger] s[i])) && s[0] != '-' && s[s.len() - 1]
            != '-'),
{
}

fn lower_alnum(c: char) -> (r: bool)
    ensures
        r == is_lower_alnum(c),
{
    let u = c as u32;
    ('a' as u32 <= u && u <= 'z' as u32) || ('0' as u32 <= u && u <= '9' as u32)
}

fn label_char(c: char) -> (r: bool)
    ensures
        r == is_label_char(c),
{
    lower_alnum(c) || c == '-'
}

fn data_key_char(c: char) -> (r: bool)
    ensures
        r == is_data_key_char(c),
{
    let u = c as u32;
    ('a' as u32 <= u && u <= 'z' as u32) || ('A' as u32 <= u && u <= 'Z' as u32) || ('0' as u32 <= u
        && u <= '9' as u32) || c == '.' || c == '_' || c == '-'
}

/// Decides whether `s` satisfies the name/namespace rule.
pub fn is_rfc1123_compliant(s: &str) -> (r: bool)
    ensures
        r == is_rfc1123_label(s@),
{
    let n = s.unicode_len();
    if n < 1 || n > 63 {
        return false;
    }
    if !lower_alnum(s.get_char(0)) {
        return false;
    }
    if n == 63 && !lower_alnum(s.get_char(62)) {
        return false;
    }
    let mut i: usize = 0;
    while i < n
        invariant
            n == s@.len(),
            0 <= i <= n,
            forall|j: int| 0 <= j < i ==> is_label_char(#[trigger] s@[j]),
        decreases n - i,
    {
        if !label_char(s.get_char(i)) {
            return false;
        }
        i += 1;
    }
    true
}

/// Decides whether `k` satisfies the data-key rule.
pub fn is_valid_data_key(k: &str) -> (r: bool)
    ensures
        r == is_data_key(k@),
{
    let n = k.unicode_len();
    if n == 0 {
        return false;
    }
    let mut i: usize = 0;
    while i < n
        invariant
            n == k@.len(),
            0 <= i <= n,
            forall|j: int| 0 <= j < i ==> is_data_key_char(#[trigger] k@[j]),
        decreases n - i,
    {
        if !data_key_char(k.get_char(i)) {
            return false;
        }
        i += 1;
    }
    true
}

} // verus!
