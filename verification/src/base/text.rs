//! Small string operations with contracts over the character view.
use vstd::prelude::*;

verus! {

/// Whether `prefix` is a prefix of `s`, over characters.
pub open spec fn is_prefix(prefix: Seq<char>, s: Seq<char>) -> bool {
    prefix.len() <= s.len() && s.subrange(0, prefix.len() as int) == prefix
}

/// Compares two strings by their characters.
pub fn str_eq(a: &str, b: &str) -> (r: bool)
    ensures
        r == (a@ == b@),
{
    let x = a.to_owned();
    let y = b.to_owned();
    x == y
}

/// Whether `s` starts with `prefix`.
pub fn starts_with(s: &str, prefix: &str) -> (r: bool)
    ensures
        r == is_prefix(prefix@, s@),
{
    let n = s.unicode_len();
    let m = prefix.unicode_len();
    if m > n {
        return false;
    }
    let head = s.substring_char(0, m);
    str_eq(head, prefix)
}

/// The concatenation of `a` and `b`.
pub fn concat(a: &str, b: &str) -> (r: String)
    ensures
        r@ == a@ + b@,
{
    let mut s = a.to_owned();
    s.append(b);
    s
}

/// A text begins with `prefix` when it is `prefix` followed by anything, and
/// does not when it is shorter or differs from `prefix` at some position.
pub proof fn law_prefix(prefix: Seq<char>, rest: Seq<char>, s: Seq<char>, i: int)
    ensures
        is_prefix(prefix, prefix + rest),
        s.len() < prefix.len() ==> !is_prefix(prefix, s),
        0 <= i < prefix.len() && i < s.len() && s[i] != prefix[i] ==> !is_prefix(prefix, s),
{
    assert((prefix + rest).subrange(0, prefix.len() as int) =~= prefix);
    if 0 <= i < prefix.len() && i < s.len() && s[i] != prefix[i] && prefix.len() <= s.len() {
        assert(s.subrange(0, prefix.len() as int)[i] == s[i]);
    }
}

} // verus!
