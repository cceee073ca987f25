//! Checks that incoming commands run on their fields.
use vstd::prelude::*;
use validator::ValidateEmail;

verus! {

/// Whether `validator` takes `s` for an e-mail address (the HTML form of an
/// address: a local part and a domain or an address literal, joined by `@`).
pub uninterp spec fn email_valid(s: Seq<char>) -> bool;

/// Calls `validator::ValidateEmail::validate_email` on `s`. Trusted: the
/// result is `email_valid` of the text; the crate refuses an empty text and
/// one without `@` before it looks any further.
#[verifier::external_body]
fn validate_email(s: &str) -> (r: bool)
    ensures
        r == email_valid(s@),
        r ==> s@.len() > 0 && s@.contains('@'),
{
    s.validate_email()
}

/// Whether `s` is an e-mail address.
pub fn is_email(s: &str) -> (r: bool)
    ensures
        r == email_valid(s@),
        r ==> s@.len() > 0 && s@.contains('@'),
{
    validate_email(s)
}

/// Whether the number of characters of `s` lies within `min..=max`.
pub fn chars_within(s: &str, min: usize, max: usize) -> (r: bool)
    ensures
        r == (min <= s@.len() <= max),
{
    let n = s.unicode_len();
    min <= n && n <= max
}

/// `[name]` when `bad`, nothing otherwise.
pub open spec fn flag(bad: bool, name: Seq<char>) -> Seq<Seq<char>> {
    if bad {
        seq![name]
    } else {
        seq![]
    }
}

/// The names of a list of fields.
pub open spec fn names(v: Seq<&'static str>) -> Seq<Seq<char>> {
    v.map_values(|s: &'static str| s@)
}

/// The outcome of a validation whose failing fields are `bad`.
pub open spec fn outcome_is(r: Result<(), Vec<&'static str>>, bad: Seq<Seq<char>>) -> bool {
    &&& r is Ok <==> bad.len() == 0
    &&& r matches Err(v) ==> names(v@) == bad
}

/// Adds `name` to `bad` when `is_bad`.
pub fn note(bad: &mut Vec<&'static str>, is_bad: bool, name: &'static str)
    ensures
        names(final(bad)@) == names(old(bad)@) + flag(is_bad, name@),
{
    let ghost before = bad@;
    if is_bad {
        bad.push(name);
        assert(names(bad@) =~= names(before) + seq![name@]);
    } else {
        assert(names(bad@) =~= names(before) + Seq::<Seq<char>>::empty());
    }
}

/// The outcome for the failing fields gathered in `bad`.
pub fn finish(bad: Vec<&'static str>) -> (r: Result<(), Vec<&'static str>>)
    ensures
        outcome_is(r, names(bad@)),
{
    if bad.len() == 0 {
        Ok(())
    } else {
        assert(names(bad@).len() == bad@.len());
        Err(bad)
    }
}

/// Appending the flag of one field to a list of named violations: the field
/// is named exactly when its rule is broken, and nothing else is added.
pub proof fn lemma_flag_appended(s: Seq<Seq<char>>, bad: bool, name: Seq<char>)
    ensures
        forall|x: Seq<char>|
            #![trigger (s + flag(bad, name)).contains(x)]
            (s + flag(bad, name)).contains(x) <==> (s.contains(x) || (bad && x == name)),
        (s + flag(bad, name)).len() == s.len() + (if bad { 1int } else { 0int }),
{
    let t = s + flag(bad, name);
    assert forall|x: Seq<char>| t.contains(x) <==> (s.contains(x) || (bad && x == name)) by {
        if s.contains(x) {
            let i = choose|i: int| 0 <= i < s.len() && s[i] == x;
            assert(t[i] == x);
        }
        if bad && x == name {
            assert(t[s.len() as int] == x);
        }
        if t.contains(x) {
            let i = choose|i: int| 0 <= i < t.len() && t[i] == x;
            if i < s.len() {
                assert(s[i] == x);
            }
        }
    }
}

/// The outcome of a validation reports exactly the violations: it succeeds
/// when there are none, and otherwise lists each of them, in order.
pub proof fn law_outcome_reports_violations(r: Result<(), Vec<&'static str>>, bad: Seq<Seq<char>>)
    requires
        outcome_is(r, bad),
    ensures
        r is Ok <==> bad.len() == 0,
        r matches Err(v) ==> v@.len() == bad.len() && forall|i: int|
            0 <= i < bad.len() ==> #[trigger] v@[i]@ == bad[i],
{
    if let Err(v) = r {
        assert forall|i: int| 0 <= i < bad.len() implies #[trigger] v@[i]@ == bad[i] by {
            assert(names(v@)[i] == v@[i]@);
        }
    }
}

} // verus!
