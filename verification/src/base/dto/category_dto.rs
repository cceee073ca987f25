//! Category requests.
use vstd::prelude::*;
use crate::base::validation::{lemma_flag_appended, chars_within, finish, flag, note, outcome_is};

verus! {

/// The name of a new or renamed category.
#[derive(Debug)]
pub struct CreateOrUpdateCategoryCmd {
    pub name: String,
}

/// A name has 1 to 10 characters.
pub open spec fn category_violations(c: CreateOrUpdateCategoryCmd) -> Seq<Seq<char>> {
    flag(!(1 <= c.name@.len() <= 10), "name"@)
}

impl CreateOrUpdateCategoryCmd {
    pub fn validate(&self) -> (r: Result<(), Vec<&'static str>>)
        ensures
            outcome_is(r, category_violations(*self)),
    {
        let mut bad: Vec<&'static str> = Vec::new();
        note(&mut bad, !chars_within(self.name.as_str(), 1, 10), "name");
        finish(bad)
    }
}

/// A category name is refused exactly when it has no character or more
/// than 10.
pub proof fn law_category_cmd_rules(c: CreateOrUpdateCategoryCmd)
    ensures
        category_violations(c).contains("name"@) <==> !(1 <= c.name@.len() <= 10),
        category_violations(c).len() == 0 <==> (!(!(1 <= c.name@.len() <= 10))),
        forall|x: Seq<char>| #[trigger] category_violations(c).contains(x) ==> x == "name"@,
{
    reveal_strlit("name");
    let b0 = !(1 <= c.name@.len() <= 10);
    lemma_flag_appended(Seq::empty(), b0, "name"@);
    assert(Seq::<Seq<char>>::empty() + flag(b0, "name"@) =~= flag(b0, "name"@));
}

} // verus!
