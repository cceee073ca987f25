//! Blog commands and answers of the application layer.
use vstd::prelude::*;
use crate::base::validation::{chars_within, finish, flag, lemma_flag_appended, note, outcome_is};

verus! {

/// A new version of a blog post.
#[derive(Debug)]
pub struct BlogCmd {
    pub title: String,
    pub body: String,
}

/// A title of 1 to 30 characters and a body of 1 to 50000.
pub open spec fn blog_violations(c: BlogCmd) -> Seq<Seq<char>> {
    flag(!(1 <= c.title@.len() <= 30), "title"@) + flag(!(1 <= c.body@.len() <= 50000), "body"@)
}

impl BlogCmd {
    pub fn validate(&self) -> (r: Result<(), Vec<&'static str>>)
        ensures
            outcome_is(r, blog_violations(*self)),
    {
        let mut bad: Vec<&'static str> = Vec::new();
        note(&mut bad, !chars_within(self.title.as_str(), 1, 30), "title");
        note(&mut bad, !chars_within(self.body.as_str(), 1, 50000), "body");
        finish(bad)
    }
}

/// A blog post as the service answers it.
#[derive(Debug)]
pub struct BlogDetail {
    pub title: String,
    pub body: String,
    pub state: String,
}

/// A blog command is refused for its title exactly when the title has no
/// character or more than 30, and for its body exactly when the body has
/// none or more than 50000; it is accepted when neither rule is broken.
pub proof fn law_blog_cmd_rules(c: BlogCmd)
    ensures
        blog_violations(c).contains("title"@) <==> !(1 <= c.title@.len() <= 30),
        blog_violations(c).contains("body"@) <==> !(1 <= c.body@.len() <= 50000),
        blog_violations(c).len() == 0 <==> (1 <= c.title@.len() <= 30 && 1 <= c.body@.len()
            <= 50000),
        forall|x: Seq<char>| #[trigger]
            blog_violations(c).contains(x) ==> x == "title"@ || x == "body"@,
{
    reveal_strlit("title");
    reveal_strlit("body");
    let t = !(1 <= c.title@.len() <= 30);
    let b = !(1 <= c.body@.len() <= 50000);
    lemma_flag_appended(Seq::empty(), t, "title"@);
    assert(Seq::<Seq<char>>::empty() + flag(t, "title"@) =~= flag(t, "title"@));
    lemma_flag_appended(flag(t, "title"@), b, "body"@);
    assert("title"@ != "body"@) by {
        assert("title"@.len() != "body"@.len());
    }
}

} // verus!
