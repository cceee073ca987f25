//! Article commands of the application layer.
use vstd::prelude::*;
use crate::base::validation::{lemma_flag_appended, chars_within, finish, flag, note, outcome_is};

verus! {

/// A new version of an article.
#[derive(Debug)]
pub struct ArticleCmd {
    pub title: String,
    pub content: String,
    pub attachment_ids: Vec<u128>,
    /// Whether to publish it.
    pub publish: bool,
}

/// A title of 1 to 30 characters, a content of 1 to 50000, at most 10
/// attachments.
pub open spec fn article_violations(c: ArticleCmd) -> Seq<Seq<char>> {
    flag(!(1 <= c.title@.len() <= 30), "title"@) + flag(
        !(1 <= c.content@.len() <= 50000),
        "content"@,
    ) + flag(!(c.attachment_ids@.len() <= 10), "attachment_ids"@)
}

impl ArticleCmd {
    pub fn validate(&self) -> (r: Result<(), Vec<&'static str>>)
        ensures
            outcome_is(r, article_violations(*self)),
    {
        let mut bad: Vec<&'static str> = Vec::new();
        note(&mut bad, !chars_within(self.title.as_str(), 1, 30), "title");
        note(&mut bad, !chars_within(self.content.as_str(), 1, 50000), "content");
        note(&mut bad, !(self.attachment_ids.len() <= 10), "attachment_ids");
        finish(bad)
    }
}

/// An uploaded attachment: the extension of its file name and its bytes.
#[derive(Debug)]
pub struct ArticleAttachmentCmd {
    pub extension: String,
    pub data: Vec<u8>,
}

/// An article as the service answers it.
#[derive(Debug)]
pub struct ArticleDetail {
    pub id: u128,
    pub title: String,
    pub content: String,
    pub state: String,
}

/// An article command is refused for its title exactly when the title has
/// no character or more than 30, for its content exactly when it has none
/// or more than 50000, and for its attachments exactly when there are more
/// than 10; it is accepted when no rule is broken.
pub proof fn law_article_cmd_rules(c: ArticleCmd)
    ensures
        article_violations(c).contains("title"@) <==> !(1 <= c.title@.len() <= 30),
        article_violations(c).contains("content"@) <==> !(1 <= c.content@.len() <= 50000),
        article_violations(c).contains("attachment_ids"@) <==> !(c.attachment_ids@.len() <= 10),
        article_violations(c).len() == 0 <==> (!(!(1 <= c.title@.len() <= 30)) && !(!(1 <= c.content@.len() <= 50000)) && !(!(c.attachment_ids@.len() <= 10))),
        forall|x: Seq<char>| #[trigger] article_violations(c).contains(x) ==> x == "title"@ || x == "content"@ || x == "attachment_ids"@,
{
    reveal_strlit("title");
    reveal_strlit("content");
    reveal_strlit("attachment_ids");
    let b0 = !(1 <= c.title@.len() <= 30);
    let b1 = !(1 <= c.content@.len() <= 50000);
    let b2 = !(c.attachment_ids@.len() <= 10);
    lemma_flag_appended(Seq::empty(), b0, "title"@);
    assert(Seq::<Seq<char>>::empty() + flag(b0, "title"@) =~= flag(b0, "title"@));
    lemma_flag_appended(flag(b0, "title"@), b1, "content"@);
    lemma_flag_appended(flag(b0, "title"@) + flag(b1, "content"@), b2, "attachment_ids"@);
    assert("title"@.len() != "content"@.len());
    assert("title"@.len() != "attachment_ids"@.len());
    assert("content"@.len() != "attachment_ids"@.len());
}

} // verus!
