//! Article requests and answers.
use vstd::prelude::*;
use crate::application::db_state::ArticleStateDo;
use crate::base::validation::{lemma_flag_appended, chars_within, finish, flag, note, outcome_is};

verus! {

/// A page of the article list, optionally of one category and of published
/// articles only.
#[derive(Debug)]
pub struct PageQuery {
    pub page: u64,
    pub page_size: u64,
    pub category_id: Option<u128>,
    pub published_only: bool,
}

/// The fields of a page query that break its rules: the page lies in
/// `0..=10`, the page size in `1..=20`.
pub open spec fn page_query_violations(q: PageQuery) -> Seq<Seq<char>> {
    flag(!(0 <= q.page <= 10), "page"@) + flag(!(1 <= q.page_size <= 20), "page_size"@)
}

/// Which articles a page shows and where it starts.
#[derive(Debug)]
pub struct ArticlePage {
    /// The state the articles must have, if any.
    pub state: Option<ArticleStateDo>,
    /// The category the articles must belong to, if any.
    pub category_id: Option<u128>,
    pub offset: u64,
    pub limit: u64,
}

impl PageQuery {
    pub fn validate(&self) -> (r: Result<(), Vec<&'static str>>)
        ensures
            outcome_is(r, page_query_violations(*self)),
    {
        let mut bad: Vec<&'static str> = Vec::new();
        note(&mut bad, !(self.page <= 10), "page");
        note(&mut bad, !(1 <= self.page_size && self.page_size <= 20), "page_size");
        finish(bad)
    }

    /// The selection of a page: published articles only when asked, the
    /// category when given, skipping `page * page_size` articles and taking
    /// `page_size`.
    pub fn article_page(&self) -> (r: ArticlePage)
        requires
            self.page * self.page_size <= u64::MAX,
        ensures
            self.published_only ==> r.state == Some(ArticleStateDo::Released),
            !self.published_only ==> r.state is None,
            r.category_id == self.category_id,
            r.offset == self.page * self.page_size,
            r.limit == self.page_size,
    {
        ArticlePage {
            state: if self.published_only {
                Some(ArticleStateDo::Released)
            } else {
                None
            },
            category_id: self.category_id,
            offset: self.page * self.page_size,
            limit: self.page_size,
        }
    }
}

/// A valid page query never asks for more than 200 articles ahead.
pub proof fn law_valid_page_is_bounded(q: PageQuery)
    requires
        page_query_violations(q).len() == 0,
    ensures
        q.page * q.page_size <= 200,
        1 <= q.page_size <= 20,
{
    assert(q.page <= 10 && q.page_size <= 20) by {
        if !(q.page <= 10) {
            assert(page_query_violations(q).len() >= 1);
        }
        if !(1 <= q.page_size <= 20) {
            assert(page_query_violations(q).len() >= 1);
        }
    }
    assert(q.page * q.page_size <= 10 * 20) by (nonlinear_arith)
        requires
            q.page <= 10,
            q.page_size <= 20,
    ;
}

/// A new version of an article.
#[derive(Debug)]
pub struct UpdateArticleCmd {
    pub title: String,
    pub content: String,
    pub category_id: u128,
    pub attachment_ids: Vec<u128>,
    /// Whether to publish it.
    pub publish: bool,
}

/// The fields of an article update that break its rules: a title of 1 to 50
/// characters, a content of 1 to 50000, at most 10 attachments.
pub open spec fn update_article_violations(c: UpdateArticleCmd) -> Seq<Seq<char>> {
    flag(!(1 <= c.title@.len() <= 50), "title"@) + flag(
        !(1 <= c.content@.len() <= 50000),
        "content"@,
    ) + flag(!(c.attachment_ids@.len() <= 10), "attachment_ids"@)
}

impl UpdateArticleCmd {
    pub fn validate(&self) -> (r: Result<(), Vec<&'static str>>)
        ensures
            outcome_is(r, update_article_violations(*self)),
    {
        let mut bad: Vec<&'static str> = Vec::new();
        note(&mut bad, !chars_within(self.title.as_str(), 1, 50), "title");
        note(&mut bad, !chars_within(self.content.as_str(), 1, 50000), "content");
        note(&mut bad, !(self.attachment_ids.len() <= 10), "attachment_ids");
        finish(bad)
    }
}

/// An attachment of an article as the service answers it.
#[derive(Debug)]
pub struct ArticleAttachment {
    pub id: u128,
    pub file_name: String,
    pub url: String,
}

/// An attachment row of an article: its identifier and stored file name.
#[derive(Debug)]
pub struct ArticleAttachmentRow {
    pub id: u128,
    pub file_name: String,
}

/// An article update is refused for its title exactly when the title has no
/// character or more than 50, for its content exactly when it has none or
/// more than 50000, and for its attachments exactly when there are more than
/// 10; it is accepted when no rule is broken.
pub proof fn law_update_article_cmd_rules(c: UpdateArticleCmd)
    ensures
        update_article_violations(c).contains("title"@) <==> !(1 <= c.title@.len() <= 50),
        update_article_violations(c).contains("content"@) <==> !(1 <= c.content@.len() <= 50000),
        update_article_violations(c).contains("attachment_ids"@) <==> !(c.attachment_ids@.len() <= 10),
        update_article_violations(c).len() == 0 <==> (!(!(1 <= c.title@.len() <= 50)) && !(!(1 <= c.content@.len() <= 50000)) && !(!(c.attachment_ids@.len() <= 10))),
        forall|x: Seq<char>| #[trigger] update_article_violations(c).contains(x) ==> x == "title"@ || x == "content"@ || x == "attachment_ids"@,
{
    reveal_strlit("title");
    reveal_strlit("content");
    reveal_strlit("attachment_ids");
    let b0 = !(1 <= c.title@.len() <= 50);
    let b1 = !(1 <= c.content@.len() <= 50000);
    let b2 = !(c.attachment_ids@.len() <= 10);
    lemma_flag_appended(Seq::empty(), b0, "title"@);
    assert(Seq::<Seq<char>>::empty() + flag(b0, "title"@) =~= flag(b0, "title"@));
    lemma_flag_appended(flag(b0, "title"@), b1, "content"@);
    lemma_flag_appended(flag(b0, "title"@) + flag(b1, "content"@), b2, "attachment_ids"@);
    assert("title"@.len() != "content"@.len());
    assert("title"@.len() != "attachment_ids"@.len());
    assert("content"@.len() != "attachment_ids"@.len());
}

/// A page query is refused for its page exactly when the page is above 10,
/// and for its size exactly when the size is 0 or above 20.
pub proof fn law_page_query_rules(q: PageQuery)
    ensures
        page_query_violations(q).contains("page"@) <==> !(q.page <= 10),
        page_query_violations(q).contains("page_size"@) <==> !(1 <= q.page_size <= 20),
        page_query_violations(q).len() == 0 <==> (!(!(q.page <= 10)) && !(!(1 <= q.page_size <= 20))),
        forall|x: Seq<char>| #[trigger] page_query_violations(q).contains(x) ==> x == "page"@ || x == "page_size"@,
{
    reveal_strlit("page");
    reveal_strlit("page_size");
    let b0 = !(q.page <= 10);
    let b1 = !(1 <= q.page_size <= 20);
    lemma_flag_appended(Seq::empty(), b0, "page"@);
    assert(Seq::<Seq<char>>::empty() + flag(b0, "page"@) =~= flag(b0, "page"@));
    lemma_flag_appended(flag(b0, "page"@), b1, "page_size"@);
    assert("page"@.len() != "page_size"@.len());
}

} // verus!
