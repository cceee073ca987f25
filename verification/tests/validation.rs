use starriver::application::dto::article_dto::ArticleCmd;
use starriver::application::dto::blog_dto::BlogCmd;
use starriver::application::dto::category_dto::CreateOrUpdateCategoryCmd;
use starriver::application::dto::user_dto::{
    validate_password, validate_username, EmailVerifyCmd, UserCmd,
};
use starriver::base::dto::article_dto::{PageQuery, UpdateArticleCmd};
use starriver::base::dto::category_dto::CreateOrUpdateCategoryCmd as BaseCategoryCmd;
use starriver::application::db_state::ArticleStateDo;

fn page(page: u64, page_size: u64) -> PageQuery {
    PageQuery { page, page_size, category_id: None, published_only: false }
}

#[test]
fn page_query_bounds() {
    assert!(page(0, 1).validate().is_ok());
    assert!(page(10, 20).validate().is_ok());
    assert_eq!(page(11, 20).validate().unwrap_err(), vec!["page"]);
    assert_eq!(page(3, 0).validate().unwrap_err(), vec!["page_size"]);
    assert_eq!(page(12, 21).validate().unwrap_err(), vec!["page", "page_size"]);
}

#[test]
fn article_page_selection() {
    let q = PageQuery { page: 2, page_size: 15, category_id: Some(8), published_only: true };
    let p = q.article_page();
    assert_eq!(p.offset, 30);
    assert_eq!(p.limit, 15);
    assert_eq!(p.state, Some(ArticleStateDo::Released));
    assert_eq!(p.category_id, Some(8));
    let p = page(0, 5).article_page();
    assert_eq!(p.offset, 0);
    assert_eq!(p.state, None);
}

#[test]
fn update_article_rules() {
    let ok = UpdateArticleCmd {
        title: "标题".to_string(),
        content: "c".to_string(),
        category_id: 1,
        attachment_ids: vec![1, 2],
        publish: true,
    };
    assert!(ok.validate().is_ok());
    let bad = UpdateArticleCmd {
        title: "x".repeat(51),
        content: String::new(),
        category_id: 1,
        attachment_ids: (0..11).collect(),
        publish: false,
    };
    assert_eq!(bad.validate().unwrap_err(), vec!["title", "content", "attachment_ids"]);
    let fifty_wide = UpdateArticleCmd {
        title: "字".repeat(50),
        content: "c".to_string(),
        category_id: 1,
        attachment_ids: vec![],
        publish: false,
    };
    assert!(fifty_wide.validate().is_ok());
}

#[test]
fn article_and_blog_commands() {
    let a = ArticleCmd {
        title: "x".repeat(31),
        content: "c".to_string(),
        attachment_ids: vec![],
        publish: false,
    };
    assert_eq!(a.validate().unwrap_err(), vec!["title"]);
    let b = BlogCmd { title: "t".to_string(), body: "b".to_string() };
    assert!(b.validate().is_ok());
    let b = BlogCmd { title: String::new(), body: String::new() };
    assert_eq!(b.validate().unwrap_err(), vec!["title", "body"]);
}

#[test]
fn category_names() {
    assert!(CreateOrUpdateCategoryCmd { name: "Rust".to_string() }.validate().is_ok());
    assert_eq!(
        CreateOrUpdateCategoryCmd { name: String::new() }.validate().unwrap_err(),
        vec!["name"]
    );
    assert!(BaseCategoryCmd { name: "x".repeat(10) }.validate().is_ok());
    assert!(BaseCategoryCmd { name: "x".repeat(11) }.validate().is_err());
}

#[test]
fn user_registration_rules() {
    let c = UserCmd {
        username: "alice".to_string(),
        password: "pw".to_string(),
        email: "alice@example.com".to_string(),
        email_code: "123456".to_string(),
    };
    assert!(c.validate(true, true).is_ok());
    assert_eq!(c.validate(false, true).unwrap_err(), vec!["username"]);
    let c = UserCmd {
        username: "alice".to_string(),
        password: "pw".to_string(),
        email: "not-an-address".to_string(),
        email_code: "12345".to_string(),
    };
    assert_eq!(c.validate(true, false).unwrap_err(), vec!["password", "email", "email_code"]);
    assert!(EmailVerifyCmd { email: "bob@example.org".to_string() }.validate().is_ok());
    assert!(EmailVerifyCmd { email: "@".to_string() }.validate().is_err());
    assert_eq!(validate_username(false).unwrap_err(), "username does not match pattern");
    assert_eq!(validate_password(false).unwrap_err(), "password does not match pattern");
    assert!(validate_password(true).is_ok());
}

#[test]
fn largest_valid_page_starts_at_two_hundred() {
    let q = page(10, 20);
    assert!(q.validate().is_ok());
    assert_eq!(q.article_page().offset, 200);
}
