use starriver::application::article_service::found_article;
use starriver::application::blog_service::found_blog;
use starriver::application::category_service::{category_to_update, found_category, CategoryApplication};
use starriver::base::error::{ApiError, Cause, DbErrDetail, RepositoryError};
use starriver::base::error_mapping::map_db_error;

const ID: u128 = 0x0190_a1b2_c3d4_7e5f_8a9b_0c1d_2e3f_4a5b;

#[test]
fn identifiers_are_written_hyphenated() {
    let e = found_article::<u8>(None, 0).unwrap_err();
    assert_eq!(e.message, "article[00000000-0000-0000-0000-000000000000]not exist");
    let e = found_category::<u8>(None, u128::MAX).unwrap_err();
    assert_eq!(e.message, "category[ffffffff-ffff-ffff-ffff-ffffffffffff]not exist");
}

#[test]
fn missing_entities_are_named() {
    let e = found_category::<u8>(None, ID).unwrap_err();
    assert_eq!(e.cause, Cause::ClientBadRequest);
    assert_eq!(e.message, "category[0190a1b2-c3d4-7e5f-8a9b-0c1d2e3f4a5b]not exist");
    assert_eq!(found_category(Some(5u8), ID).unwrap(), 5);
    let e = found_article::<u8>(None, ID).unwrap_err();
    assert_eq!(e.message, "article[0190a1b2-c3d4-7e5f-8a9b-0c1d2e3f4a5b]not exist");
    let e = found_blog::<u8>(None, ID).unwrap_err();
    assert_eq!(e.message, "博客0190a1b2-c3d4-7e5f-8a9b-0c1d2e3f4a5b不存在");
    let e = category_to_update::<u8>(None).unwrap_err();
    assert_eq!(e.cause, Cause::ClientBadRequest);
    assert_eq!(e.message, "");
}

#[test]
fn api_error_constructors() {
    let e = ApiError::with_inner_error("boom");
    assert_eq!(e.cause, Cause::InnerError);
    assert_eq!(e.message, "boom");
    let e = ApiError::new(Cause::DbError, "db");
    assert_eq!(e.cause, Cause::DbError);
}

#[test]
fn database_errors_map_to_repository_errors() {
    match map_db_error(DbErrDetail::ConnectionAcquire("Connection pool timed out".to_string())) {
        RepositoryError::ConnectionFailed(m) => assert_eq!(m, "Connection pool timed out"),
        other => panic!("{:?}", other),
    }
    match map_db_error(DbErrDetail::TryIntoErr {
        from: "i64".to_string(),
        into: "u8".to_string(),
        source: "out of range".to_string(),
    }) {
        RepositoryError::Infrastructure(m) => assert_eq!(m, "from i64 to u8, source: out of range"),
        other => panic!("{:?}", other),
    }
    match map_db_error(DbErrDetail::RecordNotFound("article".to_string())) {
        RepositoryError::NotFound(m) => assert_eq!(m, "article"),
        other => panic!("{:?}", other),
    }
    match map_db_error(DbErrDetail::Json("x".to_string())) {
        RepositoryError::Infrastructure(m) => assert_eq!(m, "Json error"),
        other => panic!("{:?}", other),
    }
    match map_db_error(DbErrDetail::Exec("deadlock".to_string())) {
        RepositoryError::Infrastructure(m) => assert_eq!(m, "deadlock"),
        other => panic!("{:?}", other),
    }
    match map_db_error(DbErrDetail::RecordNotUpdated) {
        RepositoryError::Infrastructure(m) => assert_eq!(m, "RecordNotUpdated error"),
        other => panic!("{:?}", other),
    }
}

#[test]
fn category_application_keeps_its_parts() {
    let app = CategoryApplication::new("query", 7u32);
    assert_eq!(*app.query(), "query");
    assert_eq!(*app.repo(), 7);
}
