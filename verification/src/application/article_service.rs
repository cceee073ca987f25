//! The article use cases: refusals for missing articles, and the check of an
//! uploaded attachment against its declared extension.
use vstd::prelude::*;
use crate::base::error::{ApiError, Cause};
use crate::base::file_service::{inferred_type, recognise};
use crate::base::ids::{uuid_hyphenated, uuid_text};
use crate::base::text::{concat, str_eq};

verus! {

/// The message for an article that does not exist.
pub open spec fn missing_article_text(id: u128) -> Seq<char> {
    "article["@ + uuid_hyphenated(id) + "]not exist"@
}

/// The article found under `id`, or a refusal naming the identifier.
pub fn found_article<T>(found: Option<T>, id: u128) -> (r: Result<T, ApiError>)
    ensures
        found matches Some(a) ==> r == Ok::<T, ApiError>(a),
        found is None ==> (r matches Err(e) && e.cause == Cause::ClientBadRequest && e.message@
            == missing_article_text(id)),
{
    match found {
        Some(a) => Ok(a),
        None => {
            let m = concat("article[", uuid_text(id).as_str());
            let m = concat(m.as_str(), "]not exist");
            Err(ApiError::from_string(Cause::ClientBadRequest, m))
        },
    }
}

/// The outcome of checking uploaded bytes against the extension of their
/// file name: the recognised extension when both agree.
pub open spec fn upload_check(data: Seq<u8>, declared: Seq<char>) -> Result<Seq<char>, Seq<char>> {
    match inferred_type(data) {
        None => Err("错误的文件格式"@),
        Some((_, e)) => if e != declared {
            Err("文件格式与文件名不匹配"@)
        } else {
            Ok(e)
        },
    }
}

/// Checks uploaded bytes: their type must be recognised and have the
/// extension of the file name.
pub fn check_upload(data: &[u8], declared: &str) -> (r: Result<&'static str, ApiError>)
    ensures
        r matches Ok(e) ==> upload_check(data@, declared@) == Ok::<Seq<char>, Seq<char>>(e@),
        r matches Err(err) ==> err.cause == Cause::ClientBadRequest && upload_check(
            data@,
            declared@,
        ) == Err::<Seq<char>, Seq<char>>(err.message@),
{
    match recognise(data) {
        None => Err(ApiError::with_bad_request("错误的文件格式")),
        Some((_, e)) => {
            if !str_eq(e, declared) {
                Err(ApiError::with_bad_request("文件格式与文件名不匹配"))
            } else {
                Ok(e)
            }
        },
    }
}

/// The answer to an upload checked whole: refused as of an unknown format
/// when no type is recognised, refused as not matching its name when the
/// recognised extension differs from the declared one, and otherwise
/// accepted with that extension.
pub proof fn law_upload_check(data: Seq<u8>, declared: Seq<char>)
    ensures
        inferred_type(data) is None ==> upload_check(data, declared) == Err::<Seq<char>, Seq<char>>(
            "错误的文件格式"@,
        ),
        inferred_type(data) matches Some((k, e)) && e != declared ==> upload_check(data, declared)
            == Err::<Seq<char>, Seq<char>>("文件格式与文件名不匹配"@),
        inferred_type(data) matches Some((k, e)) && e == declared ==> upload_check(data, declared)
            == Ok::<Seq<char>, Seq<char>>(declared),
{
}

} // verus!
