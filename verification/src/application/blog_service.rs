//! The blog use cases: refusals for missing posts, and where uploaded
//! attachments are stored and served.
use vstd::prelude::*;
use crate::base::error::{ApiError, Cause};
use crate::base::ids::{uuid_hyphenated, uuid_text};
use crate::base::text::concat;

verus! {

/// The message for a blog post that does not exist.
pub open spec fn missing_blog_text(id: u128) -> Seq<char> {
    "博客"@ + uuid_hyphenated(id) + "不存在"@
}

/// The post found under `id`, or a refusal naming the identifier.
pub fn found_blog<T>(found: Option<T>, id: u128) -> (r: Result<T, ApiError>)
    ensures
        found matches Some(b) ==> r == Ok::<T, ApiError>(b),
        found is None ==> (r matches Err(e) && e.cause == Cause::ClientBadRequest && e.message@
            == missing_blog_text(id)),
{
    match found {
        Some(b) => Ok(b),
        None => {
            let m = concat("博客", uuid_text(id).as_str());
            let m = concat(m.as_str(), "不存在");
            Err(ApiError::from_string(Cause::ClientBadRequest, m))
        },
    }
}

/// The directory of uploads: `<static base>/<uploads>`.
pub fn upload_dir(static_base_dir: &str, relative_dir: &str) -> (r: String)
    ensures
        r@ == static_base_dir@ + "/"@ + relative_dir@,
{
    let d = concat(static_base_dir, "/");
    concat(d.as_str(), relative_dir)
}

/// The address of an uploaded attachment: `<uploads>/<file name>`.
pub fn attachment_url(relative_dir: &str, file_name: &str) -> (r: String)
    ensures
        r@ == relative_dir@ + "/"@ + file_name@,
{
    let u = concat(relative_dir, "/");
    concat(u.as_str(), file_name)
}

} // verus!
