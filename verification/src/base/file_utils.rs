//! File name helpers.
use vstd::prelude::*;

verus! {

/// What `std::path::Path::extension` gives for a path written as `path`:
/// the part of the last file name after its final `.`, if there is one.
pub uninterp spec fn path_extension(path: Seq<char>) -> Option<Seq<char>>;

/// Calls `std::path::Path::new(filename).extension()` and reads the result
/// back as text. Trusted: the result is `path_extension` of the input; its
/// documentation also says that the extension is the part after the final
/// `.` of the last component, so it holds no `.` and no `/`, and that a path
/// without any `.` has none.
#[verifier::external_body]
fn path_extension_of(filename: &str) -> (r: Option<&str>)
    ensures
        r matches Some(e) ==> path_extension(filename@) == Some(e@),
        r is None ==> path_extension(filename@) is None,
        r matches Some(e) ==> !e@.contains('.') && !e@.contains('/'),
        !filename@.contains('.') ==> r is None,
{
    match std::path::Path::new(filename).extension() {
        Some(ext) => ext.to_str(),
        None => None,
    }
}

/// The extension of `filename`, or the empty string when it has none.
pub fn get_extension(filename: &str) -> (r: &str)
    ensures
        path_extension(filename@) matches Some(e) ==> r@ == e,
        path_extension(filename@) is None ==> r@ == Seq::<char>::empty(),
        !r@.contains('.'),
        !r@.contains('/'),
        !filename@.contains('.') ==> r@.len() == 0,
{
    match path_extension_of(filename) {
        Some(e) => e,
        None => {
            let empty = "";
            proof {
                reveal_strlit("");
            }
            empty
        },
    }
}

} // verus!
