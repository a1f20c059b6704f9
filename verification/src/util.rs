use vstd::prelude::*;

verus! {

#[verifier::external_type_specification]
#[verifier::external_body]
pub struct ExPathBuf(std::path::PathBuf);

/// The text of a path, as `Path::to_str` gives it: `None` where the path is
/// not valid Unicode.
pub uninterp spec fn path_text(path: std::path::PathBuf) -> Option<Seq<char>>;

/// Calls `std::path::Path::to_str` on the path buffer. Its documentation says that it yields the
/// path as a `&str` when the path is valid Unicode and `None` otherwise; the
/// contract names that outcome `path_text` and claims nothing more of it.
#[verifier::external_body]
fn path_to_str(path: &std::path::PathBuf) -> (res: Option<&str>)
    ensures
        match res {
            Some(s) => path_text(*path) == Some(s@),
            None => path_text(*path) is None,
        },
{
    path.to_str()
}

/// The text of an optional string slice, or the empty string when there is none.
pub fn text_or_empty(text: Option<&str>) -> (res: String)
    ensures
        res@ == match text {
            Some(s) => s@,
            None => Seq::<char>::empty(),
        },
{
    match text {
        Some(val) => String::from_str(val),
        None => String::new(),
    }
}

/// Converts a path into a `String`; a path that is not valid Unicode becomes
/// the empty string.
pub fn path_buf_to_string(path: &std::path::PathBuf) -> (res: String)
    ensures
        res@ == match path_text(*path) {
            Some(s) => s,
            None => Seq::<char>::empty(),
        },
{
    text_or_empty(path_to_str(path))
}

} // verus!
