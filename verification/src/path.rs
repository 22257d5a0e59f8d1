//! Paths, which need not be Unicode.

use std::path::PathBuf;

use vstd::prelude::*;

verus! {

/// The path of std.
#[verifier::external_type_specification]
#[verifier::external_body]
pub struct ExPathBuf(std::path::PathBuf);

/// The bytes of a path, in the encoding of `as_encoded_bytes` of std: whatever is Unicode stands
/// there as UTF-8.
pub uninterp spec fn encoded(path: std::path::PathBuf) -> Seq<u8>;

/// The bytes of a path, if there is one.
pub open spec fn encoded_option(path: Option<PathBuf>) -> Option<Seq<u8>> {
    match path {
        Some(path) => Some(encoded(path)),
        None => None,
    }
}

/// The bytes of each of the paths.
pub open spec fn encoded_all(paths: Seq<PathBuf>) -> Seq<Seq<u8>> {
    paths.map_values(|path: PathBuf| encoded(path))
}

/// The text is how a path is shown. One that is Unicode is shown as it is.
pub open spec fn is_shown(path: PathBuf, shown: Seq<char>) -> bool {
    vstd::utf8::valid_utf8(encoded(path)) ==> shown == vstd::utf8::decode_utf8(encoded(path))
}

/// Calls `PathBuf::from` for a text: the path that the text spells.
#[verifier::external_body]
pub(crate) fn path_of(text: &str) -> (path: PathBuf)
    ensures
        encoded(path) == vstd::utf8::encode_utf8(text@),
{
    PathBuf::from(text)
}

/// Calls `PathBuf::clone`: the same path again.
#[verifier::external_body]
pub(crate) fn copy_path(path: &PathBuf) -> (copy: PathBuf)
    ensures
        encoded(copy) == encoded(*path),
{
    path.clone()
}

/// Calls `Path::display`: the path as a text. What stands in place of something that is not
/// Unicode depends on the platform, and is not said.
#[verifier::external_body]
pub(crate) fn show_path(path: &PathBuf) -> (shown: String)
    ensures
        is_shown(*path, shown@),
{
    format!("{}", path.display())
}

/// The same path again, if there is one.
pub fn copy_optional_path(path: &Option<PathBuf>) -> (copy: Option<PathBuf>)
    ensures
        encoded_option(copy) == encoded_option(*path),
{
    match path {
        Some(path) => Some(copy_path(path)),
        None => None,
    }
}

} // verus!
