//! The parts of a file path that resolution and launching read, through
//! `std::path::Path`. Path syntax (which characters separate components,
//! what makes a path absolute) is that of the platform the crate is built
//! for; on a given platform each result depends on the path text alone.

use vstd::prelude::*;

verus! {

/// The final component of a path, as `std::path::Path::file_name` gives it.
pub uninterp spec fn path_file_name(path: Seq<char>) -> Option<Seq<char>>;

/// The extension of a path's final component, as
/// `std::path::Path::extension` gives it.
pub uninterp spec fn path_extension(path: Seq<char>) -> Option<Seq<char>>;

/// Whether a path is absolute, as `std::path::Path::is_absolute` decides it.
pub uninterp spec fn path_is_absolute(path: Seq<char>) -> bool;

/// Relies on `std::path::Path::file_name`: the final component of the path,
/// or none when the path ends in `..`, is a root, or is empty.
#[verifier::external_body]
pub(crate) fn file_name_of(path: &str) -> (r: Option<String>)
    ensures
        match r {
            Some(s) => path_file_name(path@) == Some(s@),
            None => path_file_name(path@) is None,
        },
{
    std::path::Path::new(path).file_name().and_then(|n| n.to_str()).map(|s| s.to_string())
}

/// Relies on `std::path::Path::extension`: the text after the last `.` of
/// the final component, or none when there is no such dot.
#[verifier::external_body]
pub(crate) fn extension_of(path: &str) -> (r: Option<String>)
    ensures
        match r {
            Some(s) => path_extension(path@) == Some(s@),
            None => path_extension(path@) is None,
        },
{
    std::path::Path::new(path).extension().and_then(|e| e.to_str()).map(|s| s.to_string())
}

/// Relies on `std::path::Path::is_absolute`: whether the path is
/// independent of the current directory.
#[verifier::external_body]
pub(crate) fn is_absolute(path: &str) -> (r: bool)
    ensures
        r == path_is_absolute(path@),
{
    std::path::Path::new(path).is_absolute()
}

} // verus!
