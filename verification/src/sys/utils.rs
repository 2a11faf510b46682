//! Path and board-name helpers.
use crate::text::{chars_of, seq_trim, str_lowercase, string_of, to_lowercase, trim};
use vstd::prelude::*;

verus! {

/// The parent directory of a path, as `std::path::Path::parent` gives it
/// (`None` for a path that ends in a root or prefix, or is empty).
pub uninterp spec fn path_parent(p: Seq<char>) -> Option<Seq<char>>;

/// `std::path::Path::new(p).parent()`, as a string. Claimed: the result is
/// [`path_parent`] of the path (the parent of a UTF-8 path is UTF-8, so the
/// conversion loses nothing).
#[verifier::external_body]
fn parent_of(p: &str) -> (r: Option<String>)
    ensures
        r matches Some(d) ==> path_parent(p@) == Some(d@),
        r is None ==> path_parent(p@) is None,
{
    std::path::Path::new(p).parent().map(|d| d.to_string_lossy().into_owned())
}

/// The directory that a parent path gives: the parent itself, or `/` when
/// there is none or it is empty (the parent of a bare file name).
pub open spec fn dirname_of(parent: Option<Seq<char>>) -> Seq<char> {
    match parent {
        Some(d) => if d.len() > 0 {
            d
        } else {
            "/"@
        },
        None => "/"@,
    }
}

/// The path `dir` joined with `name`, as `std::path::Path::join` builds it
/// (`name` itself when it is absolute).
pub uninterp spec fn path_join(dir: Seq<char>, name: Seq<char>) -> Seq<char>;

/// `std::path::Path::new(dir).join(name)`, displayed as a string. Claimed:
/// the result is [`path_join`] of the two paths (joining UTF-8 paths gives a
/// UTF-8 path, so the display loses nothing).
#[verifier::external_body]
fn join_paths(dir: &str, name: &str) -> (r: String)
    ensures
        r@ == path_join(dir@, name@),
{
    std::path::Path::new(dir).join(name).display().to_string()
}

/// General-purpose helpers.
pub struct Utils;

impl Utils {
    /// Returns the parent directory of the given executable path, or `"/"`
    /// if the path has no parent component (a bare file name, or a root).
    pub fn get_dirname(exe: &str) -> (d: String)
        ensures
            d@ == dirname_of(path_parent(exe@)),
    {
        let parent = parent_of(exe);
        match parent {
            Some(p) => Utils::dirname_from_parent(Some(p.as_str())),
            None => Utils::dirname_from_parent(None),
        }
    }

    /// The directory for a parent path: the parent itself, or `"/"` for none
    /// or an empty one.
    pub fn dirname_from_parent(parent: Option<&str>) -> (d: String)
        ensures
            d@ == dirname_of(
                match parent {
                    Some(p) => Some(p@),
                    None => None,
                },
            ),
    {
        match parent {
            Some(p) => if p.is_empty() {
                String::from_str("/")
            } else {
                String::from_str(p)
            },
            None => String::from_str("/"),
        }
    }

    /// The path of the file `name` in the directory of the executable `exe`
    /// (see [`Utils::get_dirname`]).
    pub fn file_location(exe: &str, name: &str) -> (p: String)
        ensures
            p@ == path_join(dirname_of(path_parent(exe@)), name@),
    {
        let dir = Utils::get_dirname(exe);
        join_paths(dir.as_str(), name)
    }

    /// The board name from the text of `/sys/class/dmi/id/board_name`:
    /// trimmed, then lowercased.
    pub fn board_name_from_dmi(content: &str) -> (name: String)
        ensures
            name@ == str_lowercase(seq_trim(content@)),
    {
        let t = string_of(trim(&chars_of(content)).as_slice());
        to_lowercase(t.as_str())
    }
}

} // verus!
