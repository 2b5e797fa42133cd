//! The path operations of std that `cd` relies on. How a path is split into
//! components and joined differs between platforms, so the results are
//! named rather than spelt out.
use vstd::prelude::*;

use crate::text::opt_chars;

verus! {

/// `base` with `rest` joined onto it.
pub uninterp spec fn path_join(base: Seq<char>, rest: Seq<char>) -> Seq<char>;

/// Whether a path is absolute.
pub uninterp spec fn is_absolute_path(p: Seq<char>) -> bool;

/// What remains of a path after a first component `~`, if it has one.
pub uninterp spec fn after_tilde(p: Seq<char>) -> Option<Seq<char>>;

/// Relies on `Path::join`: `rest` joined onto `base`, an absolute `rest`
/// replacing `base`.
#[verifier::external_body]
pub fn join_path(base: &str, rest: &str) -> (r: String)
    ensures
        r@ == path_join(base@, rest@),
        is_absolute_path(rest@) ==> r@ == rest@,
{
    std::path::Path::new(base).join(rest).to_string_lossy().into_owned()
}

/// Relies on `Path::is_absolute`.
#[verifier::external_body]
pub fn is_absolute(p: &str) -> (r: bool)
    ensures
        r == is_absolute_path(p@),
{
    std::path::Path::new(p).is_absolute()
}

/// Relies on `Path::strip_prefix` with the prefix `~`: whole components are
/// compared, so only a path whose first component is `~` has one: `~`
/// alone, which leaves the empty path, or `~` followed by a separator.
#[verifier::external_body]
pub fn strip_tilde(p: &str) -> (r: Option<String>)
    ensures
        opt_chars(r) == after_tilde(p@),
        r is Some ==> p@.len() > 0 && p@[0] == '~',
        p@ == seq!['~'] ==> r is Some && r->0@.len() == 0,
        p@.len() >= 2 && p@[0] == '~' && p@[1] == '/' ==> r is Some,
{
    match std::path::Path::new(p).strip_prefix("~") {
        Ok(rest) => Some(rest.to_string_lossy().into_owned()),
        Err(_) => None,
    }
}

} // verus!
