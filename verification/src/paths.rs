//! Path operations that the platform and the `path_abs` crate perform.
//!
//! Paths are held as text. What is stated here of the operations on them is
//! taken on trust from the code that performs them.

use vstd::prelude::*;

verus! {

/// The error of the `path_abs` crate, carried as an opaque value.
#[verifier::external_type_specification]
#[verifier::external_body]
pub struct ExPathAbsError(path_abs::Error);

/// The text of the path that `std::path::Path::join` makes of `base` and
/// `name` on the platform that the crate is built for.
pub uninterp spec fn path_join(base: Seq<char>, name: Seq<char>) -> Seq<char>;

/// `std::path::Path::join`: the path `name` adjoined to `base`, as text. The
/// contract claims no more than that the text is a function of the two
/// arguments.
#[verifier::external_body]
pub(crate) fn join_path(base: &str, name: &str) -> (joined: String)
    ensures
        joined@ == path_join(base@, name@),
{
    std::path::Path::new(base).join(name).display().to_string()
}

/// `path_abs::PathAbs::new`: `path` made absolute, as text. A relative path
/// is resolved against the current directory of the process, so nothing is
/// claimed of the outcome.
#[verifier::external_body]
fn absolute(path: &str) -> (resolved: Result<String, path_abs::Error>) {
    match path_abs::PathAbs::new(path) {
        Ok(abs) => Ok(abs.as_path().display().to_string()),
        Err(err) => Err(err),
    }
}

/// The `Display` text of a `path_abs::Error`. Nothing is claimed of it.
#[verifier::external_body]
fn describe(err: &path_abs::Error) -> (message: String) {
    err.to_string()
}

/// Makes `path` absolute without asking whether it exists: the absolute path
/// as text, or the message of the failure. The outcome depends on the current
/// directory of the process.
pub(crate) fn resolve(path: &str) -> (outcome: Result<String, String>) {
    match absolute(path) {
        Ok(resolved) => Ok(resolved),
        Err(err) => Err(describe(&err)),
    }
}

} // verus!
