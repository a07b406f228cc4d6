//! A file organisation engine: files are sorted into category folders by
//! extension, moved under collision-free names through a fallback chain of
//! operations, and processed in cancellable batches that report progress.
//! The library makes every decision; the caller performs the file operations.
use vstd::prelude::*;

pub mod batch;
pub mod category;
pub mod config;
pub mod destination;
pub mod filter;
pub mod mover;
pub mod organize;
pub mod outcome;
pub mod path;
pub mod settings;
pub mod text;

pub use category::get_category;

verus! {

/// Prefixes an error with a short description of what was being done.
pub fn map_err<T>(result: Result<T, String>, message: &str) -> (r: Result<T, String>)
    ensures
        result is Ok ==> r == result,
        result is Err ==> r is Err && r->Err_0@ == message@ + ": "@ + result->Err_0@,
{
    match result {
        Ok(v) => Ok(v),
        Err(e) => {
            let mut s = String::from_str(message);
            s.append(": ");
            s.append(e.as_str());
            Err(s)
        },
    }
}

} // verus!
