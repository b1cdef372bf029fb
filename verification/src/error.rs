//! Errors reported while repository state is read.

use std::io::Error as IoError;
use vstd::prelude::*;
use vstd::string::StringExecFns;

verus! {

/// The I/O error of std, carried through unread.
#[verifier::external_type_specification]
#[verifier::external_body]
pub struct ExIoError(IoError);

/// What went wrong while a repository was read.
#[derive(Debug)]
pub enum Error {
    /// The JJ backend failed; the text says at which step and why.
    Jj(String),
    /// The Git backend failed; the text says at which step and why.
    Git(String),
    /// An operating-system error.
    Io(IoError),
}

/// The `Display` text of an I/O error of std. Nothing is claimed of it.
#[verifier::external_body]
fn io_error_text(e: &IoError) -> (r: String) {
    e.to_string()
}

impl Error {
    /// The text of the error: the backend's name, a colon and a space,
    /// then the detail.
    pub fn message(&self) -> (r: String)
        ensures
            match self {
                Error::Jj(detail) => r@ == "jj: "@ + detail@,
                Error::Git(detail) => r@ == "git: "@ + detail@,
                Error::Io(_) => crate::text::starts_with(r@, "io: "@),
            },
    {
        match self {
            Error::Jj(detail) => String::from_str("jj: ").concat(detail.as_str()),
            Error::Git(detail) => String::from_str("git: ").concat(detail.as_str()),
            Error::Io(e) => {
                let detail = io_error_text(e);
                let r = String::from_str("io: ").concat(detail.as_str());
                proof {
                    assert(r@.take("io: "@.len() as int) =~= "io: "@);
                }
                r
            },
        }
    }
}

} // verus!
