//! Error information carried by every fallible operation of the library.

use vstd::prelude::*;

verus! {

/// Error information.
///
/// Local corruption of a cached archive is handled in place and never
/// surfaces here; everything that does surface is fatal for the batch and
/// carries enough context (a path, a URL, or a command) to diagnose the
/// failure without re-running.
#[derive(Debug)]
pub enum Error {
    /// A required argument was not supplied.
    MissingArgument,
    /// An I/O operation failed; the payload is its diagnostic message.
    Io(String),
    /// Any other failure, described by its message.
    Custom(String),
}

impl Error {
    /// Render the error as a human-readable line.
    pub fn message(&self) -> (r: String)
        ensures
            r@ == self.spec_message(),
    {
        match self {
            Error::MissingArgument => String::from_str("missing argument error"),
            Error::Io(m) => {
                let mut r = String::from_str("I/O error: ");
                r.append(m.as_str());
                r
            },
            Error::Custom(m) => {
                let mut r = String::from_str("error: ");
                r.append(m.as_str());
                r
            },
        }
    }

    /// The diagnostic text the error carries, without the variant's prefix.
    pub open spec fn spec_payload(&self) -> Seq<char> {
        match self {
            Error::MissingArgument => Seq::<char>::empty(),
            Error::Io(m) => m@,
            Error::Custom(m) => m@,
        }
    }

    /// What `message` returns, as a sequence of characters.
    pub open spec fn spec_message(&self) -> Seq<char> {
        match self {
            Error::MissingArgument => "missing argument error"@,
            Error::Io(m) => "I/O error: "@ + m@,
            Error::Custom(m) => "error: "@ + m@,
        }
    }
}

impl From<&'static str> for Error {
    /// A bare message is an [`Error::Custom`].
    fn from(message: &'static str) -> (r: Self) {
        Error::Custom(String::from_str(message))
    }
}

/// No claim is made about `Error::from` on a `&str`: a spec-level `String`
/// cannot be built from a character sequence, so `obeys_from_spec` opts out.
impl vstd::std_specs::convert::FromSpecImpl<&'static str> for Error {
    open spec fn obeys_from_spec() -> bool {
        false
    }

    open spec fn from_spec(message: &'static str) -> Self {
        arbitrary()
    }
}

impl From<String> for Error {
    /// An owned message is an [`Error::Custom`].
    fn from(message: String) -> (r: Self) {
        Error::Custom(message)
    }
}

impl vstd::std_specs::convert::FromSpecImpl<String> for Error {
    open spec fn obeys_from_spec() -> bool {
        true
    }

    open spec fn from_spec(message: String) -> Self {
        Error::Custom(message)
    }
}

} // verus!
