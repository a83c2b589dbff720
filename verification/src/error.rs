//! The relay's error taxonomy: transport failures, undecodable responses,
//! propagated upstream errors, and the scan verdict itself.

use vstd::prelude::*;
use vstd::string::StringExecFns;

verus! {

/// The terminal failure a relay can surface.  Every variant carries a plain
/// textual description; [`Error::message`] renders it the way the failure is
/// reported to the caller.
#[derive(Debug)]
pub enum Error {
    /// A failure writing to or reading from the daemon connection.
    Io(String),
    /// The daemon's response bytes were not valid UTF-8 text.
    Utf8(String),
    /// An error surfaced by the upstream producer, wrapped verbatim.
    Stream(String),
    /// A successful dialogue whose classification is "infected"; carries the
    /// daemon's raw diagnostic text.
    Scan(String),
}

impl Error {
    /// The rendered report: a fixed prefix naming the failure kind, except
    /// for a scan verdict, which is the daemon's text verbatim.
    pub open spec fn message_spec(&self) -> Seq<char> {
        match self {
            Error::Io(m) => "io error: "@ + m@,
            Error::Utf8(m) => "utf8 error: "@ + m@,
            Error::Stream(m) => "stream error: "@ + m@,
            Error::Scan(m) => m@,
        }
    }

    /// Renders the error as the text shown to the caller.
    pub fn message(&self) -> (r: String)
        ensures
            r@ == self.message_spec(),
    {
        match self {
            Error::Io(m) => {
                let mut s = "io error: ".to_owned();
                s.append(m.as_str());
                s
            },
            Error::Utf8(m) => {
                let mut s = "utf8 error: ".to_owned();
                s.append(m.as_str());
                s
            },
            Error::Stream(m) => {
                let mut s = "stream error: ".to_owned();
                s.append(m.as_str());
                s
            },
            Error::Scan(m) => m.clone(),
        }
    }
}

impl vstd::std_specs::cmp::PartialEqSpecImpl for Error {
    open spec fn obeys_eq_spec() -> bool {
        true
    }

    open spec fn eq_spec(&self, other: &Self) -> bool {
        self.message_spec() == other.message_spec()
    }
}

/// Two errors are equal when they render to the same report text.
impl PartialEq for Error {
    fn eq(&self, other: &Self) -> (r: bool) {
        self.message() == other.message()
    }
}

} // verus!
