//! Error taxonomy: transport failure, decode failure, authentication
//! rejection, and not-found-by-id for each entity kind.

use vstd::prelude::*;
use vstd::string::*;

use crate::text::{spec_dec, u64_dec};

verus! {

/// The kind of entity that a by-id lookup failed to find.
#[derive(Clone, Copy, Debug, PartialEq, Eq, Structural)]
pub enum NotFound {
    Assignment,
    Course,
    User,
}

/// A terminal failure of one client operation; nothing is retried.
///
/// The first four variants carry the message of the underlying failure as
/// plain text; the caller that performs the exchange fills them in.
#[derive(Debug)]
pub enum Error {
    /// The request could not be sent or the response not received.
    Transport(String),
    /// A URL could not be parsed or resolved.
    Parse(String),
    /// The response body did not decode into the expected shape.
    Decode(String),
    /// A local file operation failed.
    Io(String),
    /// The login endpoint rejected the credentials; carries the
    /// server-supplied message verbatim.
    Login(String),
    /// A collection response held no entry with the requested id.
    NotFound(NotFound, u64),
}

impl NotFound {
    /// The entity kind's name.
    pub fn kind_name(&self) -> (r: &'static str)
        ensures
            r@ == match *self {
                NotFound::Assignment => "Assignment"@,
                NotFound::Course => "Course"@,
                NotFound::User => "User"@,
            },
    {
        match *self {
            NotFound::Assignment => "Assignment",
            NotFound::Course => "Course",
            NotFound::User => "User",
        }
    }
}

/// The user-visible message of an error, by variant.
pub open spec fn spec_describe(e: &Error) -> Seq<char> {
    match *e {
        Error::Transport(ref m) => "Moodle Error :: "@ + m@,
        Error::Parse(ref m) => "Moodle Error :: "@ + m@,
        Error::Decode(ref m) => "Moodle Error :: "@ + m@,
        Error::Io(ref m) => "Moodle Error :: "@ + m@,
        Error::Login(ref m) => "Login Error :: "@ + m@,
        Error::NotFound(kind, id) => (match kind {
            NotFound::Assignment => "Assignment"@,
            NotFound::Course => "Course"@,
            NotFound::User => "User"@,
        }) + " (id: "@ + spec_dec(id as nat) + ") not found!"@,
    }
}

impl Error {
    /// Renders this error as the message a caller shows.
    pub fn describe(&self) -> (r: String)
        ensures
            r@ == spec_describe(self),
    {
        match self {
            Error::Transport(m) | Error::Parse(m) | Error::Decode(m) | Error::Io(m) => {
                let mut s = String::from_str("Moodle Error :: ");
                s.append(m.as_str());
                s
            },
            Error::Login(m) => {
                let mut s = String::from_str("Login Error :: ");
                s.append(m.as_str());
                s
            },
            Error::NotFound(kind, id) => {
                let mut s = String::from_str(kind.kind_name());
                s.append(" (id: ");
                let id_text = u64_dec(*id);
                s.append(id_text.as_str());
                s.append(") not found!");
                proof {
                    assert(s@ =~= spec_describe(self));
                }
                s
            },
        }
    }
}

} // verus!
