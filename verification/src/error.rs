//! The library's error type.

use std::io::Error as IoError;
use serde_json::Error as JsonError;
use vstd::prelude::*;
use vstd::std_specs::convert::FromSpecImpl;

verus! {

/// `std::io::Error`, carried opaquely in `Error::Io`.
#[verifier::external_type_specification]
#[verifier::external_body]
pub struct ExIoError(IoError);

/// `serde_json::Error`, carried opaquely in `Error::Json`.
#[verifier::external_type_specification]
#[verifier::external_body]
pub struct ExJsonError(JsonError);

#[derive(Debug)]
pub enum Error {
    Config(String),
    Auth(String),
    Http(String),
    Win32(String),
    Io(IoError),
    Json(JsonError),
}

impl From<IoError> for Error {
    fn from(e: IoError) -> (r: Self) {
        Error::Io(e)
    }
}

impl FromSpecImpl<IoError> for Error {
    open spec fn obeys_from_spec() -> bool {
        true
    }

    open spec fn from_spec(e: IoError) -> Self {
        Error::Io(e)
    }
}

impl From<JsonError> for Error {
    fn from(e: JsonError) -> (r: Self) {
        Error::Json(e)
    }
}

impl FromSpecImpl<JsonError> for Error {
    open spec fn obeys_from_spec() -> bool {
        true
    }

    open spec fn from_spec(e: JsonError) -> Self {
        Error::Json(e)
    }
}

/// The text that `Display` for `std::io::Error` writes. Trusted: nothing
/// is stated of it, as it may carry an operating-system message.
#[verifier::external_body]
fn io_error_text(e: &IoError) -> String {
    e.to_string()
}

/// The text that `Display` for `serde_json::Error` writes. Trusted: nothing
/// is stated of it; the error's contents are opaque here.
#[verifier::external_body]
fn json_error_text(e: &JsonError) -> String {
    e.to_string()
}

/// `prefix` followed by `detail`.
pub(crate) fn prefixed(prefix: &str, detail: &str) -> (r: String)
    ensures
        r@ == prefix@ + detail@,
{
    let mut r = String::from_str(prefix);
    r.append(detail);
    r
}

impl Error {
    /// The message of a variant that carries its own text.
    pub open spec fn text(self) -> Option<Seq<char>> {
        match self {
            Error::Config(m) => Some(m@),
            Error::Auth(m) => Some(m@),
            Error::Http(m) => Some(m@),
            Error::Win32(m) => Some(m@),
            _ => None,
        }
    }

    /// The label that the error's description starts with.
    pub open spec fn label(self) -> Seq<char> {
        match self {
            Error::Config(_) => "config: "@,
            Error::Auth(_) => "auth: "@,
            Error::Http(_) => "http: "@,
            Error::Win32(_) => "win32: "@,
            Error::Io(_) => "io: "@,
            Error::Json(_) => "json: "@,
        }
    }

    /// The description of the error: its kind followed by its message, as
    /// in "config: worker URL not configured".
    pub fn to_string(&self) -> (r: String)
        ensures
            r@.take(self.label().len() as int) == self.label(),
            self.text() matches Some(m) ==> r@ == self.label() + m,
            self matches Error::Config(m) ==> r@ == "config: "@ + m@,
            self matches Error::Auth(m) ==> r@ == "auth: "@ + m@,
            self matches Error::Http(m) ==> r@ == "http: "@ + m@,
            self matches Error::Win32(m) ==> r@ == "win32: "@ + m@,
            self is Io ==> r@.take(4) == "io: "@,
            self is Json ==> r@.take(6) == "json: "@,
    {
        match self {
            Error::Config(m) => prefixed("config: ", m.as_str()),
            Error::Auth(m) => prefixed("auth: ", m.as_str()),
            Error::Http(m) => prefixed("http: ", m.as_str()),
            Error::Win32(m) => prefixed("win32: ", m.as_str()),
            Error::Io(e) => {
                let t = io_error_text(e);
                let r = prefixed("io: ", t.as_str());
                proof {
                    reveal_strlit("io: ");
                    assert(r@.take(4) =~= "io: "@);
                }
                r
            },
            Error::Json(e) => {
                let t = json_error_text(e);
                let r = prefixed("json: ", t.as_str());
                proof {
                    reveal_strlit("json: ");
                    assert(r@.take(6) =~= "json: "@);
                }
                r
            },
        }
    }
}

} // verus!
