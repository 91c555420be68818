//! The configuration shared with the `rdl` CLI client (`config.json` in the
//! `rdl` project directory) and the decoding of the stored token.

use base64::engine::general_purpose::STANDARD;
use base64::Engine;
use vstd::prelude::*;
use vstd::utf8::{
    decode_utf8, encode_utf8, encode_utf8_decode_utf8, encode_utf8_valid_utf8, valid_utf8,
};
use crate::error::{prefixed, Error};

verus! {

/// The settings the tray reads. Every field may be absent from the file.
#[derive(Debug)]
pub struct Config {
    pub worker: Option<String>,
    pub token_enc: Option<String>,
    pub folder: Option<String>,
}

impl Default for Config {
    fn default() -> (r: Self)
        ensures
            r.worker is None,
            r.token_enc is None,
            r.folder is None,
    {
        Config { worker: None, token_enc: None, folder: None }
    }
}

/// What `base64::engine::general_purpose::STANDARD.decode` gives for
/// `encoded`: the bytes, or the `Display` text of its `DecodeError`.
pub uninterp spec fn base64_standard_decode(encoded: Seq<char>) -> Result<Seq<u8>, Seq<char>>;

/// The `Display` text of the `FromUtf8Error` that `String::from_utf8`
/// reports for `bytes`.
pub uninterp spec fn utf8_error_text(bytes: Seq<u8>) -> Seq<char>;

/// The decoded bytes or the error message, by their views.
pub open spec fn decoded_view(r: Result<Vec<u8>, String>) -> Result<Seq<u8>, Seq<char>> {
    match r {
        Ok(b) => Ok(b@),
        Err(m) => Err(m@),
    }
}

/// Calls `STANDARD.decode` of the `base64` crate (standard alphabet,
/// canonical padding). Trusted: the result is the named
/// `base64_standard_decode` of the input, with the error turned into its
/// message.
#[verifier::external_body]
fn base64_decode(encoded: &str) -> (r: Result<Vec<u8>, String>)
    ensures
        decoded_view(r) == base64_standard_decode(encoded@),
{
    match STANDARD.decode(encoded) {
        Ok(bytes) => Ok(bytes),
        Err(e) => Err(e.to_string()),
    }
}

/// Calls `String::from_utf8`. Trusted: it succeeds exactly on valid UTF-8,
/// then with the decoded characters; otherwise its error's message is the
/// named `utf8_error_text` of the bytes.
#[verifier::external_body]
fn string_from_utf8(bytes: Vec<u8>) -> (r: Result<String, String>)
    ensures
        r is Ok <==> valid_utf8(bytes@),
        r matches Ok(s) ==> s@ == decode_utf8(bytes@),
        r matches Err(m) ==> m@ == utf8_error_text(bytes@),
{
    match String::from_utf8(bytes) {
        Ok(s) => Ok(s),
        Err(e) => Err(e.to_string()),
    }
}

/// What `String::from_utf8_lossy` makes of `bytes`.
pub uninterp spec fn utf8_decode_lossy(bytes: Seq<u8>) -> Seq<char>;

/// Calls `String::from_utf8_lossy` and takes ownership of the text.
/// Trusted: the result is the named `utf8_decode_lossy` of the bytes, and
/// valid UTF-8 is decoded as it is (only invalid sequences are replaced).
#[verifier::external_body]
fn string_from_utf8_lossy(bytes: &[u8]) -> (r: String)
    ensures
        r@ == utf8_decode_lossy(bytes@),
        valid_utf8(bytes@) ==> r@ == decode_utf8(bytes@),
{
    String::from_utf8_lossy(bytes).into_owned()
}

/// The plain token, given what base64 decoding made of the stored one:
/// the decoded bytes read as UTF-8. A decoding failure is reported as
/// "invalid token encoding: ..." and bytes that are not UTF-8 as
/// "non-utf8 token: ...", both as configuration errors.
pub fn token_from_decoded(decoded: Result<Vec<u8>, String>) -> (r: Result<String, Error>)
    ensures
        match decoded {
            Err(e) => r matches Err(Error::Config(m)) && m@ == "invalid token encoding: "@ + e@,
            Ok(bytes) => if valid_utf8(bytes@) {
                r matches Ok(s) && s@ == decode_utf8(bytes@)
            } else {
                r matches Err(Error::Config(m)) && m@ == "non-utf8 token: "@ + utf8_error_text(bytes@)
            },
        },
        forall|t: Seq<char>|
            #![trigger encode_utf8(t)]
            decoded matches Ok(bytes) && bytes@ == encode_utf8(t) ==> (r matches Ok(s) && s@ == t),
{
    proof {
        broadcast use encode_utf8_valid_utf8, encode_utf8_decode_utf8;
    }
    match decoded {
        Err(e) => Err(Error::Config(prefixed("invalid token encoding: ", e.as_str()))),
        Ok(bytes) => match string_from_utf8(bytes) {
            Ok(s) => Ok(s),
            Err(m) => Err(Error::Config(prefixed("non-utf8 token: ", m.as_str()))),
        },
    }
}

/// The token, given what unsealing the stored bytes for the current user
/// (Windows DPAPI) gave: the plain bytes read as UTF-8, invalid sequences
/// replaced; a failure to unseal is a configuration error
/// "DPAPI unprotect: ...".
pub fn token_from_unsealed(unsealed: Result<Vec<u8>, String>) -> (r: Result<String, Error>)
    ensures
        unsealed matches Ok(p) ==> (r matches Ok(s) && s@ == utf8_decode_lossy(p@)),
        unsealed matches Err(x) ==> (r matches Err(Error::Config(m)) && m@ == "DPAPI unprotect: "@
            + x@),
        forall|t: Seq<char>|
            #![trigger encode_utf8(t)]
            unsealed matches Ok(p) && p@ == encode_utf8(t) ==> (r matches Ok(s) && s@ == t),
{
    proof {
        broadcast use encode_utf8_valid_utf8, encode_utf8_decode_utf8;
    }
    match unsealed {
        Ok(plain) => Ok(string_from_utf8_lossy(plain.as_slice())),
        Err(x) => Err(Error::Config(prefixed("DPAPI unprotect: ", x.as_str()))),
    }
}

/// What `unprotect` returns for the stored form of a token.
pub open spec fn unprotect_ok(encoded: Seq<char>) -> Option<Seq<char>> {
    match base64_standard_decode(encoded) {
        Ok(bytes) => if valid_utf8(bytes) {
            Some(decode_utf8(bytes))
        } else {
            None
        },
        Err(_) => None,
    }
}

/// The message of the configuration error that `unprotect` reports where
/// it fails.
pub open spec fn unprotect_error(encoded: Seq<char>) -> Seq<char> {
    match base64_standard_decode(encoded) {
        Ok(bytes) => "non-utf8 token: "@ + utf8_error_text(bytes),
        Err(e) => "invalid token encoding: "@ + e,
    }
}

/// Recovers the token from its stored form where it is not sealed for the
/// user (systems without DPAPI): base64 (standard alphabet) over the
/// token's UTF-8 bytes. Where it is sealed, see `Config::sealed_token` and
/// `token_from_unsealed`.
pub fn unprotect(encoded: &str) -> (r: Result<String, Error>)
    ensures
        unprotect_ok(encoded@) matches Some(t) ==> (r matches Ok(s) && s@ == t),
        unprotect_ok(encoded@) is None ==> (r matches Err(Error::Config(m)) && m@
            == unprotect_error(encoded@)),
        base64_standard_decode(encoded@) matches Ok(b) ==> (valid_utf8(b) ==> (r matches Ok(s)
            && s@ == decode_utf8(b))),
        forall|t: Seq<char>|
            #![trigger encode_utf8(t)]
            base64_standard_decode(encoded@) == Ok::<Seq<u8>, Seq<char>>(encode_utf8(t)) ==> (
            r matches Ok(s) && s@ == t),
{
    proof {
        broadcast use encode_utf8_valid_utf8, encode_utf8_decode_utf8;
    }
    token_from_decoded(base64_decode(encoded))
}

/// A stored token that is the base64 of the UTF-8 bytes of a text gives
/// back exactly that text, whatever its length; stored bytes that are valid
/// UTF-8 give back all of their characters.
pub proof fn lemma_unprotect_recovers_text(encoded: Seq<char>, t: Seq<char>, b: Seq<u8>)
    ensures
        base64_standard_decode(encoded) == Ok::<Seq<u8>, Seq<char>>(encode_utf8(t))
            ==> unprotect_ok(encoded) == Some(t),
        base64_standard_decode(encoded) == Ok::<Seq<u8>, Seq<char>>(b) && valid_utf8(b)
            ==> unprotect_ok(encoded) == Some(decode_utf8(b)) && encode_utf8(decode_utf8(b)) == b,
        base64_standard_decode(encoded) matches Err(e) ==> unprotect_ok(encoded) is None
            && unprotect_error(encoded) == "invalid token encoding: "@ + e,
        base64_standard_decode(encoded) == Ok::<Seq<u8>, Seq<char>>(b) && !valid_utf8(b)
            ==> unprotect_ok(encoded) is None && unprotect_error(encoded) == "non-utf8 token: "@
            + utf8_error_text(b),
{
    broadcast use encode_utf8_valid_utf8, encode_utf8_decode_utf8, vstd::utf8::decode_utf8_encode_utf8;
}

impl Config {
    /// The configured worker URL; a configuration error when there is none.
    pub fn worker(&self) -> (r: Result<&str, Error>)
        ensures
            self.worker matches Some(w) ==> (r matches Ok(s) && s@ == w@),
            self.worker is None ==> (r matches Err(Error::Config(m)) && m@
                == "worker URL not configured"@),
    {
        match &self.worker {
            Some(w) => Ok(w.as_str()),
            None => Err(Error::Config(String::from_str("worker URL not configured"))),
        }
    }

    /// The plain API token where the stored token is not sealed (see
    /// `unprotect`); an authentication error when none is stored.
    pub fn token(&self) -> (r: Result<String, Error>)
        ensures
            self.token_enc is None ==> (r matches Err(Error::Auth(m)) && m@ == "not authenticated"@),
            self.token_enc matches Some(enc) ==> {
                &&& unprotect_ok(enc@) matches Some(t) ==> (r matches Ok(s) && s@ == t)
                &&& unprotect_ok(enc@) is None ==> (r matches Err(Error::Config(m)) && m@
                    == unprotect_error(enc@))
            },
            self.token_enc matches Some(enc) ==> (base64_standard_decode(enc@) matches Ok(b) ==> (
            valid_utf8(b) ==> (r matches Ok(s) && s@ == decode_utf8(b)))),
    {
        match &self.token_enc {
            Some(enc) => unprotect(enc.as_str()),
            None => Err(Error::Auth(String::from_str("not authenticated"))),
        }
    }

    /// The sealed token bytes: the stored token decoded from base64
    /// (standard alphabet). An authentication error when none is stored, a
    /// configuration error "invalid token encoding: ..." when it is not
    /// base64.
    pub fn sealed_token(&self) -> (r: Result<Vec<u8>, Error>)
        ensures
            self.token_enc is None ==> (r matches Err(Error::Auth(m)) && m@ == "not authenticated"@),
            self.token_enc matches Some(enc) ==> match base64_standard_decode(enc@) {
                Ok(b) => r matches Ok(v) && v@ == b,
                Err(e) => r matches Err(Error::Config(m)) && m@ == "invalid token encoding: "@ + e,
            },
    {
        match &self.token_enc {
            Some(enc) => match base64_decode(enc.as_str()) {
                Ok(bytes) => Ok(bytes),
                Err(e) => Err(Error::Config(prefixed("invalid token encoding: ", e.as_str()))),
            },
            None => Err(Error::Auth(String::from_str("not authenticated"))),
        }
    }

    /// The error reported when no configuration file exists at `path`.
    pub fn not_found(path: &str) -> (r: Error)
        ensures
            r matches Error::Config(m) && m@ == "config not found at "@ + path@
                + " — run `rdl auth login` first"@,
    {
        let mut m = String::from_str("config not found at ");
        m.append(path);
        m.append(" — run `rdl auth login` first");
        Error::Config(m)
    }
}

} // verus!
