//! The credential check that runs before any operation on the staging
//! store and before any blend.
//!
//! The check holds no state. It is handed the credential that the service
//! was configured with, if any, and the credential that the caller
//! presented, if any, and compares the two byte for byte.

use crate::headers::{first_value, header_fields, lookup};
use crate::status::UNAUTHORIZED;
use hyper::HeaderMap;
use vstd::prelude::*;
use vstd::string::StringSliceAdditionalSpecFns;

verus! {

/// Why a request was turned away.
#[derive(Debug, Clone, Copy, PartialEq, Eq, Structural)]
pub enum AuthError {
    /// The service has no credential to compare with.
    Misconfigured,
    /// The request carries no credential.
    Missing,
    /// The request carries a credential that is not the expected one.
    Invalid,
}

impl AuthError {
    /// What the caller is told.
    pub open spec fn text(self) -> Seq<char> {
        match self {
            AuthError::Misconfigured => "no api key"@,
            AuthError::Missing => "missing api key in request"@,
            AuthError::Invalid => "incorrect api key"@,
        }
    }

    /// The status that the refusal is answered with.
    pub fn status(&self) -> (code: u16)
        ensures
            code == UNAUTHORIZED,
    {
        UNAUTHORIZED
    }

    /// The text that the refusal is answered with.
    pub fn message(&self) -> (text: String)
        ensures
            text@ == self.text(),
    {
        match self {
            AuthError::Misconfigured => "no api key".to_owned(),
            AuthError::Missing => "missing api key in request".to_owned(),
            AuthError::Invalid => "incorrect api key".to_owned(),
        }
    }
}

/// The decision on one request.
///
/// `expected` is the configured credential, `presented` the caller's.
/// With `required` unset a caller who presents nothing is let through;
/// one who presents a wrong credential never is.
pub open spec fn verdict(
    expected: Option<Seq<u8>>,
    required: bool,
    presented: Option<Seq<u8>>,
) -> Result<(), AuthError> {
    match expected {
        None => Err(AuthError::Misconfigured),
        Some(key) => match presented {
            None => if required {
                Err(AuthError::Missing)
            } else {
                Ok(())
            },
            Some(given) => if given == key {
                Ok(())
            } else {
                Err(AuthError::Invalid)
            },
        },
    }
}

/// With no credential configured nobody gets in, whatever is presented and
/// whether or not a credential is mandatory.
pub proof fn lemma_unconfigured_refuses_all(required: bool, presented: Option<Seq<u8>>)
    ensures
        verdict(None, required, presented) == Err::<(), AuthError>(AuthError::Misconfigured),
{
}

/// Who gets in: with a credential configured, those who present exactly
/// that credential, and those who present nothing where nothing is
/// required.
pub proof fn lemma_who_gets_in(
    expected: Option<Seq<u8>>,
    required: bool,
    presented: Option<Seq<u8>>,
)
    ensures
        verdict(expected, required, presented) is Ok <==> expected is Some && (presented
            == expected || (presented is None && !required)),
{
}

/// The bytes behind an optional byte slice.
pub open spec fn bytes_of(slice: Option<&[u8]>) -> Option<Seq<u8>> {
    match slice {
        Some(bytes) => Some(bytes@),
        None => None,
    }
}

/// The bytes of an optional string in UTF-8.
pub open spec fn utf8_of(text: Option<&str>) -> Option<Seq<u8>> {
    match text {
        Some(s) => Some(s.spec_bytes()),
        None => None,
    }
}

/// Whether two byte strings are the same.
pub fn same_bytes(a: &[u8], b: &[u8]) -> (same: bool)
    ensures
        same <==> a@ == b@,
{
    if a.len() != b.len() {
        return false;
    }
    let mut i: usize = 0;
    while i < a.len()
        invariant
            a.len() == b.len(),
            i <= a.len(),
            forall|k: int| 0 <= k < i ==> a@[k] == b@[k],
        decreases a.len() - i,
    {
        if a[i] != b[i] {
            return false;
        }
        i += 1;
    }
    assert(a@ =~= b@);
    true
}

/// Decides on one request.
pub fn decide(expected: Option<&[u8]>, required: bool, presented: Option<&[u8]>) -> (outcome:
    Result<(), AuthError>)
    ensures
        outcome == verdict(bytes_of(expected), required, bytes_of(presented)),
        expected is None ==> outcome == Err::<(), AuthError>(AuthError::Misconfigured),
{
    match expected {
        None => Err(AuthError::Misconfigured),
        Some(key) => match presented {
            None => if required {
                Err(AuthError::Missing)
            } else {
                Ok(())
            },
            Some(given) => if same_bytes(given, key) {
                Ok(())
            } else {
                Err(AuthError::Invalid)
            },
        },
    }
}

/// The check in front of the staging store and the blend: a credential is
/// mandatory.
pub fn authorize(expected: Option<&[u8]>, presented: Option<&[u8]>) -> (outcome: Result<
    (),
    AuthError,
>)
    ensures
        outcome == verdict(bytes_of(expected), true, bytes_of(presented)),
        expected is None ==> outcome == Err::<(), AuthError>(AuthError::Misconfigured),
        outcome is Ok <==> expected is Some && presented is Some && presented.unwrap()@
            == expected.unwrap()@,
{
    decide(expected, true, presented)
}

/// The name of the header field that carries the caller's credential.
pub const API_KEY_HEADER: &'static str = "theapikey";

/// The credential of deployments that configure none of their own.
pub const STATIC_API_KEY: &'static str = "rocks";

/// The credential that a request with these header fields presents: the
/// first value of the field named [`API_KEY_HEADER`].
pub open spec fn presented_in(headers: HeaderMap) -> Option<Seq<u8>> {
    first_value(header_fields(headers), API_KEY_HEADER@)
}

/// Checks the credential in a request's header fields against `key`, the
/// credential that the service was configured with.
///
/// With `require_api_key` unset a request without the field passes.
pub fn check_api_key(key: Option<&str>, require_api_key: bool, headers: &HeaderMap) -> (outcome:
    Result<(), AuthError>)
    ensures
        outcome == verdict(utf8_of(key), require_api_key, presented_in(*headers)),
        key is None ==> outcome == Err::<(), AuthError>(AuthError::Misconfigured),
{
    proof {
        reveal_strlit("theapikey");
    }
    let presented = lookup(headers, API_KEY_HEADER);
    let expected: Option<&[u8]> = match key {
        Some(text) => Some(text.as_bytes()),
        None => None,
    };
    let given: Option<&[u8]> = match &presented {
        Some(bytes) => Some(bytes.as_slice()),
        None => None,
    };
    decide(expected, require_api_key, given)
}

} // verus!
