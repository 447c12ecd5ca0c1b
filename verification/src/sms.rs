//! The SMS verification service: the request that sends a code, where a sent
//! code is kept, and how a reply is checked against it.

use vstd::prelude::*;

verus! {

/// The request body that asks the SMS gateway to text a verification code.
pub struct SmsRequest {
    /// The mobile number to text.
    pub phone: String,
    /// The gateway's platform selector.
    pub platform: u32,
    /// How long the code stays valid, in seconds.
    pub expiration: u32,
    /// The number of digits of the code.
    pub len: u32,
    /// The kind of message (`type` on the wire).
    pub kind: u32,
}

impl SmsRequest {
    /// The request for a six-digit code, valid five minutes, texted to `mobile`.
    pub fn new(mobile: String) -> (r: SmsRequest)
        ensures
            r.phone@ == mobile@,
            r.platform == 0,
            r.expiration == 300,
            r.len == 6,
            r.kind == 1,
    {
        SmsRequest { phone: mobile, platform: 0, expiration: 300, len: 6, kind: 1 }
    }
}

/// The key under which the code sent to `mobile` is kept.
pub open spec fn auth_code_key_spec(mobile: Seq<char>) -> Seq<char> {
    "verificationCode:backstage:verificationIdentity:"@ + mobile
}

/// The key under which the code sent to `mobile` is kept.
pub fn auth_code_key(mobile: &str) -> (key: String)
    ensures
        key@ == auth_code_key_spec(mobile@),
{
    "verificationCode:backstage:verificationIdentity:".to_owned().concat(mobile)
}

/// Why an auth code was not accepted.
#[derive(PartialEq, Eq, Structural, Debug, Clone, Copy)]
pub enum AuthCodeError {
    /// The code store could not be reached.
    Unavailable,
    /// No code is kept for the mobile number.
    NotFound,
    /// The reply differs from the kept code.
    Mismatch,
}

/// The verdict on a reply `auth_code`, given what the code store holds:
/// `None` where it could not be reached, else the kept code, empty where none
/// is kept.
pub open spec fn auth_code_verdict(stored: Option<Seq<char>>, auth_code: Seq<char>) -> Result<bool, AuthCodeError> {
    match stored {
        None => Err(AuthCodeError::Unavailable),
        Some(code) => if code.len() == 0 {
            Err(AuthCodeError::NotFound)
        } else if code == auth_code {
            Ok(true)
        } else {
            Err(AuthCodeError::Mismatch)
        },
    }
}

/// Checks a reply against the code kept for a mobile number. `stored` is what
/// the code store gave: `None` where it could not be reached, else the kept
/// code, empty where none is kept. A code is accepted (`Ok(true)`) exactly
/// when one is kept and the reply equals it; `Ok(false)` never comes.
pub fn check_auth_code(stored: Option<String>, auth_code: &str) -> (r: Result<bool, AuthCodeError>)
    ensures
        r == auth_code_verdict(match stored {
            Some(s) => Some(s@),
            None => None,
        }, auth_code@),
        r != Ok::<bool, AuthCodeError>(false),
        r == Ok::<bool, AuthCodeError>(true) <==> (stored matches Some(code) && code@.len() > 0 && code@ == auth_code@),
{
    match stored {
        None => Err(AuthCodeError::Unavailable),
        Some(code) => if code.as_str().is_empty() {
            Err(AuthCodeError::NotFound)
        } else if code == auth_code.to_owned() {
            Ok(true)
        } else {
            Err(AuthCodeError::Mismatch)
        },
    }
}

} // verus!
