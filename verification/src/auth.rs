//! Request authentication: every request outside development mode carries a
//! Unix timestamp and an HMAC-SHA256 signature of `timestamp|method|path`,
//! encoded in standard base64, under the shared secret.

use vstd::prelude::*;
use vstd::utf8::encode_utf8;
use base64::Engine;
use hmac::Mac;
use std::rc::Rc;
use crate::decimal::parse_unsigned_spec;
use crate::text::{push_str, str_eq, to_owned};

verus! {

/// The largest accepted distance, in seconds, between the request's
/// timestamp and the server's clock.
pub const MAX_TIMESTAMP_DRIFT_SECS: u64 = 300;

#[verifier::external_type_specification]
#[verifier::external_body]
pub struct ExInvalidLength(hmac::digest::InvalidLength);

/// The HMAC-SHA256 tag of `msg` under `key`.
pub uninterp spec fn hmac_sha256_spec(key: Seq<u8>, msg: Seq<u8>) -> Seq<u8>;

/// The digit of the standard base64 alphabet for the six bits `n`:
/// `A`-`Z`, `a`-`z`, `0`-`9`, `+`, `/`.
pub open spec fn base64_digit(n: int) -> char {
    if n < 26 {
        (65 + n) as char
    } else if n < 52 {
        (97 + n - 26) as char
    } else if n < 62 {
        (48 + n - 52) as char
    } else if n == 62 {
        '+'
    } else {
        '/'
    }
}

/// The standard (RFC 4648, padded) base64 encoding of `data`: each group of
/// three bytes as four digits of six bits, high bits first; a last group of
/// one or two bytes is filled with zero bits and padded with `=` to four.
pub open spec fn base64_standard_spec(data: Seq<u8>) -> Seq<char>
    decreases data.len(),
{
    let b0 = if data.len() > 0 { data[0] as int } else { 0 };
    let b1 = if data.len() > 1 { data[1] as int } else { 0 };
    let b2 = if data.len() > 2 { data[2] as int } else { 0 };
    if data.len() == 0 {
        Seq::<char>::empty()
    } else if data.len() == 1 {
        seq![base64_digit(b0 / 4), base64_digit((b0 % 4) * 16), '=', '=']
    } else if data.len() == 2 {
        seq![base64_digit(b0 / 4), base64_digit((b0 % 4) * 16 + b1 / 16), base64_digit((b1 % 16) * 4), '=']
    } else {
        seq![
            base64_digit(b0 / 4),
            base64_digit((b0 % 4) * 16 + b1 / 16),
            base64_digit((b1 % 16) * 4 + b2 / 64),
            base64_digit(b2 % 64),
        ] + base64_standard_spec(data.skip(3))
    }
}

/// `Hmac::<Sha256>::new_from_slice(key)`, `update(msg)`, `finalize().into_bytes()`
/// of the `hmac` crate. Claimed: the result is the tag of `msg` under `key`,
/// 32 bytes long, and the key is never refused (HMAC takes keys of any
/// length: `new_from_slice` always returns `Ok`).
#[verifier::external_body]
fn hmac_sha256(key: &[u8], msg: &[u8]) -> (r: Result<Vec<u8>, hmac::digest::InvalidLength>)
    ensures
        r is Ok,
        r->Ok_0@ == hmac_sha256_spec(key@, msg@),
        r->Ok_0@.len() == 32,
{
    let mut mac = hmac::Hmac::<sha2::Sha256>::new_from_slice(key)?;
    mac.update(msg);
    Ok(mac.finalize().into_bytes().to_vec())
}

/// `base64::engine::general_purpose::STANDARD.encode(data)`. Claimed: the
/// result is the standard, padded base64 encoding of `data` (RFC 4648). The crate panics only
/// when the encoded length overflows `usize`, which the bound rules out.
#[verifier::external_body]
fn base64_standard(data: &[u8]) -> (r: String)
    requires
        data@.len() <= usize::MAX / 2,
    ensures
        r@ == base64_standard_spec(data@),
{
    base64::engine::general_purpose::STANDARD.encode(data)
}

/// The current Unix time in whole seconds: `SystemTime::now()`, its
/// `duration_since(UNIX_EPOCH)` in seconds; `None` when the clock reads
/// before the epoch (the error std reports). Nothing is claimed of the
/// value: it is the machine's clock.
#[verifier::external_body]
fn unix_now() -> Option<u64> {
    match std::time::SystemTime::now().duration_since(std::time::UNIX_EPOCH) {
        Ok(d) => Some(d.as_secs()),
        Err(_) => None,
    }
}

/// Why a request was refused.
#[derive(PartialEq, Eq, Structural, Debug, Clone, Copy)]
pub enum AuthError {
    MissingTimestamp,
    MissingSignature,
    InvalidTimestamp,
    TimestampExpired,
    HmacFailure,
    InvalidSignature,
    NoSecret,
    /// The server's clock reads before the Unix epoch.
    ClockUnavailable,
}

impl AuthError {
    /// The text sent back with the refusal.
    pub fn message(&self) -> (r: String)
        ensures
            r@ == auth_error_text(*self),
    {
        match self {
            AuthError::MissingTimestamp => to_owned("Missing X-Vibe-Timestamp header"),
            AuthError::MissingSignature => to_owned("Missing X-Vibe-Signature header"),
            AuthError::InvalidTimestamp => to_owned("Invalid timestamp"),
            AuthError::TimestampExpired => to_owned("Timestamp expired"),
            AuthError::HmacFailure => to_owned("HMAC error"),
            AuthError::InvalidSignature => to_owned("Invalid signature"),
            AuthError::NoSecret => to_owned("No secret configured and dev mode is off"),
            AuthError::ClockUnavailable => to_owned("Server clock unavailable"),
        }
    }
}

pub open spec fn auth_error_text(e: AuthError) -> Seq<char> {
    match e {
        AuthError::MissingTimestamp => "Missing X-Vibe-Timestamp header"@,
        AuthError::MissingSignature => "Missing X-Vibe-Signature header"@,
        AuthError::InvalidTimestamp => "Invalid timestamp"@,
        AuthError::TimestampExpired => "Timestamp expired"@,
        AuthError::HmacFailure => "HMAC error"@,
        AuthError::InvalidSignature => "Invalid signature"@,
        AuthError::NoSecret => "No secret configured and dev mode is off"@,
        AuthError::ClockUnavailable => "Server clock unavailable"@,
    }
}

/// What authentication reads of a request: the two headers (absent when
/// missing or not visible ASCII), the method and the path.
pub struct AuthRequest {
    pub timestamp: Option<String>,
    pub signature: Option<String>,
    pub method: String,
    pub path: String,
}

/// The string that is signed: `{timestamp}|{method}|{path}`.
pub open spec fn signing_string(ts: Seq<char>, method: Seq<char>, path: Seq<char>) -> Seq<char> {
    ts + "|"@ + method + "|"@ + path
}

/// The signature that a request with these parts must carry.
pub open spec fn expected_signature(
    secret: Seq<char>,
    ts: Seq<char>,
    method: Seq<char>,
    path: Seq<char>,
) -> Seq<char> {
    base64_standard_spec(
        hmac_sha256_spec(encode_utf8(secret), encode_utf8(signing_string(ts, method, path))),
    )
}

/// The distance between two instants.
pub open spec fn drift(now: int, ts: int) -> int {
    if now > ts {
        now - ts
    } else {
        ts - now
    }
}

/// The verdict on a request under `secret` at time `now`.
pub open spec fn verify_spec(req: AuthRequest, secret: Seq<char>, now: int) -> Result<(), AuthError> {
    match req.timestamp {
        None => Err(AuthError::MissingTimestamp),
        Some(ts) => match req.signature {
            None => Err(AuthError::MissingSignature),
            Some(sig) => match parse_unsigned_spec(ts@, u64::MAX as int) {
                None => Err(AuthError::InvalidTimestamp),
                Some(t) => if drift(now, t) > MAX_TIMESTAMP_DRIFT_SECS {
                    Err(AuthError::TimestampExpired)
                } else if sig@ == expected_signature(secret, ts@, req.method@, req.path@) {
                    Ok(())
                } else {
                    Err(AuthError::InvalidSignature)
                },
            },
        },
    }
}

/// What is wrong with the headers of a request, before the clock is read:
/// a missing timestamp, a missing signature, a timestamp that is not a
/// decimal number of seconds.
pub open spec fn header_error(req: AuthRequest) -> Option<AuthError> {
    match req.timestamp {
        None => Some(AuthError::MissingTimestamp),
        Some(ts) => match req.signature {
            None => Some(AuthError::MissingSignature),
            Some(_) => match parse_unsigned_spec(ts@, u64::MAX as int) {
                None => Some(AuthError::InvalidTimestamp),
                Some(_) => None,
            },
        },
    }
}

/// The verdict on `req` under `secret` read against the machine's clock:
/// header errors come first; then the clock is read, and a clock before the
/// epoch refuses the request; otherwise it is the verdict at some time the
/// clock read.
pub open spec fn clock_verdict(req: AuthRequest, secret: Seq<char>, r: Result<(), AuthError>) -> bool {
    match header_error(req) {
        Some(e) => r == Err::<(), AuthError>(e),
        None => r == Err::<(), AuthError>(AuthError::ClockUnavailable) || exists|now: u64|
            r == verify_spec(req, secret, now as int),
    }
}

/// The verdict of the middleware: development mode lets every request in;
/// otherwise the request must be signed under the configured secret.
pub open spec fn check_spec(req: AuthRequest, secret: Option<String>, dev_mode: bool, now: int) -> Result<
    (),
    AuthError,
> {
    if dev_mode {
        Ok(())
    } else {
        match secret {
            Some(s) => verify_spec(req, s@, now),
            None => Err(AuthError::NoSecret),
        }
    }
}

/// Checks the timestamp and signature of `req` against `secret`, with the
/// clock reading `now`.
pub fn verify_hmac_at(req: &AuthRequest, secret: &str, now: u64) -> (r: Result<(), AuthError>)
    ensures
        r == verify_spec(*req, secret@, now as int),
{
    let timestamp = match &req.timestamp {
        Some(t) => t,
        None => return Err(AuthError::MissingTimestamp),
    };
    let signature = match &req.signature {
        Some(s) => s,
        None => return Err(AuthError::MissingSignature),
    };
    let ts = match crate::decimal::parse_unsigned(timestamp.as_str(), u64::MAX) {
        Some(t) => t,
        None => return Err(AuthError::InvalidTimestamp),
    };
    let d = if now > ts {
        now - ts
    } else {
        ts - now
    };
    if d > MAX_TIMESTAMP_DRIFT_SECS {
        return Err(AuthError::TimestampExpired);
    }
    let mut message = timestamp.clone();
    push_str(&mut message, "|");
    push_str(&mut message, req.method.as_str());
    push_str(&mut message, "|");
    push_str(&mut message, req.path.as_str());
    assert(message@ =~= signing_string(timestamp@, req.method@, req.path@));
    let tag = match hmac_sha256(secret.as_bytes(), message.as_str().as_bytes()) {
        Ok(t) => t,
        Err(_) => return Err(AuthError::HmacFailure),
    };
    let expected = base64_standard(tag.as_slice());
    if !str_eq(signature.as_str(), expected.as_str()) {
        return Err(AuthError::InvalidSignature);
    }
    Ok(())
}

/// Checks the timestamp and signature of `req` against `secret` at the
/// current time of the machine's clock; a clock that reads before the Unix
/// epoch refuses the request.
pub fn verify_hmac(req: &AuthRequest, secret: &str) -> (r: Result<(), AuthError>)
    ensures
        clock_verdict(*req, secret@, r),
{
    match unix_now() {
        Some(now) => {
            let r = verify_hmac_at(req, secret, now);
            assert(header_error(*req) matches Some(e) ==> r == Err::<(), AuthError>(e));
            r
        },
        None => match header_check(req) {
            Some(e) => Err(e),
            None => Err(AuthError::ClockUnavailable),
        },
    }
}

/// What is wrong with the headers of `req`, if anything.
fn header_check(req: &AuthRequest) -> (r: Option<AuthError>)
    ensures
        r == header_error(*req),
{
    match &req.timestamp {
        None => Some(AuthError::MissingTimestamp),
        Some(ts) => match &req.signature {
            None => Some(AuthError::MissingSignature),
            Some(_) => match crate::decimal::parse_unsigned(ts.as_str(), u64::MAX) {
                None => Some(AuthError::InvalidTimestamp),
                Some(_) => None,
            },
        },
    }
}

/// The verdict of the middleware read against the machine's clock:
/// development mode lets every request in; without a secret every request is
/// refused; otherwise the request is verified under the secret.
pub open spec fn check_verdict(req: AuthRequest, secret: Option<String>, dev_mode: bool, r: Result<(), AuthError>) -> bool {
    if dev_mode {
        r == Ok::<(), AuthError>(())
    } else {
        match secret {
            Some(s) => clock_verdict(req, s@, r),
            None => r == Err::<(), AuthError>(AuthError::NoSecret),
        }
    }
}

/// The middleware's check with the clock reading `now`.
pub fn check_auth_at(req: &AuthRequest, secret: &Option<String>, dev_mode: bool, now: u64) -> (r:
    Result<(), AuthError>)
    ensures
        r == check_spec(*req, *secret, dev_mode, now as int),
{
    if dev_mode {
        return Ok(());
    }
    match secret {
        Some(s) => verify_hmac_at(req, s.as_str(), now),
        None => Err(AuthError::NoSecret),
    }
}

/// The middleware's check: `Ok` in development mode, else a valid signature
/// under the configured secret at the current time (a clock before the Unix
/// epoch refuses the request).
pub fn check_auth(req: &AuthRequest, secret: &Option<String>, dev_mode: bool) -> (r: Result<
    (),
    AuthError,
>)
    ensures
        check_verdict(*req, *secret, dev_mode, r),
{
    if dev_mode {
        return Ok(());
    }
    match secret {
        Some(s) => verify_hmac(req, s.as_str()),
        None => Err(AuthError::NoSecret),
    }
}

/// A copy of an optional string with the same view.
pub fn clone_opt_string(s: &Option<String>) -> (r: Option<String>)
    ensures
        r == *s,
{
    match s {
        Some(v) => Some(v.clone()),
        None => None,
    }
}

/// The authentication layer in front of the mail routes.
pub struct AuthMiddleware {
    pub secret: Option<String>,
    pub dev_mode: bool,
}

/// The authentication layer wrapped around one service.
pub struct AuthMiddlewareService<S> {
    pub service: Rc<S>,
    pub secret: Option<String>,
    pub dev_mode: bool,
}

impl AuthMiddleware {
    pub fn new(secret: Option<String>, dev_mode: bool) -> (r: AuthMiddleware)
        ensures
            r.secret == secret,
            r.dev_mode == dev_mode,
    {
        AuthMiddleware { secret, dev_mode }
    }

    /// The layer around `service`, with this layer's settings.
    pub fn new_transform<S>(&self, service: S) -> (r: AuthMiddlewareService<S>)
        ensures
            *r.service == service,
            r.secret == self.secret,
            r.dev_mode == self.dev_mode,
    {
        AuthMiddlewareService {
            service: Rc::new(service),
            secret: clone_opt_string(&self.secret),
            dev_mode: self.dev_mode,
        }
    }
}

impl<S> AuthMiddlewareService<S> {
    /// Whether a request may reach the wrapped service.
    pub fn check(&self, req: &AuthRequest) -> (r: Result<(), AuthError>)
        ensures
            check_verdict(*req, self.secret, self.dev_mode, r),
    {
        check_auth(req, &self.secret, self.dev_mode)
    }
}

// ---------------------------------------------------------------------------
// Laws
// ---------------------------------------------------------------------------

/// In development mode every request is let in, whatever it carries and
/// whatever the clock says.
pub proof fn law_dev_mode_admits_all(req: AuthRequest, secret: Option<String>, now: int)
    ensures
        check_spec(req, secret, true, now) == Ok::<(), AuthError>(()),
{
}

/// Outside development mode, a request whose timestamp header is the decimal
/// form of a time within the allowed drift of the clock, and whose signature
/// is the base64 HMAC-SHA256 of `timestamp|method|path` under the secret, is
/// accepted.
pub proof fn law_signed_request_accepted(req: AuthRequest, secret: Seq<char>, now: int, t: u64)
    requires
        req.timestamp matches Some(ts) && ts@ == crate::decimal::nat_str(t as nat),
        req.signature matches Some(sig) && sig@ == expected_signature(
            secret,
            req.timestamp->0@,
            req.method@,
            req.path@,
        ),
        drift(now, t as int) <= MAX_TIMESTAMP_DRIFT_SECS,
    ensures
        verify_spec(req, secret, now) == Ok::<(), AuthError>(()),
{
    crate::decimal::lemma_parse_nat_str(t as nat, u64::MAX as int);
}

/// A request is accepted only if it carries both headers, its timestamp is
/// within the allowed drift of the clock, and its signature is exactly the
/// expected one for its own timestamp, method and path.
pub proof fn law_accepted_request_is_signed(req: AuthRequest, secret: Seq<char>, now: int)
    requires
        verify_spec(req, secret, now) == Ok::<(), AuthError>(()),
    ensures
        req.timestamp is Some,
        req.signature is Some,
        parse_unsigned_spec(req.timestamp->0@, u64::MAX as int) matches Some(t) && drift(now, t)
            <= MAX_TIMESTAMP_DRIFT_SECS,
        req.signature->0@ == expected_signature(
            secret,
            req.timestamp->0@,
            req.method@,
            req.path@,
        ),
{
}

/// Without a secret, and outside development mode, every request is refused
/// with `NoSecret`.
pub proof fn law_no_secret_refuses_all(req: AuthRequest, now: int)
    ensures
        check_spec(req, None, false, now) == Err::<(), AuthError>(AuthError::NoSecret),
{
}

} // verus!
