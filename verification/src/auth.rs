//! Decision logic of the HTTP auth client: endpoint URLs, the success
//! rule for HTTP statuses, and the exact error message each failure
//! produces.
//!
//! The transport itself (a cookie-persisting HTTP client) lives outside
//! this crate. It reports what it observed — a transport failure, or a
//! status code and, on success, the outcome of reading the response body —
//! and the functions here turn that observation into the result the
//! command returns: a session token, or a descriptive error string.

use crate::text::append_decimal;
use crate::text::dec_digits;
use crate::text::lemma_dec_digits_injective;
use vstd::prelude::*;

verus! {

/// The credentials a login call forwards, as received from the frontend.
pub struct LoginRequest {
    pub login: String,
    pub password: String,
}

/// The session token a successful login or refresh returns.
pub struct LoginResponse {
    pub access_token: String,
    pub token_type: String,
}

/// The HTTP statuses that count as success.
pub open spec fn status_success(status: u16) -> bool {
    200 <= status < 300
}

/// The message for a transport failure while logging in.
pub open spec fn login_transport_message(cause: Seq<char>) -> Seq<char> {
    "Erreur de connexion: "@ + cause
}

/// The message for a transport failure while refreshing.
pub open spec fn refresh_transport_message(cause: Seq<char>) -> Seq<char> {
    "Erreur de refresh: "@ + cause
}

/// The message for a login rejected with a non-success status. It
/// carries the transport's rendering of the status line (code and
/// reason phrase, e.g. `404 Not Found`), which only the transport can
/// produce.
pub open spec fn login_rejected_message(status_line: Seq<char>) -> Seq<char> {
    "Échec de la connexion: "@ + status_line
}

/// The message for a refresh rejected with a non-success status. The raw
/// numeric status is embedded behind a literal `HTTP_` marker so a caller
/// can branch on it (session expiry versus server error) without parsing
/// free text.
pub open spec fn refresh_rejected_message(status: u16) -> Seq<char> {
    "Échec du refresh: HTTP_"@ + dec_digits(status as nat)
}

/// The message for a well-received response whose body could not be read
/// or parsed as a session token.
pub open spec fn parse_error_message(cause: Seq<char>) -> Seq<char> {
    "Erreur de parsing de la réponse: "@ + cause
}

/// The login error for a transport failure with the given cause.
pub fn login_transport_error(cause: &str) -> (r: String)
    ensures
        r@ == login_transport_message(cause@),
{
    let mut r = String::from_str("Erreur de connexion: ");
    r.append(cause);
    r
}

/// The refresh error for a transport failure with the given cause.
pub fn refresh_transport_error(cause: &str) -> (r: String)
    ensures
        r@ == refresh_transport_message(cause@),
{
    let mut r = String::from_str("Erreur de refresh: ");
    r.append(cause);
    r
}

/// Decides whether a login response's status admits reading the body.
///
/// Success statuses proceed; every other status fails the login with a
/// message carrying `status_line`, the transport's rendering of the
/// status (code and reason phrase) that the shell hands in alongside the
/// numeric code.
pub fn check_login_status(status: u16, status_line: &str) -> (r: Result<(), String>)
    ensures
        r is Ok <==> status_success(status),
        r matches Err(m) ==> m@ == login_rejected_message(status_line@),
{
    if 200 <= status && status < 300 {
        Ok(())
    } else {
        let mut m = String::from_str("Échec de la connexion: ");
        m.append(status_line);
        Err(m)
    }
}

/// Decides whether a refresh response's status admits reading the body.
///
/// Success statuses proceed; every other status fails the refresh with
/// the `HTTP_`-prefixed status code embedded in the message.
pub fn check_refresh_status(status: u16) -> (r: Result<(), String>)
    ensures
        r is Ok <==> status_success(status),
        r matches Err(m) ==> m@ == refresh_rejected_message(status),
{
    if 200 <= status && status < 300 {
        Ok(())
    } else {
        let mut m = String::from_str("Échec du refresh: HTTP_");
        append_decimal(&mut m, status);
        Err(m)
    }
}

/// Turns the outcome of reading a successful response's body into the
/// command's result: a parsed token is returned as is, field for field; a
/// read or parse failure becomes a parse error carrying the cause.
pub fn body_result(body: Result<LoginResponse, String>) -> (r: Result<LoginResponse, String>)
    ensures
        body matches Ok(token) ==> r == Ok::<LoginResponse, String>(token),
        (body matches Err(cause) ==> (r matches Err(m) && m@ == parse_error_message(cause@))),
{
    match body {
        Ok(token) => Ok(token),
        Err(cause) => {
            let mut m = String::from_str("Erreur de parsing de la réponse: ");
            m.append(cause.as_str());
            Err(m)
        },
    }
}

/// Logs out on the backend side. No network call is made here: the remote
/// logout and the credential clearing are the frontend's responsibility,
/// so this hook always succeeds.
pub fn logout() -> (r: Result<(), String>)
    ensures
        r == Ok::<(), String>(()),
{
    Ok(())
}

/// Appends `path` to the configured base URL.
fn endpoint_url(base: &str, path: &str) -> (r: String)
    ensures
        r@ == base@ + path@,
{
    let mut r = String::from_str(base);
    r.append(path);
    r
}

/// The URL the login call posts to.
pub fn login_url(base: &str) -> (r: String)
    ensures
        r@ == base@ + "/auth/login"@,
{
    endpoint_url(base, "/auth/login")
}

/// The URL the refresh call posts to.
pub fn refresh_url(base: &str) -> (r: String)
    ensures
        r@ == base@ + "/auth/refresh"@,
{
    endpoint_url(base, "/auth/refresh")
}

/// The refresh failure message determines the status code: two statuses
/// producing the same message are the same status, so a caller reading
/// the `HTTP_`-prefixed digits recovers the exact code.
pub proof fn lemma_refresh_message_embeds_status(a: u16, b: u16)
    requires
        refresh_rejected_message(a) == refresh_rejected_message(b),
    ensures
        a == b,
{
    let prefix = "Échec du refresh: HTTP_"@;
    let da = dec_digits(a as nat);
    let db = dec_digits(b as nat);
    assert((prefix + da).len() == (prefix + db).len());
    assert(da.len() == db.len());
    assert forall|j: int| 0 <= j < da.len() implies da[j] == db[j] by {
        assert(da[j] == (prefix + da)[prefix.len() + j]);
        assert(db[j] == (prefix + db)[prefix.len() + j]);
    }
    assert(da =~= db);
    lemma_dec_digits_injective(a as nat, b as nat);
}

} // verus!
