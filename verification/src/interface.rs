//! The session manager: login handshake, credential storage, and
//! authenticated PUT requests against a ship's HTTP control API.

use vstd::prelude::*;
use vstd::string::StringExecFns;
use crate::auth::{derivable, derive_identity, first_eq_from, identity_of, lemma_identity_has_no_eq,
    lemma_identity_nonempty, IDENTITY_OFFSET};
use crate::error::UrbitAPIError;
use json::JsonValue;
use reqwest::blocking::{Client, Response};

verus! {

#[verifier::external_type_specification]
#[verifier::external_body]
pub struct ExClient(Client);

#[verifier::external_type_specification]
#[verifier::external_body]
pub struct ExResponse(Response);

#[verifier::external_type_specification]
#[verifier::external_body]
pub struct ExJsonValue(JsonValue);

/// The canonical JSON text of a value; it depends on the value alone.
pub uninterp spec fn json_text(v: JsonValue) -> Seq<char>;

/// Relies on reqwest::blocking::Client's derived `Clone`: a clone is another
/// handle to the same underlying client; nothing further is assumed of it.
pub assume_specification[ <Client as Clone>::clone ](c: &Client) -> Client;

/// Relies on reqwest::blocking::ClientBuilder::build: yields a reusable
/// blocking HTTP client, or a setup error with its description.
#[verifier::external_body]
fn make_client() -> (r: Result<Client, UrbitAPIError>)
    ensures
        r matches Err(e) ==> e matches UrbitAPIError::NetworkError(_),
{
    Client::builder()
        .build()
        .map_err(|e| UrbitAPIError::NetworkError(format!("{}", e)))
}

/// Relies on reqwest::blocking::Client: sends an HTTP POST to `url` whose
/// request body is `body`, and returns the response's status code together
/// with the text of its `set-cookie` header (`None` when the header is
/// absent or its value is not valid text). A transport failure comes back
/// as its description.
#[verifier::external_body]
fn post_login(client: &Client, url: &str, body: &str) -> (r: Result<(u16, Option<String>), UrbitAPIError>)
    ensures
        r matches Err(e) ==> e matches UrbitAPIError::NetworkError(_),
{
    let resp = client
        .post(url)
        .body(body.to_string())
        .send()
        .map_err(|e| UrbitAPIError::NetworkError(format!("{}", e)))?;
    let status = resp.status().as_u16();
    let cookie = match resp.headers().get("set-cookie") {
        Some(v) => v.to_str().ok().map(|s| s.to_string()),
        None => None,
    };
    Ok((status, cookie))
}

/// Relies on json::JsonValue::dump: serializes the value to its JSON text,
/// which depends on the value alone.
#[verifier::external_body]
fn dump_json(v: &JsonValue) -> (r: String)
    ensures
        r@ == json_text(*v),
{
    v.dump()
}

/// Relies on reqwest::blocking::Client: sends an HTTP PUT to `url` with a
/// `Cookie` header holding exactly `cookie`, a `Content-Type` header of
/// `application/json`, and `body` as the request body; the raw response is
/// returned unmodified. A transport failure comes back as its description.
#[verifier::external_body]
fn http_put(client: &Client, url: &str, cookie: &str, body: String) -> (r: Result<Response, UrbitAPIError>)
    ensures
        r matches Err(e) ==> e matches UrbitAPIError::NetworkError(_),
{
    client
        .put(url)
        .header(reqwest::header::COOKIE, cookie)
        .header("Content-Type", "application/json")
        .body(body)
        .send()
        .map_err(|e| UrbitAPIError::NetworkError(format!("{}", e)))
}

/// The login endpoint for a ship at `ship_url`: `{ship_url}/~/login`.
pub fn login_url(ship_url: &str) -> (r: String)
    ensures
        r@ == ship_url@ + "/~/login"@,
{
    String::from_str(ship_url).concat("/~/login")
}

/// The login request's body for a given code: `password={ship_code}`.
pub fn login_body(ship_code: &str) -> (r: String)
    ensures
        r@ == "password="@ + ship_code@,
{
    String::from_str("password=").concat(ship_code)
}

/// What a successful login yields: the verbatim credential and the identity
/// derived from it.
pub struct SessionTokens {
    /// The `set-cookie` value, kept verbatim.
    pub session_auth: String,
    /// The identity derived from `session_auth`.
    pub ship_name: String,
}

/// Decides the outcome of a login exchange from the response's status code
/// and `set-cookie` text. It succeeds exactly when the status is 204, the
/// header is present, and an identity can be derived from it; every other
/// outcome is `FailedToLogin`.
pub fn login_outcome(status: u16, set_cookie: Option<String>) -> (r: Result<SessionTokens, UrbitAPIError>)
    ensures
        match r {
            Ok(t) => status == 204 && (set_cookie matches Some(c) && derivable(c@)
                && t.session_auth@ == c@ && t.ship_name@ == identity_of(c@)),
            Err(e) => (e matches UrbitAPIError::FailedToLogin) && (status != 204
                || set_cookie is None || (set_cookie matches Some(c) && !derivable(c@))),
        },
{
    if status != 204 {
        return Err(UrbitAPIError::FailedToLogin);
    }
    match set_cookie {
        None => Err(UrbitAPIError::FailedToLogin),
        Some(cookie) => match derive_identity(cookie.as_str()) {
            None => Err(UrbitAPIError::FailedToLogin),
            Some(name) => Ok(SessionTokens { session_auth: cookie, ship_name: name }),
        },
    }
}

/// What an authenticated PUT puts on the wire: the target URL, the `Cookie`
/// header's value, and the serialized JSON body.
pub struct PutRequestParts {
    /// The caller-supplied absolute target URL.
    pub url: String,
    /// The `Cookie` header's value: the stored credential, verbatim.
    pub cookie: String,
    /// The payload's JSON text, sent as the request body.
    pub body_text: String,
}

/// Assembles the parts of an authenticated PUT from a session credential, a
/// target URL and a JSON payload: the credential goes, verbatim, into the
/// `Cookie` value, and the payload's JSON text becomes the body.
pub fn assemble_put_parts(session_auth: &str, url: &str, body: &JsonValue) -> (r: PutRequestParts)
    ensures
        r.url@ == url@,
        r.cookie@ == session_auth@,
        r.body_text@ == json_text(*body),
{
    PutRequestParts {
        url: String::from_str(url),
        cookie: String::from_str(session_auth),
        body_text: dump_json(body),
    }
}

/// The parts of an authenticated PUT are a function of the session's
/// credential and the call's arguments alone: two calls with the same
/// inputs assemble byte-identical requests, so repeated PUTs are
/// independent, with nothing cached or deduplicated between them.
pub proof fn lemma_put_parts_deterministic(
    p1: PutRequestParts,
    p2: PutRequestParts,
    url: Seq<char>,
    cookie: Seq<char>,
    body: JsonValue,
)
    requires
        p1.url@ == url && p1.cookie@ == cookie && p1.body_text@ == json_text(body),
        p2.url@ == url && p2.cookie@ == cookie && p2.body_text@ == json_text(body),
    ensures
        p1.url@ == p2.url@,
        p1.cookie@ == p2.cookie@,
        p1.body_text@ == p2.body_text@,
{
}

/// The reusable HTTP transport context of one session; it carries no
/// session state of its own and cannot be constructed outside the library.
#[derive(Debug, Clone)]
pub struct Transport {
    client: Client,
}

/// Holds the details for one authenticated session with a ship: created
/// only by a successful login, and replaying that login's credential on
/// every request issued through it.
#[derive(Debug, Clone)]
pub struct ShipInterface {
    /// The URL of the ship given as `http://ip:port` such as
    /// `http://0.0.0.0:8080`.
    pub url: String,
    /// The session credential: the login response's `set-cookie` value,
    /// kept verbatim and replayed on every authenticated request.
    pub session_auth: String,
    /// The ship name, derived from `session_auth`.
    pub ship_name: String,
    /// The transport context reused for every request of this session.
    pub req_client: Transport,
}

impl ShipInterface {
    /// A session is well formed when its identity is derivable from its
    /// credential and is exactly the derived one.
    pub open spec fn wf(self) -> bool {
        &&& derivable(self.session_auth@)
        &&& self.ship_name@ == identity_of(self.session_auth@)
    }

    /// An established session's identity never contains an `=` character,
    /// and it is non-empty whenever the credential's first `=` sits strictly
    /// after the fixed prefix, as it does in every credential a ship issues
    /// for a named identity.
    pub proof fn lemma_established_identity(self)
        requires
            self.wf(),
        ensures
            forall|k: int| 0 <= k < self.ship_name@.len() ==> self.ship_name@[k] != '=',
            first_eq_from(self.session_auth@, 0) > IDENTITY_OFFSET ==> self.ship_name@.len() > 0,
    {
        lemma_identity_has_no_eq(self.session_auth@);
        if first_eq_from(self.session_auth@, 0) > IDENTITY_OFFSET {
            lemma_identity_nonempty(self.session_auth@);
        }
    }

    /// Logs into the ship at `ship_url` (given as `http://ip:port`) with the
    /// code `ship_code`, by an HTTP POST of `password={ship_code}` to
    /// `{ship_url}/~/login`. On success the returned interface holds the
    /// response's `set-cookie` value verbatim and the ship name derived from
    /// it; any other response is `FailedToLogin`, and a transport failure is
    /// `NetworkError`.
    pub fn new(ship_url: &str, ship_code: &str) -> (r: Result<ShipInterface, UrbitAPIError>)
        ensures
            r matches Ok(s) ==> s.wf() && s.url@ == ship_url@,
    {
        let client = match make_client() {
            Ok(c) => c,
            Err(e) => {
                return Err(e);
            },
        };
        let url = login_url(ship_url);
        let body = login_body(ship_code);
        let (status, set_cookie) = match post_login(&client, url.as_str(), body.as_str()) {
            Ok(o) => o,
            Err(e) => {
                return Err(e);
            },
        };
        let tokens = match login_outcome(status, set_cookie) {
            Ok(t) => t,
            Err(e) => {
                return Err(e);
            },
        };
        Ok(ShipInterface {
            url: String::from_str(ship_url),
            session_auth: tokens.session_auth,
            ship_name: tokens.ship_name,
            req_client: Transport { client },
        })
    }

    /// Assembles the parts of an authenticated PUT: the target URL, the
    /// stored credential, verbatim, as the `Cookie` value, and the payload's
    /// JSON text as the body.
    pub fn put_request_parts(&self, url: &str, body: &JsonValue) -> (r: PutRequestParts)
        ensures
            r.url@ == url@,
            r.cookie@ == self.session_auth@,
            r.body_text@ == json_text(*body),
    {
        assemble_put_parts(self.session_auth.as_str(), url, body)
    }

    /// Sends an authenticated PUT to `url` carrying `body` as JSON: exactly
    /// the parts assembled by `put_request_parts` go on the wire, and the
    /// raw response is handed back unmodified; interpreting its status is
    /// the caller's business. A transport failure is `NetworkError`.
    pub fn send_put_request(&self, url: &str, body: &JsonValue) -> (r: Result<Response, UrbitAPIError>)
        ensures
            r matches Err(e) ==> e matches UrbitAPIError::NetworkError(_),
    {
        let parts = self.put_request_parts(url, body);
        http_put(&self.req_client.client, parts.url.as_str(), parts.cookie.as_str(), parts.body_text)
    }
}

} // verus!
