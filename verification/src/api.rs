//! The license server's interface: where each request goes, what its body
//! holds, and what a refused registration is answered.

use vstd::prelude::*;
use crate::json::{json_quote, json_string, json_string_member, lemma_json_string_round_trip, read_json_string, string_member};
use crate::text::{signed_decimal, signed_decimal_text};

verus! {

#[verifier::external_type_specification]
#[verifier::external_body]
pub struct ExHttpClient(reqwest::Client);

/// Copies a client handle with `reqwest::Client::clone`. Trusted: nothing is
/// claimed of the copy (it shares the original's connection pool).
pub assume_specification[ <reqwest::Client as std::clone::Clone>::clone ](client: &reqwest::Client) -> reqwest::Client;

/// Seconds after which a request to the license server is given up.
pub const API_TIMEOUT_SECS: u64 = 3;

/// The status with which the server accepts a registration.
pub const STATUS_OK: u16 = 200;

/// The message of a refused registration whose reply names no error.
pub const UNKNOWN_ACTIVATION_ERROR: &'static str = "Activation failed with unknown error";

/// The root of the server's interface on `host` at `port`.
pub open spec fn base_url_for(host: Seq<char>, port: int) -> Seq<char> {
    "https://"@ + host + ":"@ + signed_decimal(port) + "/api"@
}

/// The body of a request that names a license by its key.
pub open spec fn license_body(value: Seq<char>) -> Seq<char> {
    "{\"value\":"@ + json_string(value) + "}"@
}

/// The body of a registration: the key and this machine's id. The members
/// stand in name order, the order in which `serde_json` writes an object
/// whose map keeps its keys sorted (its default, without `preserve_order`);
/// the server reads the members by name.
pub open spec fn registration_body(value: Seq<char>, hwid: Seq<char>) -> Seq<char> {
    "{\"hwid\":"@ + json_string(hwid) + ",\"value\":"@ + json_string(value) + "}"@
}

/// A license request names the whole key: its body is the object
/// `{"value": ..}` whose member reads back, through a JSON reader, as exactly
/// the key handed in, whatever its length.
pub proof fn lemma_license_body_round_trip(value: Seq<char>)
    ensures
        exists|k: Seq<char>|
            license_body(value) == "{\"value\":"@ + k + "}"@ && #[trigger] read_json_string(k) == Some(value),
{
    lemma_json_string_round_trip(value);
    assert(read_json_string(json_string(value)) == Some(value));
}

/// A registration sends the whole key and the whole machine id: its body is
/// the object `{"hwid": .., "value": ..}` whose members read back, through a
/// JSON reader, as exactly the machine id and the key handed in, whatever
/// their length.
pub proof fn lemma_registration_body_round_trip(value: Seq<char>, hwid: Seq<char>)
    ensures
        exists|j: Seq<char>, k: Seq<char>|
            registration_body(value, hwid) == "{\"hwid\":"@ + j + ",\"value\":"@ + k + "}"@
                && #[trigger] read_json_string(j) == Some(hwid) && #[trigger] read_json_string(k) == Some(value),
{
    lemma_json_string_round_trip(value);
    lemma_json_string_round_trip(hwid);
    assert(read_json_string(json_string(hwid)) == Some(hwid) && read_json_string(json_string(value)) == Some(value));
}

/// What a refused registration is answered, given the reply's body: the
/// parser's message where the body is not JSON, the reply's `error` member
/// where it is a string, and a fixed message otherwise.
pub open spec fn rejection_message(body: Seq<char>) -> Seq<char> {
    match json_string_member(body, "error"@) {
        Err(e) => e,
        Ok(Some(m)) => m,
        Ok(None) => UNKNOWN_ACTIVATION_ERROR@,
    }
}

/// Builds an HTTP client with `reqwest::Client::builder().timeout(..).build()`,
/// its error turned into its message. Trusted: a client that comes back was
/// built with the timeout of `timeout_secs` seconds handed to the builder, and
/// that timeout is returned beside it; whether a client comes back depends on
/// the machine's TLS set-up and proxy settings and is not stated.
#[verifier::external_body]
fn build_http_client(timeout_secs: u64) -> (r: Result<(reqwest::Client, u64), String>)
    ensures
        r matches Ok(built) ==> built.1 == timeout_secs,
{
    match reqwest::Client::builder().timeout(std::time::Duration::from_secs(timeout_secs)).build() {
        Ok(client) => Ok((client, timeout_secs)),
        Err(e) => Err(e.to_string()),
    }
}

/// A handle on the license server: the root of its interface, the HTTP
/// client that talks to it, and the seconds after which that client gives up
/// a request.
#[derive(Clone)]
pub struct Api {
    pub base_url: String,
    pub client: reqwest::Client,
    pub timeout_secs: u64,
}

impl Api {
    /// The server on `host` at `port`, over HTTPS, reached with a client that
    /// gives up a request after `API_TIMEOUT_SECS` seconds. `Err` carries the
    /// client library's message where no client could be built.
    pub fn new(host: &str, port: &i32) -> (r: Result<Api, String>)
        ensures
            r matches Ok(api) ==> api.base_url@ == base_url_for(host@, *port as int),
            r matches Ok(api) ==> api.timeout_secs == API_TIMEOUT_SECS,
    {
        let (client, timeout_secs) = build_http_client(API_TIMEOUT_SECS)?;
        Ok(Api::with_client(host, port, client, timeout_secs))
    }

    /// The server on `host` at `port`, reached with `client`, which gives up a
    /// request after `timeout_secs` seconds.
    pub fn with_client(host: &str, port: &i32, client: reqwest::Client, timeout_secs: u64) -> (r: Api)
        ensures
            r.base_url@ == base_url_for(host@, *port as int),
            r.client == client,
            r.timeout_secs == timeout_secs,
    {
        let mut base_url = String::from_str("https://");
        base_url.append(host);
        base_url.append(":");
        let port_text = signed_decimal_text(*port);
        base_url.append(port_text.as_str());
        base_url.append("/api");
        Api { base_url, client, timeout_secs }
    }

    /// Where a registration is sent.
    pub fn register_url(&self) -> (r: String)
        ensures
            r@ == self.base_url@ + "/register"@,
    {
        let mut url = self.base_url.clone();
        url.append("/register");
        url
    }

    /// Where a revocation is sent.
    pub fn revoke_url(&self) -> (r: String)
        ensures
            r@ == self.base_url@ + "/revoke"@,
    {
        let mut url = self.base_url.clone();
        url.append("/revoke");
        url
    }

    /// Where the current state of a license is asked for.
    pub fn get_license_url(&self) -> (r: String)
        ensures
            r@ == self.base_url@ + "/get_license"@,
    {
        let mut url = self.base_url.clone();
        url.append("/get_license");
        url
    }
}

/// The JSON body `{"value": value}` of a revocation or a license query.
pub fn license_request_body(value: &str) -> (r: String)
    ensures
        r@ == license_body(value@),
        exists|k: Seq<char>| r@ == "{\"value\":"@ + k + "}"@ && #[trigger] read_json_string(k) == Some(value@),
{
    proof {
        lemma_license_body_round_trip(value@);
    }
    let mut body = String::from_str("{\"value\":");
    let quoted = json_quote(value);
    body.append(quoted.as_str());
    body.append("}");
    body
}

/// The JSON body `{"value": value, "hwid": hwid}` of a registration.
pub fn registration_request_body(value: &str, hwid: &str) -> (r: String)
    ensures
        r@ == registration_body(value@, hwid@),
        exists|j: Seq<char>, k: Seq<char>|
            r@ == "{\"hwid\":"@ + j + ",\"value\":"@ + k + "}"@
                && #[trigger] read_json_string(j) == Some(hwid@) && #[trigger] read_json_string(k) == Some(value@),
{
    proof {
        lemma_registration_body_round_trip(value@, hwid@);
    }
    let mut body = String::from_str("{\"hwid\":");
    let quoted_hwid = json_quote(hwid);
    body.append(quoted_hwid.as_str());
    body.append(",\"value\":");
    let quoted_value = json_quote(value);
    body.append(quoted_value.as_str());
    body.append("}");
    body
}

/// Whether the server accepted a registration, by the reply's status.
pub fn registration_accepted(status: u16) -> (r: bool)
    ensures
        r == (status == STATUS_OK),
{
    status == STATUS_OK
}

/// The message with which a refused registration fails, from the reply's body.
pub fn registration_rejection(body: &str) -> (r: String)
    ensures
        r@ == rejection_message(body@),
{
    match string_member(body, "error") {
        Err(e) => e,
        Ok(Some(message)) => message,
        Ok(None) => String::from_str(UNKNOWN_ACTIVATION_ERROR),
    }
}

} // verus!
