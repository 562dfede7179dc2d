//! What the client sends and what it gets back: requests, responses and the
//! addresses of the bridge's resources.

use vstd::prelude::*;
use vstd::string::*;
use crate::config::{Config, ConfigView};
use crate::text::{decimal, render_decimal};

verus! {

/// The public service that knows the bridges of the local network.
pub const DISCOVERY_URL: &'static str = "https://discovery.meethue.com/";

/// The path under which the bridge serves its interface.
pub const BASE_PATH: &'static str = "/api";

/// The name under which this client introduces itself to the bridge.
pub const APPLICATION_NAME: &'static str = "hue-cli";

/// The status of a response that succeeded.
pub const STATUS_OK: u16 = 200;

/// The kind of a request.
#[derive(Clone, Copy, Debug, PartialEq, Eq, Structural)]
pub enum Method {
    Get,
    Post,
    Put,
}

/// How much of the response to a request the client looks at.
#[derive(Clone, Copy, Debug, PartialEq, Eq, Structural)]
pub enum Reading {
    /// The status alone; the body is not read.
    Status,
    /// The body, but only where the status is 200.
    BodyIfOk,
    /// The body, whatever the status.
    Body,
}

impl Reading {
    /// Whether the body of a response with this status is to be read.
    pub fn reads_body(self, status: u16) -> (yes: bool)
        ensures
            yes == match self {
                Reading::Status => false,
                Reading::BodyIfOk => status == STATUS_OK,
                Reading::Body => true,
            },
    {
        match self {
            Reading::Status => false,
            Reading::BodyIfOk => status == STATUS_OK,
            Reading::Body => true,
        }
    }
}

/// One request for the caller to send.
#[derive(Clone, Debug, PartialEq, Eq)]
pub struct Request {
    pub method: Method,
    pub url: String,
    /// The text to send along; empty for a request without a body.
    pub body: String,
    /// What the caller has to read of the response.
    pub reading: Reading,
}

/// A `Request` as plain values.
pub struct RequestView {
    pub method: Method,
    pub url: Seq<char>,
    pub body: Seq<char>,
    pub reading: Reading,
}

impl View for Request {
    type V = RequestView;

    open spec fn view(&self) -> RequestView {
        RequestView { method: self.method, url: self.url@, body: self.body@, reading: self.reading }
    }
}

/// What came back for a request.
#[derive(Clone, Debug, PartialEq, Eq)]
pub struct Response {
    /// The status code of the response.
    pub status: u16,
    /// The body, as far as the request asked for it to be read; else empty.
    pub body: String,
}

/// The phrase that `reqwest::StatusCode` prints after the number of a status
/// code: the standard reason for the code, or a stand-in where the code has
/// none.
pub uninterp spec fn status_reason(code: u16) -> Seq<char>;

/// `reqwest::StatusCode::from_u16`, and for a code that it accepts the text
/// that the status code's `Display` writes. The first takes the numbers from
/// 100 to 999 and no others; the second writes the number in decimal, a
/// space, and a phrase that is a function of the code.
#[verifier::external_body]
fn status_line(code: u16) -> (line: Option<String>)
    ensures
        line is Some <==> 100 <= code <= 999,
        line is Some ==> line->Some_0@ == decimal(code as nat) + " "@ + status_reason(code),
{
    match reqwest::StatusCode::from_u16(code) {
        Ok(status) => Some(status.to_string()),
        Err(_) => None,
    }
}

/// How a status is named in a diagnostic: a status code by its number and
/// its phrase, any other number by itself.
pub open spec fn spec_status_label(code: u16) -> Seq<char> {
    if 100 <= code <= 999 {
        decimal(code as nat) + " "@ + status_reason(code)
    } else {
        decimal(code as nat)
    }
}

/// Names a status for a diagnostic.
pub fn status_label(code: u16) -> (label: String)
    ensures
        label@ == spec_status_label(code),
{
    match status_line(code) {
        Some(text) => text,
        None => render_decimal(code as u64),
    }
}

/// The address of the bridge's interface: `http://{url}/api`.
pub open spec fn spec_base_url(config: ConfigView) -> Seq<char> {
    "http://"@ + config.url + BASE_PATH@
}

/// The address of the bridge's list of lights:
/// `http://{url}/api/{username}/lights`.
pub open spec fn spec_lights_url(config: ConfigView) -> Seq<char> {
    spec_base_url(config) + "/"@ + config.username + "/lights"@
}

/// The address of the state of the light with bridge address `address`:
/// `http://{url}/api/{username}/lights/{address}/state`.
pub open spec fn spec_state_url(config: ConfigView, address: nat) -> Seq<char> {
    spec_lights_url(config) + "/"@ + decimal(address) + "/state"@
}

/// The address of the bridge's interface.
pub fn base_url(config: &Config) -> (url: String)
    ensures
        url@ == spec_base_url(config@),
{
    let mut url = String::from_str("http://");
    url.append(config.url.as_str());
    url.append(BASE_PATH);
    url
}

/// The address of the bridge's list of lights.
pub fn lights_url(config: &Config) -> (url: String)
    ensures
        url@ == spec_lights_url(config@),
{
    let mut url = base_url(config);
    url.append("/");
    url.append(config.username.as_str());
    url.append("/lights");
    url
}

/// The address of the state of one light.
pub fn state_url(config: &Config, address: u64) -> (url: String)
    ensures
        url@ == spec_state_url(config@, address as nat),
{
    let mut url = lights_url(config);
    url.append("/");
    url.append(render_decimal(address).as_str());
    url.append("/state");
    url
}

/// The diagnostic for a request that the discovery service or the bridge
/// answered with a status other than 200.
pub open spec fn spec_failed_contact(code: u16) -> Seq<char> {
    "Failed to contact "@ + DISCOVERY_URL@ + ". Status code: "@ + spec_status_label(code)
}

/// Writes the diagnostic for a response with a status other than 200.
pub fn failed_contact(code: u16) -> (line: String)
    ensures
        line@ == spec_failed_contact(code),
{
    let mut line = String::from_str("Failed to contact ");
    line.append(DISCOVERY_URL);
    line.append(". Status code: ");
    line.append(status_label(code).as_str());
    line
}

} // verus!
