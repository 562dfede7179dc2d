//! Probing: finding out whether the bridge answers at all.

use vstd::prelude::*;
use vstd::string::*;
use crate::config::{Config, ConfigView};
use crate::exchange::{
    base_url, spec_base_url, Method, Reading, Request, RequestView, STATUS_OK,
};

verus! {

/// The request that probes the bridge.
pub open spec fn spec_test_request(config: ConfigView) -> RequestView {
    RequestView {
        method: Method::Get,
        url: spec_base_url(config),
        body: Seq::empty(),
        reading: Reading::Status,
    }
}

/// Builds the request that probes the bridge.
pub fn test_request(config: &Config) -> (request: Request)
    ensures
        request@ == spec_test_request(config@),
{
    Request {
        method: Method::Get,
        url: base_url(config),
        body: String::new(),
        reading: Reading::Status,
    }
}

/// The line that tells the operator how the probe went.
pub open spec fn spec_test_line(config: ConfigView, status: u16) -> Seq<char> {
    if status == STATUS_OK {
        "Able to connect to the hue bridge on "@ + spec_base_url(config)
    } else {
        "Issue connecting to the hue bridge "@ + spec_base_url(config)
    }
}

/// Tells from the status of the bridge's answer whether the bridge can be
/// reached, and writes the line that says so.
pub fn test(config: &Config, status: u16) -> (result: (bool, String))
    ensures
        result.0 == (status == STATUS_OK),
        result.1@ == spec_test_line(config@, status),
{
    let url = base_url(config);
    if status == STATUS_OK {
        let mut line = String::from_str("Able to connect to the hue bridge on ");
        line.append(url.as_str());
        (true, line)
    } else {
        let mut line = String::from_str("Issue connecting to the hue bridge ");
        line.append(url.as_str());
        (false, line)
    }
}

} // verus!
