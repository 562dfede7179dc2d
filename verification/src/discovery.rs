//! Discovery: asking the public discovery service where the bridge is.

use vstd::prelude::*;
use vstd::string::*;
use serde_json::Value;
use crate::config::{AliasTable, Config, ConfigView};
use crate::exchange::{
    failed_contact, spec_failed_contact, Method, Reading, Request, RequestView, Response,
    DISCOVERY_URL, STATUS_OK,
};
use crate::json::{
    json_document, json_items, parse_document, read_text, read_unsigned, text_field,
    unsigned_field,
};
use crate::text::text_views;

verus! {

/// The request to the discovery service.
pub open spec fn spec_discover_request() -> RequestView {
    RequestView {
        method: Method::Get,
        url: DISCOVERY_URL@,
        body: Seq::empty(),
        reading: Reading::BodyIfOk,
    }
}

/// Builds the request to the discovery service.
pub fn discover_request() -> (request: Request)
    ensures
        request@ == spec_discover_request(),
{
    Request {
        method: Method::Get,
        url: String::from_str(DISCOVERY_URL),
        body: String::new(),
        reading: Reading::BodyIfOk,
    }
}

/// Why discovery gave no bridge.
#[derive(Clone, Copy, Debug, PartialEq, Eq, Structural)]
pub enum DiscoveryError {
    /// The service answered with this status, which is not 200.
    Status(u16),
    /// The body is not a JSON array of bridge records.
    Malformed,
    /// The service knows of no bridge.
    NoBridge,
}

/// The address in a bridge record: that of an object with strings `id` and
/// `internalipaddress` and a whole number `port`.
pub open spec fn spec_bridge_address(value: Value) -> Option<Seq<char>> {
    if text_field(value, "id"@) is Some && unsigned_field(value, "port"@) is Some {
        text_field(value, "internalipaddress"@)
    } else {
        None
    }
}

/// The addresses in the records of an array, in the same order; `None` where
/// one of the elements is no bridge record.
pub open spec fn spec_bridge_addresses(items: Seq<Value>) -> Option<Seq<Seq<char>>> {
    if forall|i: int| 0 <= i < items.len() ==> spec_bridge_address(#[trigger] items[i]) is Some {
        Some(items.map_values(|item: Value| spec_bridge_address(item)->Some_0))
    } else {
        None
    }
}

/// The configuration for a bridge that has just been found at `address`:
/// nothing is kept of what was known of an earlier bridge.
pub open spec fn spec_found(address: Seq<char>) -> ConfigView {
    ConfigView { url: address, username: Seq::empty(), aliases: Map::empty() }
}

/// What the addresses that the service listed mean: the first one counts.
pub open spec fn spec_choose_bridge(addresses: Seq<Seq<char>>) -> Result<
    ConfigView,
    DiscoveryError,
> {
    if addresses.len() == 0 {
        Err(DiscoveryError::NoBridge)
    } else {
        Ok(spec_found(addresses[0]))
    }
}

/// What a response of the discovery service means.
pub open spec fn spec_discover(status: u16, body: Seq<char>) -> Result<ConfigView, DiscoveryError> {
    if status != STATUS_OK {
        Err(DiscoveryError::Status(status))
    } else {
        match json_document(body) {
            None => Err(DiscoveryError::Malformed),
            Some(document) => match json_items(document) {
                None => Err(DiscoveryError::Malformed),
                Some(items) => match spec_bridge_addresses(items) {
                    None => Err(DiscoveryError::Malformed),
                    Some(addresses) => spec_choose_bridge(addresses),
                },
            },
        }
    }
}

/// Reads the address from a bridge record.
pub fn parse_bridge_address(value: &Value) -> (address: Option<String>)
    ensures
        match address {
            Some(found) => spec_bridge_address(*value) == Some(found@),
            None => spec_bridge_address(*value) is None,
        },
{
    let id = read_text(value, "id");
    let port = read_unsigned(value, "port");
    if id.is_some() && port.is_some() {
        read_text(value, "internalipaddress")
    } else {
        None
    }
}

/// Reads the addresses from the bridge records of an array.
pub fn parse_bridge_addresses(items: &Vec<Value>) -> (addresses: Option<Vec<String>>)
    ensures
        match addresses {
            Some(found) => spec_bridge_addresses(items@) == Some(
                text_views(found@),
            ),
            None => spec_bridge_addresses(items@) is None,
        },
{
    let mut addresses: Vec<String> = Vec::new();
    let mut i: usize = 0;
    while i < items.len()
        invariant
            i <= items.len(),
            addresses@.len() == i,
            forall|k: int|
                0 <= k < i ==> spec_bridge_address(#[trigger] items@[k]) == Some(addresses@[k]@),
        decreases items.len() - i,
    {
        match parse_bridge_address(&items[i]) {
            Some(address) => {
                addresses.push(address);
            },
            None => {
                assert(spec_bridge_address(items@[i as int]) is None);
                return None;
            },
        }
        i += 1;
    }
    assert(text_views(addresses@) =~= items@.map_values(
        |item: Value| spec_bridge_address(item)->Some_0,
    ));
    Some(addresses)
}

/// Picks the bridge among the addresses that the service listed, and makes
/// the configuration for it.
pub fn choose_bridge(addresses: &Vec<String>) -> (result: Result<Config, DiscoveryError>)
    ensures
        match result {
            Ok(config) => spec_choose_bridge(text_views(addresses@))
                == Ok::<ConfigView, DiscoveryError>(config@),
            Err(error) => spec_choose_bridge(text_views(addresses@))
                == Err::<ConfigView, DiscoveryError>(error),
        },
{
    if addresses.len() == 0 {
        Err(DiscoveryError::NoBridge)
    } else {
        Ok(Config { url: addresses[0].clone(), username: String::new(), aliases: AliasTable::new() })
    }
}

/// Decides from the response of the discovery service what to store: the
/// configuration for the bridge it found, or why there is none.
pub fn discover(response: &Response) -> (result: Result<Config, DiscoveryError>)
    ensures
        match result {
            Ok(config) => spec_discover(response.status, response.body@) == Ok::<
                ConfigView,
                DiscoveryError,
            >(config@),
            Err(error) => spec_discover(response.status, response.body@) == Err::<
                ConfigView,
                DiscoveryError,
            >(error),
        },
{
    if response.status != STATUS_OK {
        return Err(DiscoveryError::Status(response.status));
    }
    let document = match parse_document(response.body.as_str()) {
        Some(document) => document,
        None => {
            return Err(DiscoveryError::Malformed);
        },
    };
    let items = match document.as_array() {
        Some(items) => items,
        None => {
            return Err(DiscoveryError::Malformed);
        },
    };
    match parse_bridge_addresses(items) {
        Some(addresses) => choose_bridge(&addresses),
        None => Err(DiscoveryError::Malformed),
    }
}

/// Discovery keeps nothing of an earlier bridge: the configuration it gives
/// has the address of the first bridge listed, no credential and no alias.
/// An empty list gives no configuration at all.
pub proof fn lemma_discovery_starts_afresh(status: u16, body: Seq<char>)
    ensures
        match spec_discover(status, body) {
            Ok(found) => {
                let items = json_items(json_document(body)->Some_0)->Some_0;
                let addresses = spec_bridge_addresses(items)->Some_0;
                &&& status == STATUS_OK
                &&& items.len() > 0
                &&& spec_bridge_address(items[0]) == Some(found.url)
                &&& found.url == addresses[0]
                &&& found.username == Seq::<char>::empty()
                &&& found.aliases == Map::<Seq<char>, Seq<char>>::empty()
            },
            Err(_) => true,
        },
        status == STATUS_OK && json_document(body) is Some && json_items(
            json_document(body)->Some_0,
        ) == Some(Seq::<Value>::empty()) ==> spec_discover(status, body) == Err::<
            ConfigView,
            DiscoveryError,
        >(DiscoveryError::NoBridge),
{
    if status == STATUS_OK && json_document(body) is Some {
        let document = json_document(body)->Some_0;
        if json_items(document) is Some {
            let items = json_items(document)->Some_0;
            if items.len() == 0 {
                assert(spec_bridge_addresses(items) is Some);
                assert(spec_bridge_addresses(items)->Some_0.len() == 0);
            }
        }
    }
}

/// The line that tells the operator where the bridge is.
pub open spec fn spec_located(config: ConfigView) -> Seq<char> {
    "Hue bridge is located at "@ + config.url
}

/// Writes the line that tells the operator where the bridge is.
pub fn located(config: &Config) -> (line: String)
    ensures
        line@ == spec_located(config@),
{
    let mut line = String::from_str("Hue bridge is located at ");
    line.append(config.url.as_str());
    line
}

impl DiscoveryError {
    /// Whether the operator can simply try again later: so it is where the
    /// service answered with a status other than 200.
    pub fn is_recoverable(&self) -> (recoverable: bool)
        ensures
            recoverable == (*self is Status),
    {
        match self {
            DiscoveryError::Status(_) => true,
            _ => false,
        }
    }

    /// The line that tells the operator of a status other than 200; `None`
    /// for the other errors.
    pub fn message(&self) -> (line: Option<String>)
        ensures
            match line {
                Some(text) => *self is Status && text@ == spec_failed_contact(self->Status_0),
                None => !(*self is Status),
            },
    {
        match self {
            DiscoveryError::Status(code) => Some(failed_contact(*code)),
            _ => None,
        }
    }
}

} // verus!
