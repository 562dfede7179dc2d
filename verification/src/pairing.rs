//! Pairing: the handshake in which the bridge, once its link button has been
//! pressed, issues the credential that later requests carry.

use vstd::prelude::*;
use vstd::string::*;
use serde_json::Value;
use crate::config::{Config, ConfigView};
use crate::envelope::{
    error_views, parse_bridge_errors, spec_bridge_errors, BridgeError, BridgeErrorView,
};
use crate::exchange::{
    base_url, spec_base_url, Method, Reading, Request, RequestView, APPLICATION_NAME,
};
use crate::json::{
    json_document, json_items, json_member, member, parse_document, read_text, text_field,
};
use crate::text::text_views;

verus! {

/// What the operator is asked to do before the pairing request is sent.
pub const LINK_BUTTON_PROMPT: &'static str =
    "Press the link button on the hue bridge, then press any button to continue";

/// How this client names itself to the bridge on a device called
/// `device_name`: the application's name, `#`, and the device's name.
pub open spec fn spec_device_identifier(device_name: Seq<char>) -> Seq<char> {
    APPLICATION_NAME@ + "#"@ + device_name
}

/// The body of the pairing request for a device identifier. The identifier
/// is put between the quotes as it is.
pub open spec fn spec_pairing_body(identifier: Seq<char>) -> Seq<char> {
    "{\"devicetype\":\""@ + identifier + "\"}"@
}

/// Names this client on a device called `device_name`.
pub fn device_identifier(device_name: &str) -> (identifier: String)
    ensures
        identifier@ == spec_device_identifier(device_name@),
{
    let mut identifier = String::from_str(APPLICATION_NAME);
    identifier.append("#");
    identifier.append(device_name);
    identifier
}

/// The pairing request of a client that names itself `identifier`.
pub open spec fn spec_login_request(config: ConfigView, identifier: Seq<char>) -> RequestView {
    RequestView {
        method: Method::Post,
        url: spec_base_url(config),
        body: spec_pairing_body(identifier),
        reading: Reading::Body,
    }
}

/// Builds the pairing request for a client that names itself `identifier`.
pub fn login_request(config: &Config, identifier: &str) -> (request: Request)
    ensures
        request@ == spec_login_request(config@, identifier@),
{
    let mut body = String::from_str("{\"devicetype\":\"");
    body.append(identifier);
    body.append("\"}");
    Request { method: Method::Post, url: base_url(config), body, reading: Reading::Body }
}

/// What the bridge answered to a pairing request.
#[derive(Clone, Debug, PartialEq, Eq)]
pub enum PairingReply {
    /// Records of success, each with the credential it carries.
    Granted(Vec<String>),
    /// Records of failure.
    Refused(Vec<BridgeError>),
    /// Neither of the two.
    Unrecognised,
}

/// A `PairingReply` as plain values.
pub enum PairingReplyView {
    Granted(Seq<Seq<char>>),
    Refused(Seq<BridgeErrorView>),
    Unrecognised,
}

impl View for PairingReply {
    type V = PairingReplyView;

    open spec fn view(&self) -> PairingReplyView {
        match self {
            PairingReply::Granted(usernames) => PairingReplyView::Granted(text_views(usernames@)),
            PairingReply::Refused(errors) => PairingReplyView::Refused(error_views(errors@)),
            PairingReply::Unrecognised => PairingReplyView::Unrecognised,
        }
    }
}

/// The credential that a JSON value grants: that of an object whose member
/// `success` has a string `username`.
pub open spec fn spec_username(value: Value) -> Option<Seq<char>> {
    match json_member(value, "success"@) {
        Some(inner) => text_field(inner, "username"@),
        None => None,
    }
}

/// The credentials that the elements of an array grant, in the same order;
/// `None` where one of the elements grants none.
pub open spec fn spec_usernames(items: Seq<Value>) -> Option<Seq<Seq<char>>> {
    if forall|i: int| 0 <= i < items.len() ==> spec_username(#[trigger] items[i]) is Some {
        Some(items.map_values(|item: Value| spec_username(item)->Some_0))
    } else {
        None
    }
}

/// What a parsed answer to a pairing request is. An array whose elements all
/// grant a credential is a success, the empty array too; failing that, an
/// array whose elements all record a failure is a refusal.
pub open spec fn spec_pairing_document(document: Value) -> PairingReplyView {
    match json_items(document) {
        None => PairingReplyView::Unrecognised,
        Some(items) => match spec_usernames(items) {
            Some(usernames) => PairingReplyView::Granted(usernames),
            None => match spec_bridge_errors(items) {
                Some(errors) => PairingReplyView::Refused(errors),
                None => PairingReplyView::Unrecognised,
            },
        },
    }
}

/// What the body of an answer to a pairing request is.
pub open spec fn spec_pairing_reply(body: Seq<char>) -> PairingReplyView {
    match json_document(body) {
        None => PairingReplyView::Unrecognised,
        Some(document) => spec_pairing_document(document),
    }
}

/// Reads the credentials that the elements of an array grant.
pub fn parse_usernames(items: &Vec<Value>) -> (usernames: Option<Vec<String>>)
    ensures
        match usernames {
            Some(found) => spec_usernames(items@) == Some(text_views(found@)),
            None => spec_usernames(items@) is None,
        },
{
    let mut usernames: Vec<String> = Vec::new();
    let mut i: usize = 0;
    while i < items.len()
        invariant
            i <= items.len(),
            usernames@.len() == i,
            forall|k: int| 0 <= k < i ==> spec_username(#[trigger] items@[k]) == Some(usernames@[k]@),
        decreases items.len() - i,
    {
        let username = match member(&items[i], "success") {
            Some(inner) => read_text(inner, "username"),
            None => None,
        };
        match username {
            Some(username) => {
                usernames.push(username);
            },
            None => {
                assert(spec_username(items@[i as int]) is None);
                return None;
            },
        }
        i += 1;
    }
    assert(text_views(usernames@) =~= items@.map_values(|item: Value| spec_username(item)->Some_0));
    Some(usernames)
}

/// Tells what a parsed answer to a pairing request is.
pub fn pairing_document(document: &Value) -> (reply: PairingReply)
    ensures
        reply@ == spec_pairing_document(*document),
{
    let items = match document.as_array() {
        Some(items) => items,
        None => {
            return PairingReply::Unrecognised;
        },
    };
    match parse_usernames(items) {
        Some(usernames) => PairingReply::Granted(usernames),
        None => match parse_bridge_errors(items) {
            Some(errors) => PairingReply::Refused(errors),
            None => PairingReply::Unrecognised,
        },
    }
}

/// Tells what the body of an answer to a pairing request is.
pub fn pairing_reply(body: &str) -> (reply: PairingReply)
    ensures
        reply@ == spec_pairing_reply(body@),
{
    match parse_document(body) {
        Some(document) => pairing_document(&document),
        None => PairingReply::Unrecognised,
    }
}

/// Why pairing did not give a credential.
#[derive(Clone, Debug, PartialEq, Eq)]
pub enum PairingError {
    /// The bridge turned the request down, for the reason it gives.
    Refused(String),
    /// The bridge reported success without a credential.
    NoCredential,
    /// The answer is neither a success nor a refusal.
    Unrecognised,
}

/// A `PairingError` as plain values.
pub enum PairingErrorView {
    Refused(Seq<char>),
    NoCredential,
    Unrecognised,
}

impl View for PairingError {
    type V = PairingErrorView;

    open spec fn view(&self) -> PairingErrorView {
        match self {
            PairingError::Refused(description) => PairingErrorView::Refused(description@),
            PairingError::NoCredential => PairingErrorView::NoCredential,
            PairingError::Unrecognised => PairingErrorView::Unrecognised,
        }
    }
}

/// What the line for a refusal says.
pub open spec fn spec_refusal_message(description: Seq<char>) -> Seq<char> {
    "Unable to login to the philips hue bridge for the following reason: "@ + description
}

impl PairingError {
    /// Whether the operator can do something about it and try again.
    pub fn is_recoverable(&self) -> (recoverable: bool)
        ensures
            recoverable == (self@ is Refused),
    {
        match self {
            PairingError::Refused(_) => true,
            _ => false,
        }
    }

    /// The line that tells the operator of a refusal; `None` for the other
    /// errors, which no operator can mend.
    pub fn message(&self) -> (line: Option<String>)
        ensures
            match line {
                Some(text) => self@ is Refused && text@ == spec_refusal_message(self@->Refused_0),
                None => !(self@ is Refused),
            },
    {
        match self {
            PairingError::Refused(description) => {
                let mut line = String::from_str(
                    "Unable to login to the philips hue bridge for the following reason: ",
                );
                line.append(description.as_str());
                Some(line)
            },
            _ => None,
        }
    }
}

/// What pairing leaves in the configuration. The first credential granted
/// becomes the user name; address and aliases stay. A refusal is reported
/// with the description of its first record.
pub open spec fn spec_login(config: ConfigView, reply: PairingReplyView) -> Result<
    ConfigView,
    PairingErrorView,
> {
    match reply {
        PairingReplyView::Granted(usernames) => if usernames.len() > 0 {
            Ok(ConfigView { url: config.url, username: usernames[0], aliases: config.aliases })
        } else {
            Err(PairingErrorView::NoCredential)
        },
        PairingReplyView::Refused(errors) => if errors.len() > 0 {
            Err(PairingErrorView::Refused(errors[0].description))
        } else {
            Err(PairingErrorView::Unrecognised)
        },
        PairingReplyView::Unrecognised => Err(PairingErrorView::Unrecognised),
    }
}

/// Decides what a reply to the pairing request means for the configuration:
/// the configuration to store, or why there is none.
pub fn login_with(config: &Config, reply: &PairingReply) -> (result: Result<Config, PairingError>)
    ensures
        match result {
            Ok(paired) => spec_login(config@, reply@) == Ok::<ConfigView, PairingErrorView>(
                paired@,
            ),
            Err(error) => spec_login(config@, reply@) == Err::<ConfigView, PairingErrorView>(
                error@,
            ),
        },
{
    match reply {
        PairingReply::Granted(usernames) => {
            if usernames.len() > 0 {
                Ok(
                    Config {
                        url: config.url.clone(),
                        username: usernames[0].clone(),
                        aliases: config.aliases.clone(),
                    },
                )
            } else {
                Err(PairingError::NoCredential)
            }
        },
        PairingReply::Refused(errors) => {
            if errors.len() > 0 {
                Err(PairingError::Refused(errors[0].description.clone()))
            } else {
                Err(PairingError::Unrecognised)
            }
        },
        PairingReply::Unrecognised => Err(PairingError::Unrecognised),
    }
}

/// Decides from the body of the bridge's answer to the pairing request what
/// to store: the configuration with the credential, or why there is none.
pub fn login(config: &Config, body: &str) -> (result: Result<Config, PairingError>)
    ensures
        match result {
            Ok(paired) => spec_login(config@, spec_pairing_reply(body@)) == Ok::<
                ConfigView,
                PairingErrorView,
            >(paired@),
            Err(error) => spec_login(config@, spec_pairing_reply(body@)) == Err::<
                ConfigView,
                PairingErrorView,
            >(error@),
        },
{
    let reply = pairing_reply(body);
    login_with(config, &reply)
}

/// A refusal that comes out of an answer always has a record to quote, and
/// an answer that is an empty array counts as a success without a
/// credential.
pub proof fn lemma_refusal_has_a_record(document: Value)
    ensures
        spec_pairing_document(document) is Refused ==> spec_pairing_document(
            document,
        )->Refused_0.len() > 0,
        json_items(document) == Some(Seq::<Value>::empty()) ==> spec_pairing_document(document)
            == PairingReplyView::Granted(Seq::empty()),
{
    if json_items(document) is Some {
        let items = json_items(document)->Some_0;
        if items.len() == 0 {
            assert(spec_usernames(items) is Some);
            assert(spec_usernames(items)->Some_0 =~= Seq::<Seq<char>>::empty());
        }
    }
}

} // verus!
