//! Changing the state of a light: switching it, or setting its brightness.

use vstd::prelude::*;
use vstd::string::*;
use serde_json::Value;
use crate::alias::{resolve, spec_resolve};
use crate::brightness::{bridge_brightness, spec_bridge_brightness};
use crate::config::{Config, ConfigView};
use crate::envelope::{
    error_views, parse_bridge_errors, spec_bridge_errors, BridgeError, BridgeErrorView,
};
use crate::exchange::{
    spec_state_url, state_url, Method, Reading, Request, RequestView,
};
use crate::inventory::{find_light, light_views, spec_position, Light, LightView};
use crate::json::{json_document, json_items, json_member, member, parse_document};
use crate::text::{decimal, render_decimal};

verus! {

/// The bridge's number for a failure that comes of changing a light that is
/// switched off.
pub const NOT_TURNED_ON: u64 = 201;

/// What the operator wants of a light.
#[derive(Clone, Copy, Debug, PartialEq, Eq, Structural)]
pub enum State {
    /// Switch it on (`true`) or off (`false`).
    On(bool),
    /// Set its brightness to this percentage.
    Bri(u8),
}

/// The body of the request that asks the bridge for a state: `{"on":true}`
/// or `{"on":false}` for a switch, and for a brightness `{"bri":N}` with the
/// percentage rescaled to the bridge's own scale.
pub open spec fn spec_state_body(state: State) -> Seq<char> {
    match state {
        State::On(true) => "{\"on\":true}"@,
        State::On(false) => "{\"on\":false}"@,
        State::Bri(percent) => "{\"bri\":"@ + decimal(
            spec_bridge_brightness(percent as int) as nat,
        ) + "}"@,
    }
}

/// Writes the body of the request that asks the bridge for a state.
pub fn state_body(state: State) -> (body: String)
    ensures
        body@ == spec_state_body(state),
{
    match state {
        State::On(true) => String::from_str("{\"on\":true}"),
        State::On(false) => String::from_str("{\"on\":false}"),
        State::Bri(percent) => {
            let mut body = String::from_str("{\"bri\":");
            body.append(render_decimal(bridge_brightness(percent) as u64).as_str());
            body.append("}");
            body
        },
    }
}

/// How a change is named when it is confirmed to the operator.
pub open spec fn spec_state_to_user_msg(state: State) -> Seq<char> {
    match state {
        State::On(true) => "Turned on"@,
        State::On(false) => "Turned off"@,
        State::Bri(percent) => "Set brightness to "@ + decimal(percent as nat) + " for"@,
    }
}

/// Names a change for the line that confirms it.
pub fn state_to_user_msg(s: State) -> (message: String)
    ensures
        message@ == spec_state_to_user_msg(s),
{
    match s {
        State::On(true) => String::from_str("Turned on"),
        State::On(false) => String::from_str("Turned off"),
        State::Bri(percent) => {
            let mut message = String::from_str("Set brightness to ");
            message.append(render_decimal(percent as u64).as_str());
            message.append(" for");
            message
        },
    }
}

/// The request that changes a light, with the name that the light goes by.
#[derive(Clone, Debug, PartialEq, Eq)]
pub struct Update {
    pub request: Request,
    /// The name of the light, aliases resolved.
    pub name: String,
}

/// An `Update` as plain values.
pub struct UpdateView {
    pub request: RequestView,
    pub name: Seq<char>,
}

impl View for Update {
    type V = UpdateView;

    open spec fn view(&self) -> UpdateView {
        UpdateView { request: self.request@, name: self.name@ }
    }
}

/// Why no request to change a light was made.
#[derive(Clone, Debug, PartialEq, Eq)]
pub enum StateError {
    /// The bridge has no light of this name.
    UnknownLight(String),
}

/// A `StateError` as plain values.
pub enum StateErrorView {
    UnknownLight(Seq<char>),
}

impl View for StateError {
    type V = StateErrorView;

    open spec fn view(&self) -> StateErrorView {
        match self {
            StateError::UnknownLight(name) => StateErrorView::UnknownLight(name@),
        }
    }
}

/// The line that tells the operator why no request was made.
pub open spec fn spec_state_error_message(error: StateErrorView) -> Seq<char> {
    match error {
        StateErrorView::UnknownLight(name) => "Invalid light name "@ + name,
    }
}

impl StateError {
    /// The line that tells the operator why no request was made.
    pub fn message(&self) -> (line: String)
        ensures
            line@ == spec_state_error_message(self@),
    {
        match self {
            StateError::UnknownLight(name) => {
                let mut line = String::from_str("Invalid light name ");
                line.append(name.as_str());
                line
            },
        }
    }
}

/// The address by which the bridge knows the light at a position of the
/// inventory. The bridge counts from one.
pub open spec fn spec_address(position: nat) -> nat {
    position + 1
}

/// The request that changes the light that `name` stands for, given the
/// inventory. The light is addressed by its place in the inventory; a name
/// that several lights have means the first of them.
pub open spec fn spec_set_state(
    state: State,
    name: Seq<char>,
    config: ConfigView,
    lights: Seq<LightView>,
) -> Result<UpdateView, StateErrorView> {
    let canonical = spec_resolve(name, config.aliases);
    match spec_position(lights, canonical) {
        None => Err(StateErrorView::UnknownLight(canonical)),
        Some(position) => Ok(
            UpdateView {
                request: RequestView {
                    method: Method::Put,
                    url: spec_state_url(config, spec_address(position)),
                    body: spec_state_body(state),
                    reading: Reading::Body,
                },
                name: canonical,
            },
        ),
    }
}

/// A light is addressed by its place in the inventory, counted from one:
/// where the name stands for the light at place `at`, counted from zero, and
/// for none before it, the request goes to the address `at + 1`.
pub proof fn lemma_light_is_addressed_by_place(
    state: State,
    name: Seq<char>,
    config: ConfigView,
    lights: Seq<LightView>,
    at: int,
)
    requires
        0 <= at < lights.len(),
        lights[at].name == spec_resolve(name, config.aliases),
        forall|k: int| 0 <= k < at ==> (#[trigger] lights[k]).name != spec_resolve(
            name,
            config.aliases,
        ),
    ensures
        spec_set_state(state, name, config, lights) is Ok,
        spec_set_state(state, name, config, lights)->Ok_0.request.url == spec_state_url(
            config,
            (at + 1) as nat,
        ),
        spec_set_state(state, name, config, lights)->Ok_0.request.method == Method::Put,
        spec_set_state(state, name, config, lights)->Ok_0.request.body == spec_state_body(state),
{
    let canonical = spec_resolve(name, config.aliases);
    crate::inventory::lemma_position_is_first(lights, canonical);
    match spec_position(lights, canonical) {
        Some(found) => {
            if found < at {
                assert(lights[found as int].name != canonical);
            }
            if at < found {
                assert(lights[at].name != canonical);
            }
        },
        None => {
            assert(lights[at].name != canonical);
        },
    }
}

/// Makes the request that changes the light that `name` stands for, given
/// the inventory, or says why there is none to make.
pub fn set_state(state: State, name: &str, config: &Config, lights: &Vec<Light>) -> (result: Result<
    Update,
    StateError,
>)
    ensures
        match result {
            Ok(update) => spec_set_state(state, name@, config@, light_views(lights@)) == Ok::<
                UpdateView,
                StateErrorView,
            >(update@),
            Err(error) => spec_set_state(state, name@, config@, light_views(lights@)) == Err::<
                UpdateView,
                StateErrorView,
            >(error@),
        },
{
    let body = state_body(state);
    let canonical = resolve(name, config);
    match find_light(lights, canonical.as_str()) {
        None => Err(StateError::UnknownLight(canonical)),
        Some(position) => {
            let address: u64 = position as u64 + 1;
            Ok(
                Update {
                    request: Request {
                        method: Method::Put,
                        url: state_url(config, address),
                        body,
                        reading: Reading::Body,
                    },
                    name: canonical,
                },
            )
        },
    }
}

/// What the bridge answered to a request that changes a light.
#[derive(Clone, Debug, PartialEq, Eq)]
pub enum UpdateReply {
    /// Records of success.
    Accepted,
    /// Records of failure.
    Refused(Vec<BridgeError>),
    /// Neither of the two.
    Unrecognised,
}

/// An `UpdateReply` as plain values.
pub enum UpdateReplyView {
    Accepted,
    Refused(Seq<BridgeErrorView>),
    Unrecognised,
}

impl View for UpdateReply {
    type V = UpdateReplyView;

    open spec fn view(&self) -> UpdateReplyView {
        match self {
            UpdateReply::Accepted => UpdateReplyView::Accepted,
            UpdateReply::Refused(errors) => UpdateReplyView::Refused(error_views(errors@)),
            UpdateReply::Unrecognised => UpdateReplyView::Unrecognised,
        }
    }
}

/// Whether every element of an array is a record of success: an object with
/// a member `success`, whatever that holds.
pub open spec fn spec_all_succeeded(items: Seq<Value>) -> bool {
    forall|i: int| 0 <= i < items.len() ==> json_member(#[trigger] items[i], "success"@) is Some
}

/// What a parsed answer to a request that changes a light is. An array of
/// records of success is a success, the empty array too; failing that, an
/// array of records of failure is a refusal.
pub open spec fn spec_update_document(document: Value) -> UpdateReplyView {
    match json_items(document) {
        None => UpdateReplyView::Unrecognised,
        Some(items) => if spec_all_succeeded(items) {
            UpdateReplyView::Accepted
        } else {
            match spec_bridge_errors(items) {
                Some(errors) => UpdateReplyView::Refused(errors),
                None => UpdateReplyView::Unrecognised,
            }
        },
    }
}

/// What the body of an answer to a request that changes a light is.
pub open spec fn spec_update_reply(body: Seq<char>) -> UpdateReplyView {
    match json_document(body) {
        None => UpdateReplyView::Unrecognised,
        Some(document) => spec_update_document(document),
    }
}

/// Tells whether every element of an array is a record of success.
pub fn all_succeeded(items: &Vec<Value>) -> (yes: bool)
    ensures
        yes == spec_all_succeeded(items@),
{
    let mut i: usize = 0;
    while i < items.len()
        invariant
            i <= items.len(),
            forall|k: int| 0 <= k < i ==> json_member(#[trigger] items@[k], "success"@) is Some,
        decreases items.len() - i,
    {
        if member(&items[i], "success").is_none() {
            assert(json_member(items@[i as int], "success"@) is None);
            return false;
        }
        i += 1;
    }
    true
}

/// Tells what a parsed answer to a request that changes a light is.
pub fn update_document(document: &Value) -> (reply: UpdateReply)
    ensures
        reply@ == spec_update_document(*document),
{
    let items = match document.as_array() {
        Some(items) => items,
        None => {
            return UpdateReply::Unrecognised;
        },
    };
    if all_succeeded(items) {
        UpdateReply::Accepted
    } else {
        match parse_bridge_errors(items) {
            Some(errors) => UpdateReply::Refused(errors),
            None => UpdateReply::Unrecognised,
        }
    }
}

/// Tells what the body of an answer to a request that changes a light is.
pub fn update_reply(body: &str) -> (reply: UpdateReply)
    ensures
        reply@ == spec_update_reply(body@),
{
    match parse_document(body) {
        Some(document) => update_document(&document),
        None => UpdateReply::Unrecognised,
    }
}

/// The line that tells the operator that the light was changed.
pub open spec fn spec_confirmation(state: State, name: Seq<char>) -> Seq<char> {
    spec_state_to_user_msg(state) + " "@ + name + " successfully"@
}

/// The line that tells the operator why the bridge did not change the
/// light: a fixed one for a light that is switched off, else the bridge's
/// own description.
pub open spec fn spec_refusal(error: BridgeErrorView) -> Seq<char> {
    if error.kind == NOT_TURNED_ON {
        "Cannot set value on a light that is not turned on"@
    } else {
        "Something went wrong when setting a state on the light: "@ + error.description
    }
}

/// A failure of the kind that a light which is switched off gives is
/// reported in fixed words; a failure of any other kind is reported in the
/// bridge's own words, which end the line as the bridge gave them.
pub proof fn lemma_refusal_quotes_the_bridge(error: BridgeErrorView)
    ensures
        error.kind == NOT_TURNED_ON ==> spec_refusal(error)
            == "Cannot set value on a light that is not turned on"@,
        error.kind != NOT_TURNED_ON ==> spec_refusal(error).len() >= error.description.len()
            && spec_refusal(error).skip(spec_refusal(error).len() - error.description.len())
            == error.description,
{
    if error.kind != NOT_TURNED_ON {
        let prefix = "Something went wrong when setting a state on the light: "@;
        assert(spec_refusal(error) == prefix + error.description);
        assert((prefix + error.description).skip(prefix.len() as int) =~= error.description);
    }
}

/// The line to show the operator for a reply; `None` for a reply that is
/// neither a success nor a refusal with a record to quote. Of a refusal the
/// first record counts.
pub open spec fn spec_update_report(state: State, name: Seq<char>, reply: UpdateReplyView) -> Option<
    Seq<char>,
> {
    match reply {
        UpdateReplyView::Accepted => Some(spec_confirmation(state, name)),
        UpdateReplyView::Refused(errors) => if errors.len() > 0 {
            Some(spec_refusal(errors[0]))
        } else {
            None
        },
        UpdateReplyView::Unrecognised => None,
    }
}

/// Writes the line that tells the operator why the bridge did not change
/// the light.
pub fn refusal(error: &BridgeError) -> (line: String)
    ensures
        line@ == spec_refusal(error@),
{
    if error.kind == NOT_TURNED_ON {
        String::from_str("Cannot set value on a light that is not turned on")
    } else {
        let mut line = String::from_str(
            "Something went wrong when setting a state on the light: ",
        );
        line.append(error.description.as_str());
        line
    }
}

/// Writes the line to show the operator for a reply to the request that
/// changes the light called `name`.
pub fn update_report(state: State, name: &str, reply: &UpdateReply) -> (line: Option<String>)
    ensures
        match line {
            Some(text) => spec_update_report(state, name@, reply@) == Some(text@),
            None => spec_update_report(state, name@, reply@) is None,
        },
{
    match reply {
        UpdateReply::Accepted => {
            let mut line = state_to_user_msg(state);
            line.append(" ");
            line.append(name);
            line.append(" successfully");
            Some(line)
        },
        UpdateReply::Refused(errors) => {
            if errors.len() > 0 {
                Some(refusal(&errors[0]))
            } else {
                None
            }
        },
        UpdateReply::Unrecognised => None,
    }
}

/// Writes the line to show the operator for the body of the bridge's answer
/// to the request that changes the light called `name`.
pub fn set_state_report(state: State, name: &str, body: &str) -> (line: Option<String>)
    ensures
        match line {
            Some(text) => spec_update_report(state, name@, spec_update_reply(body@)) == Some(
                text@,
            ),
            None => spec_update_report(state, name@, spec_update_reply(body@)) is None,
        },
{
    let reply = update_reply(body);
    update_report(state, name, &reply)
}

} // verus!
