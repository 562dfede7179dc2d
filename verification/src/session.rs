//! One run of the client, step by step.
//!
//! A run carries out one command under one configuration. The session
//! decides; its caller acts. The caller starts with `Stage::Start` and
//! `Event::Begin`, does what each step says (show the lines, store the
//! configuration, send the request or wait for the operator), and comes back
//! with what happened, and with the same command and configuration, until a
//! step ends the run. Nothing is sent, shown or stored but what a step says.

use vstd::prelude::*;
use vstd::string::*;
use crate::alias::{
    alias_request, resolve, set_alias, spec_alias_message, spec_resolve, spec_set_alias,
    AliasErrorView,
};
use crate::brightness::{spec_brightness, validate_bri_value, BrightnessError};
use crate::config::{Config, ConfigView};
use crate::discovery::{
    discover, discover_request, located, spec_discover, spec_discover_request, spec_located,
    DiscoveryError,
};
use crate::exchange::{
    failed_contact, spec_failed_contact, Request, RequestView, Response, STATUS_OK,
};
use crate::inventory::{
    append_lines, diagnostic_lines, get_all_lights, lights_request, list,
    spec_diagnostic_lines, spec_inventory, spec_lights_request, spec_list, InventoryError,
};
use crate::pairing::{
    device_identifier, login, login_request, spec_device_identifier, spec_login,
    spec_login_request, spec_pairing_reply, spec_refusal_message, PairingError, PairingErrorView,
    LINK_BUTTON_PROMPT,
};
use crate::probe::{spec_test_line, spec_test_request, test_request};
use crate::state::{
    set_state, spec_set_state, spec_state_error_message, spec_update_reply, spec_update_report,
    update_reply, update_report, State, UpdateReply,
};
use crate::text::text_views;

verus! {

/// What the operator asked for.
#[derive(Clone, Debug, PartialEq, Eq)]
pub enum Command {
    /// Find the bridge and start afresh with it.
    Discover,
    /// See whether the bridge answers.
    Test,
    /// Pair with the bridge, as the client that names itself so.
    Login(String),
    /// List the lights.
    List,
    /// Change the light that the name stands for.
    Change(State, String),
    /// Make an alias for a light: the light's name, then the alias.
    Alias(String, String),
}

/// A `Command` as plain values.
pub enum CommandView {
    Discover,
    Test,
    Login(Seq<char>),
    List,
    Change(State, Seq<char>),
    Alias(Seq<char>, Seq<char>),
}

impl View for Command {
    type V = CommandView;

    open spec fn view(&self) -> CommandView {
        match self {
            Command::Discover => CommandView::Discover,
            Command::Test => CommandView::Test,
            Command::Login(identifier) => CommandView::Login(identifier@),
            Command::List => CommandView::List,
            Command::Change(state, name) => CommandView::Change(*state, name@),
            Command::Alias(name, alias) => CommandView::Alias(name@, alias@),
        }
    }
}

/// What a session is waiting for.
#[derive(Clone, Copy, Debug, PartialEq, Eq, Structural)]
pub enum Stage {
    /// Nothing has happened yet.
    Start,
    /// The bridge's answer to the probe.
    Probing,
    /// The answer of the discovery service.
    Discovering,
    /// The operator, who has been asked to press the link button.
    Prompting,
    /// The bridge's answer to the pairing request.
    Pairing,
    /// The inventory, to list it.
    Listing,
    /// The inventory, to find the light to change.
    Locating,
    /// The bridge's answer to the request that changes the light.
    Updating,
    /// The inventory, to check the name that an alias is to stand for.
    Naming,
}

/// What happened since the last step.
#[derive(Clone, Debug, PartialEq, Eq)]
pub enum Event {
    /// The run begins.
    Begin,
    /// The operator entered a line; what it held does not matter.
    Line,
    /// The request was answered.
    Reply(Response),
}

/// An `Event` as plain values.
pub enum EventView {
    Begin,
    Line,
    Reply(u16, Seq<char>),
}

impl View for Event {
    type V = EventView;

    open spec fn view(&self) -> EventView {
        match self {
            Event::Begin => EventView::Begin,
            Event::Line => EventView::Line,
            Event::Reply(response) => EventView::Reply(response.status, response.body@),
        }
    }
}

/// Why a run cannot go on.
#[derive(Clone, Copy, Debug, PartialEq, Eq, Structural)]
pub enum Abort {
    /// The discovery service answered with something other than a list of
    /// bridges.
    MalformedDiscovery,
    /// The discovery service listed no bridge.
    NoBridge,
    /// The bridge's inventory cannot be read.
    Inventory(InventoryError),
    /// The bridge reported a successful pairing without a credential.
    NoCredential,
    /// The bridge's answer is neither a success nor a refusal.
    Unrecognised,
    /// The event is not the one that the stage waits for.
    OutOfTurn,
}

/// How a run ended.
#[derive(Clone, Copy, Debug, PartialEq, Eq, Structural)]
pub enum Ending {
    /// The command was carried out.
    Completed,
    /// The command was not carried out, and the operator was told why.
    Reported,
    /// The run broke off.
    Aborted(Abort),
}

/// What the caller is to do after showing the lines of a step and storing
/// its configuration.
#[derive(Clone, Debug, PartialEq, Eq)]
pub enum Action {
    /// Send the request, and come back at the stage with the reply.
    Send(Request, Stage),
    /// Wait for a line from the operator, and come back at the stage.
    Ask(Stage),
    /// Stop.
    Finish(Ending),
}

/// An `Action` as plain values.
pub enum ActionView {
    Send(RequestView, Stage),
    Ask(Stage),
    Finish(Ending),
}

impl View for Action {
    type V = ActionView;

    open spec fn view(&self) -> ActionView {
        match self {
            Action::Send(request, stage) => ActionView::Send(request@, *stage),
            Action::Ask(stage) => ActionView::Ask(*stage),
            Action::Finish(ending) => ActionView::Finish(*ending),
        }
    }
}

/// One step of a run.
#[derive(Clone, Debug, PartialEq)]
pub struct Step {
    /// The lines to show the operator, in order.
    pub lines: Vec<String>,
    /// The configuration to store in place of the old one, if any.
    pub store: Option<Config>,
    /// What to do then.
    pub action: Action,
}

/// A `Step` as plain values.
pub struct StepView {
    pub lines: Seq<Seq<char>>,
    pub store: Option<ConfigView>,
    pub action: ActionView,
}

/// A configuration to store, as plain values.
pub open spec fn store_view(store: Option<Config>) -> Option<ConfigView> {
    match store {
        Some(config) => Some(config@),
        None => None,
    }
}

impl View for Step {
    type V = StepView;

    open spec fn view(&self) -> StepView {
        StepView {
            lines: text_views(self.lines@),
            store: store_view(self.store),
            action: self.action@,
        }
    }
}

/// The step that ends a run with nothing to show or store.
pub open spec fn spec_stop(ending: Ending) -> StepView {
    StepView { lines: Seq::empty(), store: None, action: ActionView::Finish(ending) }
}

/// The step that sends a request with nothing to show or store.
pub open spec fn spec_send(request: RequestView, stage: Stage) -> StepView {
    StepView { lines: Seq::empty(), store: None, action: ActionView::Send(request, stage) }
}

/// The step that tells the operator why the command is not carried out.
pub open spec fn spec_report(lines: Seq<Seq<char>>) -> StepView {
    StepView { lines, store: None, action: ActionView::Finish(Ending::Reported) }
}

/// The first step of a run. Every command but two begins with a request:
/// pairing first asks the operator to press the link button, and an alias
/// that is in use is turned down at once.
pub open spec fn spec_begin(command: CommandView, config: ConfigView) -> StepView {
    match command {
        CommandView::Discover => spec_send(spec_discover_request(), Stage::Discovering),
        CommandView::Test => spec_send(spec_test_request(config), Stage::Probing),
        CommandView::Login(_) => StepView {
            lines: seq![LINK_BUTTON_PROMPT@],
            store: None,
            action: ActionView::Ask(Stage::Prompting),
        },
        CommandView::List => spec_send(spec_lights_request(config), Stage::Listing),
        CommandView::Change(_, _) => spec_send(spec_lights_request(config), Stage::Locating),
        CommandView::Alias(_, alias) => if config.aliases.contains_key(alias) {
            spec_report(seq![spec_alias_message(AliasErrorView::Taken(alias))])
        } else {
            spec_send(spec_lights_request(config), Stage::Naming)
        },
    }
}

/// The step after the bridge answered the probe.
pub open spec fn spec_probed(config: ConfigView, status: u16) -> StepView {
    StepView {
        lines: seq![spec_test_line(config, status)],
        store: None,
        action: ActionView::Finish(
            if status == STATUS_OK {
                Ending::Completed
            } else {
                Ending::Reported
            },
        ),
    }
}

/// The step after the discovery service answered: the configuration for the
/// bridge it found is stored in place of the old one.
pub open spec fn spec_discovered(status: u16, body: Seq<char>) -> StepView {
    match spec_discover(status, body) {
        Ok(found) => StepView {
            lines: seq![spec_located(found)],
            store: Some(found),
            action: ActionView::Finish(Ending::Completed),
        },
        Err(DiscoveryError::Status(code)) => spec_report(seq![spec_failed_contact(code)]),
        Err(DiscoveryError::Malformed) => spec_stop(Ending::Aborted(Abort::MalformedDiscovery)),
        Err(DiscoveryError::NoBridge) => spec_stop(Ending::Aborted(Abort::NoBridge)),
    }
}

/// The step after the bridge answered the pairing request: the configuration
/// with the credential is stored, or the operator is told of the refusal.
pub open spec fn spec_paired(config: ConfigView, body: Seq<char>) -> StepView {
    match spec_login(config, spec_pairing_reply(body)) {
        Ok(paired) => StepView {
            lines: Seq::empty(),
            store: Some(paired),
            action: ActionView::Finish(Ending::Completed),
        },
        Err(PairingErrorView::Refused(description)) => spec_report(
            seq![spec_refusal_message(description)],
        ),
        Err(PairingErrorView::NoCredential) => spec_stop(Ending::Aborted(Abort::NoCredential)),
        Err(PairingErrorView::Unrecognised) => spec_stop(Ending::Aborted(Abort::Unrecognised)),
    }
}

/// The step after the inventory came in to be listed.
pub open spec fn spec_listed(status: u16, body: Seq<char>) -> StepView {
    match spec_list(status, body) {
        Ok(lines) => StepView {
            lines,
            store: None,
            action: ActionView::Finish(Ending::Completed),
        },
        Err(error) => spec_stop(Ending::Aborted(Abort::Inventory(error))),
    }
}

/// The step after the inventory came in to find the light to change: the
/// request that changes it, or the line that says there is no such light.
pub open spec fn spec_found_light(
    state: State,
    name: Seq<char>,
    config: ConfigView,
    status: u16,
    body: Seq<char>,
) -> StepView {
    match spec_inventory(status, body) {
        Err(error) => spec_stop(Ending::Aborted(Abort::Inventory(error))),
        Ok(lights) => match spec_set_state(state, name, config, lights) {
            Ok(update) => StepView {
                lines: spec_diagnostic_lines(status),
                store: None,
                action: ActionView::Send(update.request, Stage::Updating),
            },
            Err(error) => spec_report(
                spec_diagnostic_lines(status) + seq![spec_state_error_message(error)],
            ),
        },
    }
}

/// The step after the bridge answered the request that changes a light.
pub open spec fn spec_updated(
    state: State,
    name: Seq<char>,
    config: ConfigView,
    body: Seq<char>,
) -> StepView {
    let reply = spec_update_reply(body);
    match spec_update_report(state, spec_resolve(name, config.aliases), reply) {
        Some(line) => StepView {
            lines: seq![line],
            store: None,
            action: ActionView::Finish(
                if reply is Accepted {
                    Ending::Completed
                } else {
                    Ending::Reported
                },
            ),
        },
        None => spec_stop(Ending::Aborted(Abort::Unrecognised)),
    }
}

/// The step after the inventory came in to check the name for an alias: the
/// configuration with the alias is stored, or the operator is told why it
/// is not.
pub open spec fn spec_named(
    name: Seq<char>,
    alias: Seq<char>,
    config: ConfigView,
    status: u16,
    body: Seq<char>,
) -> StepView {
    match spec_inventory(status, body) {
        Err(error) => spec_stop(Ending::Aborted(Abort::Inventory(error))),
        Ok(lights) => match spec_set_alias(name, alias, config, lights) {
            Ok(changed) => StepView {
                lines: spec_diagnostic_lines(status),
                store: Some(changed),
                action: ActionView::Finish(Ending::Completed),
            },
            Err(error) => spec_report(
                spec_diagnostic_lines(status) + seq![spec_alias_message(error)],
            ),
        },
    }
}

/// The step that a session takes at a stage for an event. An event that the
/// stage does not wait for breaks the run off.
pub open spec fn spec_advance(
    command: CommandView,
    config: ConfigView,
    stage: Stage,
    event: EventView,
) -> StepView {
    match (stage, event, command) {
        (Stage::Start, EventView::Begin, _) => spec_begin(command, config),
        (Stage::Probing, EventView::Reply(status, _), CommandView::Test) => spec_probed(
            config,
            status,
        ),
        (Stage::Discovering, EventView::Reply(status, body), CommandView::Discover) => {
            spec_discovered(status, body)
        },
        (Stage::Prompting, EventView::Line, CommandView::Login(identifier)) => spec_send(
            spec_login_request(config, identifier),
            Stage::Pairing,
        ),
        (Stage::Pairing, EventView::Reply(_, body), CommandView::Login(_)) => spec_paired(
            config,
            body,
        ),
        (Stage::Listing, EventView::Reply(status, body), CommandView::List) => spec_listed(
            status,
            body,
        ),
        (Stage::Locating, EventView::Reply(status, body), CommandView::Change(state, name)) => {
            spec_found_light(state, name, config, status, body)
        },
        (Stage::Updating, EventView::Reply(_, body), CommandView::Change(state, name)) => {
            spec_updated(state, name, config, body)
        },
        (Stage::Naming, EventView::Reply(status, body), CommandView::Alias(name, alias)) => {
            spec_named(name, alias, config, status, body)
        },
        _ => spec_stop(Ending::Aborted(Abort::OutOfTurn)),
    }
}

/// A step stores a configuration only as it completes the command, and only
/// discovery, pairing and the setting of an alias ever store one. What
/// discovery stores has neither credential nor alias; what pairing stores
/// differs from the old configuration in the credential alone; what an alias
/// stores differs from it in the table of aliases alone.
pub proof fn lemma_store_only_on_completion(
    command: CommandView,
    config: ConfigView,
    stage: Stage,
    event: EventView,
)
    ensures
        match spec_advance(command, config, stage, event).store {
            Some(stored) => {
                &&& spec_advance(command, config, stage, event).action == ActionView::Finish(
                    Ending::Completed,
                )
                &&& match command {
                    CommandView::Discover => stage == Stage::Discovering && stored.username
                        == Seq::<char>::empty() && stored.aliases == Map::<
                        Seq<char>,
                        Seq<char>,
                    >::empty(),
                    CommandView::Login(_) => stage == Stage::Pairing && stored.url == config.url
                        && stored.aliases == config.aliases,
                    CommandView::Alias(name, alias) => stage == Stage::Naming && stored.url
                        == config.url && stored.username == config.username && stored.aliases
                        == config.aliases.insert(alias, name) && !config.aliases.contains_key(
                        alias,
                    ),
                    _ => false,
                }
            },
            None => true,
        },
{
}

/// A run that begins with an alias that is in use ends at once: nothing is
/// sent and nothing is stored.
pub proof fn lemma_alias_in_use_ends_the_run(name: Seq<char>, alias: Seq<char>, config: ConfigView)
    requires
        config.aliases.contains_key(alias),
    ensures
        spec_advance(CommandView::Alias(name, alias), config, Stage::Start, EventView::Begin)
            == spec_report(seq![spec_alias_message(AliasErrorView::Taken(alias))]),
{
}

/// A list that holds one line.
fn one_line(line: String) -> (lines: Vec<String>)
    ensures
        text_views(lines@) == seq![line@],
{
    let mut lines: Vec<String> = Vec::new();
    lines.push(line);
    assert(text_views(lines@) =~= seq![line@]);
    lines
}

/// A list without lines.
fn no_lines() -> (lines: Vec<String>)
    ensures
        text_views(lines@) == Seq::<Seq<char>>::empty(),
{
    let lines: Vec<String> = Vec::new();
    assert(text_views(lines@) =~= Seq::<Seq<char>>::empty());
    lines
}

/// The step that ends a run with nothing to show or store.
fn stop(ending: Ending) -> (step: Step)
    ensures
        step@ == spec_stop(ending),
{
    Step { lines: no_lines(), store: None, action: Action::Finish(ending) }
}

/// The step that sends a request with nothing to show or store.
fn send(request: Request, stage: Stage) -> (step: Step)
    ensures
        step@ == spec_send(request@, stage),
{
    Step { lines: no_lines(), store: None, action: Action::Send(request, stage) }
}

/// The step that tells the operator why the command is not carried out.
fn report(lines: Vec<String>) -> (step: Step)
    ensures
        step@ == spec_report(text_views(lines@)),
{
    Step { lines, store: None, action: Action::Finish(Ending::Reported) }
}

/// Takes the first step of a run.
pub fn begin(command: &Command, config: &Config) -> (step: Step)
    ensures
        step@ == spec_begin(command@, config@),
{
    match command {
        Command::Discover => send(discover_request(), Stage::Discovering),
        Command::Test => send(test_request(config), Stage::Probing),
        Command::Login(_) => Step {
            lines: one_line(String::from_str(LINK_BUTTON_PROMPT)),
            store: None,
            action: Action::Ask(Stage::Prompting),
        },
        Command::List => send(lights_request(config), Stage::Listing),
        Command::Change(_, _) => send(lights_request(config), Stage::Locating),
        Command::Alias(_, alias) => match alias_request(alias.as_str(), config) {
            Ok(request) => send(request, Stage::Naming),
            Err(error) => report(one_line(error.message())),
        },
    }
}

/// Takes the step after the bridge answered the probe.
pub fn probed(config: &Config, status: u16) -> (step: Step)
    ensures
        step@ == spec_probed(config@, status),
{
    let (reachable, line) = crate::probe::test(config, status);
    let ending = if reachable {
        Ending::Completed
    } else {
        Ending::Reported
    };
    Step { lines: one_line(line), store: None, action: Action::Finish(ending) }
}

/// Takes the step after the discovery service answered.
pub fn discovered(response: &Response) -> (step: Step)
    ensures
        step@ == spec_discovered(response.status, response.body@),
{
    match discover(response) {
        Ok(found) => {
            let lines = one_line(located(&found));
            Step { lines, store: Some(found), action: Action::Finish(Ending::Completed) }
        },
        Err(DiscoveryError::Status(code)) => report(one_line(failed_contact(code))),
        Err(DiscoveryError::Malformed) => stop(Ending::Aborted(Abort::MalformedDiscovery)),
        Err(DiscoveryError::NoBridge) => stop(Ending::Aborted(Abort::NoBridge)),
    }
}

/// Takes the step after the bridge answered the pairing request.
pub fn paired(config: &Config, body: &str) -> (step: Step)
    ensures
        step@ == spec_paired(config@, body@),
{
    match login(config, body) {
        Ok(paired) => Step {
            lines: no_lines(),
            store: Some(paired),
            action: Action::Finish(Ending::Completed),
        },
        Err(error) => match error.message() {
            Some(line) => report(one_line(line)),
            None => match error {
                PairingError::NoCredential => stop(Ending::Aborted(Abort::NoCredential)),
                _ => stop(Ending::Aborted(Abort::Unrecognised)),
            },
        },
    }
}

/// Takes the step after the inventory came in to be listed.
pub fn listed(response: &Response) -> (step: Step)
    ensures
        step@ == spec_listed(response.status, response.body@),
{
    match list(response) {
        Ok(lines) => Step { lines, store: None, action: Action::Finish(Ending::Completed) },
        Err(error) => stop(Ending::Aborted(Abort::Inventory(error))),
    }
}

/// Takes the step after the inventory came in to find the light to change.
pub fn found_light(state: State, name: &str, config: &Config, response: &Response) -> (step: Step)
    ensures
        step@ == spec_found_light(state, name@, config@, response.status, response.body@),
{
    let lights = match get_all_lights(response) {
        Ok(lights) => lights,
        Err(error) => {
            return stop(Ending::Aborted(Abort::Inventory(error)));
        },
    };
    let mut lines = diagnostic_lines(response);
    match set_state(state, name, config, &lights) {
        Ok(update) => Step {
            lines,
            store: None,
            action: Action::Send(update.request, Stage::Updating),
        },
        Err(error) => {
            append_lines(&mut lines, one_line(error.message()));
            report(lines)
        },
    }
}

/// Takes the step after the bridge answered the request that changes a
/// light.
pub fn updated(state: State, name: &str, config: &Config, body: &str) -> (step: Step)
    ensures
        step@ == spec_updated(state, name@, config@, body@),
{
    let canonical = resolve(name, config);
    let reply = update_reply(body);
    match update_report(state, canonical.as_str(), &reply) {
        Some(line) => {
            let ending = match reply {
                UpdateReply::Accepted => Ending::Completed,
                _ => Ending::Reported,
            };
            Step { lines: one_line(line), store: None, action: Action::Finish(ending) }
        },
        None => stop(Ending::Aborted(Abort::Unrecognised)),
    }
}

/// Takes the step after the inventory came in to check the name for an
/// alias.
pub fn named(name: &str, alias: &str, config: &Config, response: &Response) -> (step: Step)
    ensures
        step@ == spec_named(name@, alias@, config@, response.status, response.body@),
{
    let lights = match get_all_lights(response) {
        Ok(lights) => lights,
        Err(error) => {
            return stop(Ending::Aborted(Abort::Inventory(error)));
        },
    };
    let mut lines = diagnostic_lines(response);
    match set_alias(name, alias, config, &lights) {
        Ok(changed) => Step {
            lines,
            store: Some(changed),
            action: Action::Finish(Ending::Completed),
        },
        Err(error) => {
            append_lines(&mut lines, one_line(error.message()));
            report(lines)
        },
    }
}

/// Takes the step of a session at `stage` for `event`.
pub fn advance(command: &Command, config: &Config, stage: Stage, event: &Event) -> (step: Step)
    ensures
        step@ == spec_advance(command@, config@, stage, event@),
{
    match (stage, event, command) {
        (Stage::Start, Event::Begin, _) => begin(command, config),
        (Stage::Probing, Event::Reply(response), Command::Test) => probed(config, response.status),
        (Stage::Discovering, Event::Reply(response), Command::Discover) => discovered(response),
        (Stage::Prompting, Event::Line, Command::Login(identifier)) => send(
            login_request(config, identifier.as_str()),
            Stage::Pairing,
        ),
        (Stage::Pairing, Event::Reply(response), Command::Login(_)) => paired(
            config,
            response.body.as_str(),
        ),
        (Stage::Listing, Event::Reply(response), Command::List) => listed(response),
        (Stage::Locating, Event::Reply(response), Command::Change(state, name)) => found_light(
            *state,
            name.as_str(),
            config,
            response,
        ),
        (Stage::Updating, Event::Reply(response), Command::Change(state, name)) => updated(
            *state,
            name.as_str(),
            config,
            response.body.as_str(),
        ),
        (Stage::Naming, Event::Reply(response), Command::Alias(name, alias)) => named(
            name.as_str(),
            alias.as_str(),
            config,
            response,
        ),
        _ => stop(Ending::Aborted(Abort::OutOfTurn)),
    }
}

/// The command that pairs this client with the bridge, as the client on a
/// device called `device_name`.
pub fn login_command(device_name: &str) -> (command: Command)
    ensures
        command@ == CommandView::Login(spec_device_identifier(device_name@)),
{
    Command::Login(device_identifier(device_name))
}

/// The command that sets the brightness of a light to what the operator
/// typed, or why what was typed is no brightness. Without a brightness
/// there is no command, and so no run.
pub fn brightness_command(name: &str, value: &str) -> (result: Result<Command, BrightnessError>)
    ensures
        match result {
            Ok(command) => spec_brightness(value@) is Ok && command@ == CommandView::Change(
                State::Bri(spec_brightness(value@)->Ok_0),
                name@,
            ),
            Err(error) => spec_brightness(value@) == Err::<u8, BrightnessError>(error),
        },
{
    match validate_bri_value(value) {
        Ok(percent) => Ok(Command::Change(State::Bri(percent), name.to_owned())),
        Err(error) => Err(error),
    }
}

} // verus!
