use hue_cli::brightness::BrightnessError;
use hue_cli::config::{AliasTable, Config};
use hue_cli::exchange::{Method, Reading, Request, Response};
use hue_cli::inventory::InventoryError;
use hue_cli::session::{
    advance, begin, brightness_command, login_command, Abort, Action, Command, Ending, Event,
    Stage, Step,
};
use hue_cli::state::State;

/// What a run did, as its caller saw it.
#[derive(Debug, PartialEq)]
struct Run {
    lines: Vec<String>,
    sent: Vec<Request>,
    stored: Vec<Config>,
    asked: usize,
    ending: Ending,
}

/// Carries a command out against replies that are given in advance.
fn run(command: &Command, config: &Config, replies: Vec<Response>) -> Run {
    let mut replies = replies.into_iter();
    let mut done = Run { lines: vec![], sent: vec![], stored: vec![], asked: 0, ending: Ending::Completed };
    let mut stage = Stage::Start;
    let mut event = Event::Begin;
    loop {
        let step = advance(command, config, stage, &event);
        done.lines.extend(step.lines);
        done.stored.extend(step.store);
        match step.action {
            Action::Send(request, next) => {
                done.sent.push(request);
                event = Event::Reply(replies.next().expect("a reply for each request"));
                stage = next;
            }
            Action::Ask(next) => {
                done.asked += 1;
                event = Event::Line;
                stage = next;
            }
            Action::Finish(ending) => {
                done.ending = ending;
                return done;
            }
        }
    }
}

fn ok(body: &str) -> Response {
    Response { status: 200, body: String::from(body) }
}

fn get(url: &str, reading: Reading) -> Request {
    Request { method: Method::Get, url: String::from(url), body: String::new(), reading }
}

fn paired() -> Config {
    Config {
        url: String::from("192.168.1.2"),
        username: String::from("abcdef"),
        aliases: AliasTable::from_pairs(vec![(String::from("bed"), String::from("Lamp 2"))]),
    }
}

const INVENTORY: &str = "{\"1\":{\"name\":\"Lamp 1\",\"state\":{\"on\":true,\"bri\":254}},\
\"2\":{\"name\":\"Lamp 2\",\"state\":{\"on\":false,\"bri\":0}}}";
const LIGHTS_URL: &str = "http://192.168.1.2/api/abcdef/lights";

#[test]
fn run_of_discover_stores_the_bridge_and_forgets_the_rest() {
    let body = "[{\"id\":\"a\",\"internalipaddress\":\"10.0.0.7\",\"port\":443}]";
    let done = run(&Command::Discover, &paired(), vec![ok(body)]);
    assert_eq!(
        done,
        Run {
            lines: vec![String::from("Hue bridge is located at 10.0.0.7")],
            sent: vec![get("https://discovery.meethue.com/", Reading::BodyIfOk)],
            stored: vec![Config {
                url: String::from("10.0.0.7"),
                username: String::new(),
                aliases: AliasTable::new(),
            }],
            asked: 0,
            ending: Ending::Completed,
        }
    );
}

#[test]
fn run_of_discover_without_bridge_breaks_off() {
    let done = run(&Command::Discover, &paired(), vec![ok("[]")]);
    assert!(done.lines.is_empty());
    assert!(done.stored.is_empty());
    assert_eq!(done.ending, Ending::Aborted(Abort::NoBridge));
}

#[test]
fn run_of_discover_with_a_malformed_answer_breaks_off() {
    let done = run(&Command::Discover, &paired(), vec![ok("{\"bridges\":[]}")]);
    assert!(done.stored.is_empty());
    assert_eq!(done.ending, Ending::Aborted(Abort::MalformedDiscovery));
}

#[test]
fn run_of_discover_reports_another_status() {
    let done = run(&Command::Discover, &paired(), vec![Response { status: 503, body: String::new() }]);
    assert_eq!(
        done.lines,
        vec![String::from(
            "Failed to contact https://discovery.meethue.com/. Status code: 503 Service Unavailable"
        )]
    );
    assert!(done.stored.is_empty());
    assert_eq!(done.ending, Ending::Reported);
}

#[test]
fn run_of_test_reports_the_bridge() {
    let done = run(&Command::Test, &paired(), vec![Response { status: 200, body: String::new() }]);
    assert_eq!(
        done,
        Run {
            lines: vec![String::from("Able to connect to the hue bridge on http://192.168.1.2/api")],
            sent: vec![get("http://192.168.1.2/api", Reading::Status)],
            stored: vec![],
            asked: 0,
            ending: Ending::Completed,
        }
    );
    let done = run(&Command::Test, &paired(), vec![Response { status: 404, body: String::new() }]);
    assert_eq!(
        done.lines,
        vec![String::from("Issue connecting to the hue bridge http://192.168.1.2/api")]
    );
    assert_eq!(done.ending, Ending::Reported);
}

#[test]
fn run_of_login_waits_for_the_operator_and_stores_the_credential() {
    let command = Command::Login(String::from("hue-cli#laptop"));
    let done = run(&command, &paired(), vec![ok("[{\"success\":{\"username\":\"fresh\"}}]")]);
    assert_eq!(
        done,
        Run {
            lines: vec![String::from(
                "Press the link button on the hue bridge, then press any button to continue"
            )],
            sent: vec![Request {
                method: Method::Post,
                url: String::from("http://192.168.1.2/api"),
                body: String::from("{\"devicetype\":\"hue-cli#laptop\"}"),
                reading: Reading::Body,
            }],
            stored: vec![Config {
                url: String::from("192.168.1.2"),
                username: String::from("fresh"),
                aliases: paired().aliases,
            }],
            asked: 1,
            ending: Ending::Completed,
        }
    );
}

#[test]
fn run_of_login_sends_nothing_before_the_operator_answers() {
    let command = Command::Login(String::from("hue-cli#laptop"));
    let first = begin(&command, &paired());
    assert_eq!(first.action, Action::Ask(Stage::Prompting));
    assert_eq!(first.store, None);
}

#[test]
fn run_of_login_reports_a_refusal() {
    let command = Command::Login(String::from("hue-cli#laptop"));
    let body = "[{\"error\":{\"type\":101,\"address\":\"\",\"description\":\"link button not pressed\"}}]";
    let done = run(&command, &paired(), vec![ok(body)]);
    assert_eq!(
        done.lines,
        vec![
            String::from("Press the link button on the hue bridge, then press any button to continue"),
            String::from(
                "Unable to login to the philips hue bridge for the following reason: link button not pressed"
            ),
        ]
    );
    assert!(done.stored.is_empty());
    assert_eq!(done.ending, Ending::Reported);
}

#[test]
fn run_of_login_ignores_the_status_of_the_answer() {
    let command = Command::Login(String::from("hue-cli#laptop"));
    let reply = Response { status: 500, body: String::from("[{\"success\":{\"username\":\"fresh\"}}]") };
    let done = run(&command, &paired(), vec![reply]);
    assert_eq!(done.stored.len(), 1);
    assert_eq!(done.stored[0].username, "fresh");
}

#[test]
fn run_of_login_breaks_off_on_other_answers() {
    let command = Command::Login(String::from("hue-cli#laptop"));
    let done = run(&command, &paired(), vec![ok("[]")]);
    assert_eq!(done.ending, Ending::Aborted(Abort::NoCredential));
    assert!(done.stored.is_empty());
    let done = run(&command, &paired(), vec![ok("<html>")]);
    assert_eq!(done.ending, Ending::Aborted(Abort::Unrecognised));
    assert!(done.stored.is_empty());
}

#[test]
fn login_command_names_the_client_after_the_device() {
    assert_eq!(login_command("laptop"), Command::Login(String::from("hue-cli#laptop")));
    assert_eq!(login_command(""), Command::Login(String::from("hue-cli#")));
    assert_eq!(
        login_command("Ann's \"Mac\""),
        Command::Login(String::from("hue-cli#Ann's \"Mac\""))
    );
}

#[test]
fn run_of_login_sends_the_name_of_the_device() {
    let command = login_command("kitchen pi");
    let done = run(&command, &paired(), vec![ok("[{\"success\":{\"username\":\"fresh\"}}]")]);
    assert_eq!(done.sent[0].body, "{\"devicetype\":\"hue-cli#kitchen pi\"}");
    assert_eq!(done.stored[0].username, "fresh");
}

#[test]
fn run_of_list_shows_the_lights() {
    let done = run(&Command::List, &paired(), vec![ok(INVENTORY)]);
    assert_eq!(
        done,
        Run {
            lines: vec![String::from("Lamp 1: ON"), String::from("Lamp 2: OFF")],
            sent: vec![get(LIGHTS_URL, Reading::BodyIfOk)],
            stored: vec![],
            asked: 0,
            ending: Ending::Completed,
        }
    );
}

#[test]
fn run_of_list_with_a_failed_request_shows_the_diagnostic_alone() {
    let done = run(&Command::List, &paired(), vec![Response { status: 401, body: String::new() }]);
    assert_eq!(
        done.lines,
        vec![String::from(
            "Failed to contact https://discovery.meethue.com/. Status code: 401 Unauthorized"
        )]
    );
    assert_eq!(done.ending, Ending::Completed);
}

#[test]
fn run_of_list_breaks_off_on_an_unreadable_inventory() {
    let done = run(&Command::List, &paired(), vec![ok("[]")]);
    assert_eq!(done.ending, Ending::Aborted(Abort::Inventory(InventoryError::NotAnObject)));
    let done = run(&Command::List, &paired(), vec![ok("")]);
    assert_eq!(done.ending, Ending::Aborted(Abort::Inventory(InventoryError::NotJson)));
    let done = run(&Command::List, &paired(), vec![ok("{\"1\":{}}")]);
    assert_eq!(done.ending, Ending::Aborted(Abort::Inventory(InventoryError::BadLight)));
}

#[test]
fn run_of_a_change_finds_the_light_and_confirms() {
    let command = Command::Change(State::On(true), String::from("bed"));
    let done = run(&command, &paired(), vec![ok(INVENTORY), ok("[{\"success\":{\"/lights/2/state/on\":true}}]")]);
    assert_eq!(
        done,
        Run {
            lines: vec![String::from("Turned on Lamp 2 successfully")],
            sent: vec![
                get(LIGHTS_URL, Reading::BodyIfOk),
                Request {
                    method: Method::Put,
                    url: String::from("http://192.168.1.2/api/abcdef/lights/2/state"),
                    body: String::from("{\"on\":true}"),
                    reading: Reading::Body,
                },
            ],
            stored: vec![],
            asked: 0,
            ending: Ending::Completed,
        }
    );
}

#[test]
fn run_of_a_brightness_change_on_a_light_that_is_off() {
    let command = Command::Change(State::Bri(50), String::from("Lamp 2"));
    let refused = "[{\"error\":{\"type\":201,\"address\":\"/lights/2/state/bri\",\
\"description\":\"parameter, bri, is not modifiable. Device is set to off.\"}}]";
    let done = run(&command, &paired(), vec![ok(INVENTORY), ok(refused)]);
    assert_eq!(done.sent[1].body, "{\"bri\":127}");
    assert_eq!(
        done.lines,
        vec![String::from("Cannot set value on a light that is not turned on")]
    );
    assert_eq!(done.ending, Ending::Reported);
}

#[test]
fn run_of_a_change_reports_other_errors_in_the_words_of_the_bridge() {
    let command = Command::Change(State::On(false), String::from("Lamp 1"));
    let refused =
        "[{\"error\":{\"type\":901,\"address\":\"/lights/1\",\"description\":\"Internal error, 404\"}}]";
    let done = run(&command, &paired(), vec![ok(INVENTORY), ok(refused)]);
    assert_eq!(
        done.lines,
        vec![String::from(
            "Something went wrong when setting a state on the light: Internal error, 404"
        )]
    );
    assert_eq!(done.ending, Ending::Reported);
}

#[test]
fn run_of_a_change_of_an_unknown_light_sends_no_change() {
    let command = Command::Change(State::On(true), String::from("Lamp 9"));
    let done = run(&command, &paired(), vec![ok(INVENTORY)]);
    assert_eq!(done.lines, vec![String::from("Invalid light name Lamp 9")]);
    assert_eq!(done.sent, vec![get(LIGHTS_URL, Reading::BodyIfOk)]);
    assert_eq!(done.ending, Ending::Reported);
}

#[test]
fn run_of_a_change_with_a_failed_inventory_finds_no_light() {
    let command = Command::Change(State::On(true), String::from("Lamp 1"));
    let done = run(&command, &paired(), vec![Response { status: 500, body: String::new() }]);
    assert_eq!(
        done.lines,
        vec![
            String::from(
                "Failed to contact https://discovery.meethue.com/. Status code: 500 Internal Server Error"
            ),
            String::from("Invalid light name Lamp 1"),
        ]
    );
    assert_eq!(done.sent.len(), 1);
    assert_eq!(done.ending, Ending::Reported);
}

#[test]
fn run_of_a_change_breaks_off_on_an_unrecognised_answer() {
    let command = Command::Change(State::On(true), String::from("Lamp 1"));
    let done = run(&command, &paired(), vec![ok(INVENTORY), ok("oops")]);
    assert!(done.lines.is_empty());
    assert_eq!(done.ending, Ending::Aborted(Abort::Unrecognised));
}

#[test]
fn run_of_a_new_alias_stores_it() {
    let before = Config {
        url: String::from("192.168.1.2"),
        username: String::from("abcdef"),
        aliases: AliasTable::new(),
    };
    let command = Command::Alias(String::from("Lamp 1"), String::from("desk"));
    let done = run(&command, &before, vec![ok(INVENTORY)]);
    assert_eq!(
        done,
        Run {
            lines: vec![],
            sent: vec![get(LIGHTS_URL, Reading::BodyIfOk)],
            stored: vec![Config {
                url: String::from("192.168.1.2"),
                username: String::from("abcdef"),
                aliases: AliasTable::from_pairs(vec![(String::from("desk"), String::from("Lamp 1"))]),
            }],
            asked: 0,
            ending: Ending::Completed,
        }
    );
}

#[test]
fn run_of_an_alias_in_use_sends_and_stores_nothing() {
    let command = Command::Alias(String::from("Lamp 1"), String::from("bed"));
    let done = run(&command, &paired(), vec![]);
    assert_eq!(
        done,
        Run {
            lines: vec![String::from("Alias bed has already been set")],
            sent: vec![],
            stored: vec![],
            asked: 0,
            ending: Ending::Reported,
        }
    );
}

#[test]
fn run_of_an_alias_for_an_unknown_light_stores_nothing() {
    let command = Command::Alias(String::from("Lamp 9"), String::from("desk"));
    let done = run(&command, &paired(), vec![ok(INVENTORY)]);
    assert_eq!(done.lines, vec![String::from("Invalid light name: Lamp 9")]);
    assert!(done.stored.is_empty());
    assert_eq!(done.ending, Ending::Reported);
}

#[test]
fn run_of_an_alias_with_a_failed_inventory_stores_nothing() {
    let command = Command::Alias(String::from("Lamp 1"), String::from("desk"));
    let done = run(&command, &paired(), vec![Response { status: 404, body: String::new() }]);
    assert_eq!(
        done.lines,
        vec![
            String::from("Failed to contact https://discovery.meethue.com/. Status code: 404 Not Found"),
            String::from("Invalid light name: Lamp 1"),
        ]
    );
    assert!(done.stored.is_empty());
    assert_eq!(done.ending, Ending::Reported);
}

#[test]
fn event_out_of_turn_breaks_the_run_off() {
    let out_of_turn = Step {
        lines: vec![],
        store: None,
        action: Action::Finish(Ending::Aborted(Abort::OutOfTurn)),
    };
    let reply = Event::Reply(ok(INVENTORY));
    assert_eq!(advance(&Command::List, &paired(), Stage::Start, &reply), out_of_turn);
    assert_eq!(advance(&Command::List, &paired(), Stage::Start, &Event::Line), out_of_turn);
    assert_eq!(advance(&Command::List, &paired(), Stage::Listing, &Event::Begin), out_of_turn);
    assert_eq!(advance(&Command::List, &paired(), Stage::Probing, &reply), out_of_turn);
    assert_eq!(advance(&Command::Test, &paired(), Stage::Listing, &reply), out_of_turn);
    assert_eq!(advance(&Command::Discover, &paired(), Stage::Pairing, &reply), out_of_turn);
    assert_eq!(advance(&Command::Test, &paired(), Stage::Prompting, &Event::Line), out_of_turn);
    let login = Command::Login(String::from("hue-cli#laptop"));
    assert_eq!(advance(&login, &paired(), Stage::Prompting, &reply), out_of_turn);
    assert_eq!(advance(&login, &paired(), Stage::Pairing, &Event::Line), out_of_turn);
}

#[test]
fn brightness_command_is_made_of_a_valid_percentage_only() {
    assert_eq!(
        brightness_command("Lamp 1", "50"),
        Ok(Command::Change(State::Bri(50), String::from("Lamp 1")))
    );
    assert_eq!(
        brightness_command("Lamp 1", "100"),
        Ok(Command::Change(State::Bri(100), String::from("Lamp 1")))
    );
    assert_eq!(brightness_command("Lamp 1", "101"), Err(BrightnessError::OutOfRange));
    assert_eq!(brightness_command("Lamp 1", "-5"), Err(BrightnessError::InvalidDigit));
    assert_eq!(brightness_command("Lamp 1", "12.5"), Err(BrightnessError::InvalidDigit));
    assert_eq!(brightness_command("Lamp 1", "bright"), Err(BrightnessError::InvalidDigit));
    assert_eq!(brightness_command("Lamp 1", ""), Err(BrightnessError::Empty));
    assert_eq!(brightness_command("Lamp 1", "300"), Err(BrightnessError::TooLarge));
}

#[test]
fn light_is_addressed_by_its_place_in_the_inventory_not_by_its_key() {
    let inventory = "{\"1\":{\"name\":\"A\",\"state\":{\"on\":true,\"bri\":1}},\
\"2\":{\"name\":\"B\",\"state\":{\"on\":true,\"bri\":2}},\
\"10\":{\"name\":\"J\",\"state\":{\"on\":true,\"bri\":10}}}";
    let command = Command::Change(State::On(false), String::from("J"));
    let done = run(&command, &paired(), vec![ok(inventory), ok("[]")]);
    assert_eq!(done.sent[1].url, "http://192.168.1.2/api/abcdef/lights/2/state");
    assert_eq!(done.lines, vec![String::from("Turned off J successfully")]);
    let command = Command::Change(State::On(false), String::from("B"));
    let done = run(&command, &paired(), vec![ok(inventory), ok("[]")]);
    assert_eq!(done.sent[1].url, "http://192.168.1.2/api/abcdef/lights/3/state");
}
