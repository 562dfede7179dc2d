use hue_cli::alias::{alias_request, resolve, set_alias, AliasError};
use hue_cli::config::{AliasTable, Config};
use hue_cli::exchange::{Method, Reading, Request};
use hue_cli::inventory::{Light, LightState};

fn light(name: &str) -> Light {
    Light { name: String::from(name), state: LightState { on: false, bri: Some(0) } }
}

fn inventory() -> Vec<Light> {
    vec![light("Lamp 1"), light("Lamp 2")]
}

fn config() -> Config {
    Config {
        url: String::from("192.168.1.2"),
        username: String::from("abcdef"),
        aliases: AliasTable::from_pairs(vec![(String::from("bed"), String::from("Lamp 2"))]),
    }
}

#[test]
fn alias_resolves_to_its_name() {
    assert_eq!(resolve("bed", &config()), "Lamp 2");
}

#[test]
fn other_names_resolve_to_themselves() {
    assert_eq!(resolve("Lamp 1", &config()), "Lamp 1");
    assert_eq!(resolve("Lamp 2", &config()), "Lamp 2");
    assert_eq!(resolve("Bed", &config()), "Bed");
    assert_eq!(resolve("", &config()), "");
    assert_eq!(resolve("bed", &Config::default()), "bed");
}

#[test]
fn aliases_are_resolved_once() {
    let mut chained = config();
    chained.aliases.insert(String::from("nap"), String::from("bed"));
    assert_eq!(resolve("nap", &chained), "bed");
}

#[test]
fn setting_an_alias_adds_it_and_changes_nothing_else() {
    let before = Config {
        url: String::from("192.168.1.2"),
        username: String::from("abcdef"),
        aliases: AliasTable::new(),
    };
    let after = set_alias("Lamp 1", "desk", &before, &inventory()).unwrap();
    assert_eq!(after.url, "192.168.1.2");
    assert_eq!(after.username, "abcdef");
    assert_eq!(after.aliases.pairs(), vec![(String::from("desk"), String::from("Lamp 1"))]);
    assert!(before.aliases.pairs().is_empty());
}

#[test]
fn setting_an_alias_keeps_the_others() {
    let after = set_alias("Lamp 1", "desk", &config(), &inventory()).unwrap();
    assert_eq!(after.aliases.get("desk"), Some(&String::from("Lamp 1")));
    assert_eq!(after.aliases.get("bed"), Some(&String::from("Lamp 2")));
    assert_eq!(after.aliases.pairs().len(), 2);
    assert_eq!(resolve("desk", &after), "Lamp 1");
    assert_eq!(resolve("bed", &after), "Lamp 2");
}

#[test]
fn alias_in_use_is_refused() {
    let result = set_alias("Lamp 1", "bed", &config(), &inventory());
    assert_eq!(result, Err(AliasError::Taken(String::from("bed"))));
    assert_eq!(result.unwrap_err().message(), "Alias bed has already been set");
}

#[test]
fn alias_in_use_is_refused_whatever_the_name() {
    let result = set_alias("No such lamp", "bed", &config(), &inventory());
    assert_eq!(result, Err(AliasError::Taken(String::from("bed"))));
    let result = set_alias("Lamp 2", "bed", &config(), &vec![]);
    assert_eq!(result, Err(AliasError::Taken(String::from("bed"))));
}

#[test]
fn alias_for_an_unknown_light_is_refused() {
    let result = set_alias("Lamp 9", "desk", &config(), &inventory());
    assert_eq!(result, Err(AliasError::UnknownLight(String::from("Lamp 9"))));
    assert_eq!(result.unwrap_err().message(), "Invalid light name: Lamp 9");
    let result = set_alias("Lamp 1", "desk", &config(), &vec![]);
    assert_eq!(result, Err(AliasError::UnknownLight(String::from("Lamp 1"))));
}

#[test]
fn alias_is_for_a_name_of_the_inventory_not_for_another_alias() {
    let result = set_alias("bed", "nap", &config(), &inventory());
    assert_eq!(result, Err(AliasError::UnknownLight(String::from("bed"))));
}

#[test]
fn alias_request_asks_for_the_inventory() {
    assert_eq!(
        alias_request("desk", &config()),
        Ok(Request {
            method: Method::Get,
            url: String::from("http://192.168.1.2/api/abcdef/lights"),
            body: String::new(),
            reading: Reading::BodyIfOk,
        })
    );
}

#[test]
fn alias_request_for_an_alias_in_use_sends_nothing() {
    assert_eq!(alias_request("bed", &config()), Err(AliasError::Taken(String::from("bed"))));
}
