use hue_cli::config::{AliasTable, Config};
use hue_cli::exchange::{
    base_url, failed_contact, lights_url, state_url, status_label, Reading, APPLICATION_NAME,
    BASE_PATH, DISCOVERY_URL, STATUS_OK,
};

fn paired() -> Config {
    Config {
        url: String::from("192.168.1.2"),
        username: String::from("abcdef"),
        aliases: AliasTable::new(),
    }
}

#[test]
fn constants_of_the_interface() {
    assert_eq!(DISCOVERY_URL, "https://discovery.meethue.com/");
    assert_eq!(BASE_PATH, "/api");
    assert_eq!(APPLICATION_NAME, "hue-cli");
    assert_eq!(STATUS_OK, 200);
}

#[test]
fn base_url_is_the_host_and_the_base_path() {
    assert_eq!(base_url(&paired()), "http://192.168.1.2/api");
    assert_eq!(base_url(&Config::default()), "http://127.0.0.1/api");
}

#[test]
fn lights_url_carries_the_credential() {
    assert_eq!(lights_url(&paired()), "http://192.168.1.2/api/abcdef/lights");
    assert_eq!(lights_url(&Config::default()), "http://127.0.0.1/api//lights");
}

#[test]
fn state_url_carries_the_address() {
    assert_eq!(state_url(&paired(), 1), "http://192.168.1.2/api/abcdef/lights/1/state");
    assert_eq!(state_url(&paired(), 12), "http://192.168.1.2/api/abcdef/lights/12/state");
    assert_eq!(state_url(&paired(), 128), "http://192.168.1.2/api/abcdef/lights/128/state");
}

#[test]
fn status_is_named_by_code_and_phrase() {
    assert_eq!(status_label(404), "404 Not Found");
    assert_eq!(status_label(200), "200 OK");
    assert_eq!(status_label(500), "500 Internal Server Error");
    assert_eq!(status_label(503), "503 Service Unavailable");
    assert_eq!(status_label(299), "299 <unknown status code>");
    assert_eq!(status_label(999), "999 <unknown status code>");
    assert_eq!(status_label(100), "100 Continue");
}

#[test]
fn number_that_is_no_status_is_named_by_itself() {
    assert_eq!(status_label(0), "0");
    assert_eq!(status_label(99), "99");
    assert_eq!(status_label(1000), "1000");
    assert_eq!(status_label(65535), "65535");
}

#[test]
fn status_is_named_as_the_client_library_prints_it() {
    for code in 100..1000u16 {
        let status = reqwest::StatusCode::from_u16(code).unwrap();
        assert_eq!(status_label(code), status.to_string());
    }
}

#[test]
fn failed_contact_names_the_status() {
    assert_eq!(
        failed_contact(404),
        "Failed to contact https://discovery.meethue.com/. Status code: 404 Not Found"
    );
    assert_eq!(
        failed_contact(500),
        "Failed to contact https://discovery.meethue.com/. Status code: 500 Internal Server Error"
    );
}

#[test]
fn body_is_read_as_the_request_says() {
    for status in [0u16, 199, 200, 201, 404, 500] {
        assert!(!Reading::Status.reads_body(status));
        assert!(Reading::Body.reads_body(status));
        assert_eq!(Reading::BodyIfOk.reads_body(status), status == 200);
    }
}

#[test]
fn status_label_begins_with_the_number() {
    for code in 0..=1100u16 {
        let label = status_label(code);
        let number = code.to_string();
        assert!(label.starts_with(&number));
        if (100..=999).contains(&code) {
            assert_eq!(&label[number.len()..number.len() + 1], " ");
            assert!(label.len() > number.len() + 1);
        } else {
            assert_eq!(label, number);
        }
    }
}
