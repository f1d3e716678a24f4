use factoryplus::error::{FetchError, MqttError, ServiceError};
use factoryplus::service::ServiceCreds;
use factoryplus::service::ServiceType;
use factoryplus::text::{decimal_string, same_text, split_on, without_trailing};
use factoryplus::uuids;

#[test]
fn splitting_keeps_empty_pieces() {
    assert_eq!(split_on("", '/'), vec![""]);
    assert_eq!(split_on("abc", '/'), vec!["abc"]);
    assert_eq!(split_on("a/b", '/'), vec!["a", "b"]);
    assert_eq!(split_on("/", '/'), vec!["", ""]);
    assert_eq!(split_on("a//b/", '/'), vec!["a", "", "b", ""]);
    assert_eq!(split_on("a,b/c", ','), vec!["a", "b/c"]);
}

#[test]
fn splitting_agrees_with_the_standard_library() {
    for text in ["", "/", "a/b/c", "//a//", "no separator", "ünï/cødé/✓"] {
        let expected: Vec<String> = text.split('/').map(String::from).collect();
        assert_eq!(split_on(text, '/'), expected);
        assert_eq!(split_on(text, '/').join("/"), text);
    }
}

#[test]
fn decimal_numerals() {
    assert_eq!(decimal_string(0), "0");
    assert_eq!(decimal_string(7), "7");
    assert_eq!(decimal_string(10), "10");
    assert_eq!(decimal_string(404), "404");
    assert_eq!(decimal_string(65535), "65535");
    assert_eq!(decimal_string(1234567890), "1234567890");
    assert_eq!(decimal_string(u64::MAX), "18446744073709551615");
}

#[test]
fn one_trailing_character_is_removed() {
    assert_eq!(without_trailing("https://cfg.example/", '/'), "https://cfg.example");
    assert_eq!(without_trailing("https://cfg.example//", '/'), "https://cfg.example/");
    assert_eq!(without_trailing("https://cfg.example", '/'), "https://cfg.example");
    assert_eq!(without_trailing("/", '/'), "");
    assert_eq!(without_trailing("", '/'), "");
    assert_eq!(without_trailing("/a", '/'), "/a");
}

#[test]
fn texts_compare_by_content() {
    assert!(same_text("+", "+"));
    assert!(same_text("", ""));
    assert!(!same_text("+", "++"));
    assert!(!same_text("a", "A"));
}

#[test]
fn identifiers_are_written_hyphenated() {
    assert_eq!(uuids::to_text(uuids::service::DIRECTORY), "af4a1d66-e6f7-43c4-8a67-0fa3be2b1cf9");
    assert_eq!(uuids::to_text(uuids::special::NULL), "00000000-0000-0000-0000-000000000000");
    assert_eq!(uuids::to_text(u128::MAX), "ffffffff-ffff-ffff-ffff-ffffffffffff");
    assert_eq!(
        uuids::to_text(0x0123456789abcdef_fedcba9876543210),
        "01234567-89ab-cdef-fedc-ba9876543210"
    );
    assert_eq!(uuids::to_text(1), "00000000-0000-0000-0000-000000000001");
}

#[test]
fn identifiers_agree_with_the_uuid_crate() {
    for (value, text) in [
        (uuids::types::APP, "d319bd87-f42b-4b66-be4f-f82ff48b93f0"),
        (uuids::app::REGISTRATION, "cb40bed5-49ad-4443-a7f5-08c75009da8f"),
        (uuids::schema::SERVICE, "05688a03-730e-4cda-9932-172e2c62e45c"),
        (uuids::special::FACTORY_PLUS, "11ad7b32-1d32-4c4a-b0c9-fa049208939a"),
        (uuids::permission::auth::READ_ACL, "ba566181-0e8a-405b-b16e-3fb89130fbee"),
        (uuids::permission::cmd_esc::REBIRTH, "fbb9c25d-386d-4966-a325-f16471d9f7be"),
        (uuids::permission::config_db::READ_CONFIG, "4a339562-cd57-408d-9d1a-6529a383ea4b"),
        (uuids::permission::directory::ADVERTISE_SERVICE, "4db4c39a-f18d-4e83-aeb0-5af2c14ddc2b"),
    ] {
        assert_eq!(uuid::Uuid::parse_str(text).unwrap().as_u128(), value);
        assert_eq!(uuids::to_text(value), text);
    }
}

#[test]
fn every_role_has_its_identifier() {
    assert_eq!(ServiceType::Directory.to_uuid(), uuids::service::DIRECTORY);
    assert_eq!(ServiceType::ConfigDb.to_uuid(), uuids::service::CONFIG_DB);
    assert_eq!(ServiceType::Authentication.to_uuid(), uuids::service::AUTHENTICATION);
    assert_eq!(ServiceType::MQTT.to_uuid(), uuids::service::MQTT);
    assert_eq!(ServiceType::CommandEscalation.to_uuid(), uuids::service::COMMAND_ESCALATION);
}

#[test]
fn roles_are_shown_with_name_and_identifier() {
    assert_eq!(
        ServiceType::Directory.to_string(),
        "Directory service (af4a1d66-e6f7-43c4-8a67-0fa3be2b1cf9)"
    );
    assert_eq!(
        ServiceType::ConfigDb.to_string(),
        "ConfigDb service (af15f175-78a0-4e05-97c0-2a0bb82b9f3b)"
    );
    assert_eq!(
        ServiceType::Authentication.to_string(),
        "Authentication service (cab2642a-f7d9-42e5-8845-8f35affe1fd4)"
    );
    assert_eq!(ServiceType::MQTT.to_string(), "MQTT service (feb27ba3-bd2c-4916-9269-79a61ebc4a47)");
    assert_eq!(
        ServiceType::CommandEscalation.to_string(),
        "CommandEscalation service (78ea7071-24ac-4916-8351-aa3e549d8ccd)"
    );
}

#[test]
fn errors_are_shown_as_sentences() {
    let fetch = FetchError { message: "Couldn't make request".to_string(), url: "https://x/y".to_string() };
    assert_eq!(fetch.to_string(), "Error fetching from https://x/y. Message: Couldn't make request.");
    let service = ServiceError {
        service: ServiceType::ConfigDb,
        message: "Object not found".to_string(),
        status: "404".to_string(),
    };
    assert_eq!(
        service.to_string(),
        "Service error in service ConfigDb service (af15f175-78a0-4e05-97c0-2a0bb82b9f3b). Message: Object not found (404)."
    );
    let mqtt = MqttError { message: "refused".to_string() };
    assert_eq!(mqtt.to_string(), "MQTT error: refused.");
}

#[test]
fn a_fetch_error_becomes_a_transport_error() {
    let fetch = FetchError { message: "no token".to_string(), url: "https://x".to_string() };
    let copy = fetch.clone();
    assert_eq!(copy.message, "no token");
    assert_eq!(copy.url, "https://x");
    let mqtt = MqttError::from(fetch);
    assert_eq!(mqtt.message, "no token");
}

#[test]
fn credentials_are_kept() {
    let empty = ServiceCreds::new();
    assert_eq!(empty.username(), "");
    assert_eq!(empty.password(), "");
    let creds = ServiceCreds::from("sv1user", "SECRET-REDACTED");
    assert_eq!(creds.username(), "sv1user");
    assert_eq!(creds.password(), "SECRET-REDACTED");
}
