use factoryplus::error::MqttError;
use factoryplus::service::auth::auth_models::{AceAction, FetchAclQuery, PostAceBody};
use factoryplus::service::auth::AuthInterface;
use factoryplus::service::cmdesc::{CmdEscInterface, CmdValue};
use factoryplus::service::configdb::configdb_models::{
    ObjectRegistration, PrincipalConfig, PutConfigBody,
};
use factoryplus::service::configdb::ConfigDbInterface;
use factoryplus::service::mqtt::protocol::MqttProtocol;
use factoryplus::service::mqtt::{ConnectReply, MQTTInterface};
use factoryplus::service::request::HttpRequestMethod;
use factoryplus::service::ServiceType;
use factoryplus::sparkplug::util::address::Address;
use factoryplus::uuids;
use http::header::CONTENT_TYPE;

const APP: u128 = 0x64a8bfa9_7772_45c4_9d1a_9e6290690957;
const OBJ: u128 = 0x11ad7b32_1d32_4c4a_b0c9_fa049208939a;
const APP_TEXT: &str = "64a8bfa9-7772-45c4-9d1a-9e6290690957";
const OBJ_TEXT: &str = "11ad7b32-1d32-4c4a-b0c9-fa049208939a";

fn store() -> ConfigDbInterface {
    ConfigDbInterface::from(
        "user".to_string(),
        "pass".to_string(),
        "https://dir.example".to_string(),
        "https://cfg.example".to_string(),
    )
}

fn pairs(list: &[(&str, &str)]) -> Vec<(String, String)> {
    list.iter().map(|(k, v)| (k.to_string(), v.to_string())).collect()
}

#[test]
fn entry_requests() {
    let path = format!("/v1/app/{}/object/{}", APP_TEXT, OBJ_TEXT);
    let get = store().get_config_request(APP, OBJ);
    assert_eq!(get.url, path);
    assert_eq!(get.service, ServiceType::ConfigDb);
    assert!(get.method == HttpRequestMethod::GET);
    assert!(get.body.is_none() && get.query.is_none() && get.headers.is_empty());
    let put = store().put_config(APP, OBJ, "{\"a\":1}".to_string());
    assert_eq!(put.url, path);
    assert!(put.method == HttpRequestMethod::PUT);
    assert_eq!(put.body.as_deref(), Some("{\"a\":1}"));
    let delete = store().delete_config(APP, OBJ);
    assert_eq!(delete.url, path);
    assert!(delete.method == HttpRequestMethod::DELETE);
    assert!(delete.body.is_none());
    let gone = store().delete_object(OBJ);
    assert_eq!(gone.url, format!("/v1/object/{}", OBJ_TEXT));
    assert!(gone.method == HttpRequestMethod::DELETE);
}

#[test]
fn a_patch_is_a_merge_patch() {
    let patch = store().patch_config(APP, OBJ, "{\"a\":null}".to_string()).unwrap();
    assert_eq!(patch.url, format!("/v1/app/{}/object/{}", APP_TEXT, OBJ_TEXT));
    assert!(patch.method == HttpRequestMethod::PATCH);
    assert_eq!(patch.headers.len(), 1);
    assert_eq!(patch.headers.get(CONTENT_TYPE).unwrap(), "application/merge-patch+json");
    assert_eq!(patch.body.as_deref(), Some("{\"a\":null}"));
    let e = store().patch_or_error(false, patch).unwrap_err();
    assert_eq!(e.message, "Couldn't create correct header value.");
    assert_eq!(e.url, format!("https://cfg.example/v1/app/{}/object/{}", APP_TEXT, OBJ_TEXT));
    let kept = store().patch_or_error(true, store().delete_object(OBJ)).unwrap();
    assert_eq!(kept.url, format!("/v1/object/{}", OBJ_TEXT));
}

#[test]
fn reading_an_entry() {
    let config = PrincipalConfig::from("G".to_string(), "N".to_string());
    let got = store().get_config(APP, OBJ, 200, Some(config)).unwrap().unwrap();
    assert_eq!(got.group_id, "G");
    assert_eq!(got.node_id, "N");
    assert!(store().get_config(APP, OBJ, 404, None).unwrap().is_none());
    let url = format!("https://cfg.example/v1/app/{}/object/{}", APP_TEXT, OBJ_TEXT);
    let e = store().get_config(APP, OBJ, 200, None).unwrap_err();
    assert_eq!(e.message, "Couldn't parse response into a principal config.");
    assert_eq!(e.url, url);
    for status in [201u16, 401, 403, 500] {
        let e = store().get_config(APP, OBJ, status, None).unwrap_err();
        assert_eq!(e.message, "Can't get object.");
        assert_eq!(e.url, url);
    }
}

#[test]
fn creating_an_object() {
    let class = uuids::types::DEVICE;
    let request = store().create_object_request(class, Some(OBJ));
    assert_eq!(request.url, "/v1/object");
    assert!(request.method == HttpRequestMethod::POST);
    assert_eq!(
        request.body.as_deref(),
        Some("{\"Uuid\":\"11ad7b32-1d32-4c4a-b0c9-fa049208939a\",\"Class\":\"18773d6d-a70d-443a-b29a-3f1583195290\"}")
    );
    let request = store().create_object_request(class, None);
    assert_eq!(
        request.body.as_deref(),
        Some("{\"Uuid\":\"00000000-0000-0000-0000-000000000000\",\"Class\":\"18773d6d-a70d-443a-b29a-3f1583195290\"}")
    );
    let parsed: serde_json::Value = serde_json::from_str(request.body.as_deref().unwrap()).unwrap();
    assert_eq!(parsed["Class"], "18773d6d-a70d-443a-b29a-3f1583195290");

    let reg = Some(ObjectRegistration::from(OBJ, class));
    assert_eq!(store().create_object(class, Some(OBJ), false, 201, reg).unwrap(), OBJ);
    assert_eq!(store().create_object(class, Some(OBJ), false, 200, reg).unwrap(), OBJ);
    assert_eq!(store().create_object(class, None, true, 201, reg).unwrap(), OBJ);
}

#[test]
fn failing_to_create_an_object() {
    let class = uuids::types::DEVICE;
    let reg = Some(ObjectRegistration::from(OBJ, class));
    let url = "https://cfg.example/v1/object";
    let e = store().create_object(class, Some(OBJ), true, 200, reg).unwrap_err();
    assert_eq!(e.message, format!("Exclusive create of {} failed", OBJ_TEXT));
    assert_eq!(e.url, url);
    let e = store().create_object(class, None, true, 200, reg).unwrap_err();
    assert_eq!(e.message, "Exclusive create of 00000000-0000-0000-0000-000000000000 failed");
    let e = store().create_object(class, Some(OBJ), false, 201, None).unwrap_err();
    assert_eq!(e.message, "Couldn't parse response into an object registration.");
    let e = store().create_object(class, Some(OBJ), false, 404, reg).unwrap_err();
    assert_eq!(e.message, format!("404 Not Found: Creating {} failed", OBJ_TEXT));
    assert_eq!(e.url, url);
    let e = store().create_object(class, None, false, 403, None).unwrap_err();
    assert_eq!(e.message, "403 Forbidden: Creating new 18773d6d-a70d-443a-b29a-3f1583195290 failed");
    let e = store().create_object(class, None, false, 500, None).unwrap_err();
    assert_eq!(
        e.message,
        "500 Internal Server Error: Creating new 18773d6d-a70d-443a-b29a-3f1583195290 failed"
    );
    let e = store().create_object(class, None, false, 599, None).unwrap_err();
    assert_eq!(
        e.message,
        "599 <unknown status code>: Creating new 18773d6d-a70d-443a-b29a-3f1583195290 failed"
    );
    let e = store().create_object(class, None, false, 42, None).unwrap_err();
    assert_eq!(e.message, "42: Creating new 18773d6d-a70d-443a-b29a-3f1583195290 failed");
}

#[test]
fn outcomes_with_the_words_given() {
    let class = uuids::types::DEVICE;
    let e = store()
        .create_object_outcome(class, Some(OBJ), false, 409, "conflict".to_string(), None)
        .unwrap_err();
    assert_eq!(e.message, format!("conflict: Creating {} failed", OBJ_TEXT));
    let e = store()
        .create_object_outcome(class, None, false, 409, "409 Conflict".to_string(), None)
        .unwrap_err();
    assert_eq!(e.message, "409 Conflict: Creating new 18773d6d-a70d-443a-b29a-3f1583195290 failed");
    let reg = Some(ObjectRegistration::from(OBJ, class));
    let id = store().create_object_outcome(class, None, false, 201, String::new(), reg).unwrap();
    assert_eq!(id, OBJ);
    let e = store()
        .resolve_outcome(APP, "the query".to_string(), None, Some(vec![1, 2]))
        .unwrap_err();
    assert_eq!(e.message, format!("Returned more than once result: {} with the query", APP_TEXT));
    assert_eq!(e.url, format!("https://cfg.example/v1/app/{}/search", APP_TEXT));
    assert_eq!(store().resolve_outcome(APP, String::new(), None, Some(vec![7])).unwrap(), Some(7));
    assert_eq!(store().resolve_outcome(APP, String::new(), None, None).unwrap(), None);
}

#[test]
fn search_parameters_are_merged() {
    let query = pairs(&[("a", "1"), ("b", "2"), ("a", "3")]);
    let results = pairs(&[("c", "4"), ("b", "5")]);
    let request = store().search_request(APP, &query, &results, None);
    assert_eq!(request.url, format!("/v1/app/{}/search", APP_TEXT));
    assert!(request.method == HttpRequestMethod::GET);
    assert_eq!(request.query, Some(pairs(&[("a", "3"), ("b", "5"), ("c", "4")])));
    let request = store().search_request(APP, &Vec::new(), &Vec::new(), Some("/class/x".to_string()));
    assert_eq!(request.url, format!("/v1/app/{}/class/x/search", APP_TEXT));
    assert_eq!(request.query, Some(Vec::new()));
}

#[test]
fn search_answers() {
    let body = "[\"11ad7b32-1d32-4c4a-b0c9-fa049208939a\", \"64A8BFA9-7772-45C4-9D1A-9E6290690957\"]";
    let ids = store().search(APP, None, 200, body).unwrap().unwrap();
    assert_eq!(ids, vec![OBJ, APP]);
    assert_eq!(store().search(APP, None, 200, "[]").unwrap(), Some(Vec::new()));
    assert_eq!(store().search(APP, None, 404, body).unwrap(), None);
    let url = format!("https://cfg.example/v1/app/{}/c/search", APP_TEXT);
    for bad in ["", "{}", "[1]", "[\"not-a-uuid\"]", "[\"11ad7b32\"", "null"] {
        let e = store().search(APP, Some("/c".to_string()), 200, bad).unwrap_err();
        assert_eq!(e.message, "Failed to parse a UUID from response.");
        assert_eq!(e.url, url);
    }
    let e = store().search(APP, Some("/c".to_string()), 500, body).unwrap_err();
    assert_eq!(e.message, "ConfigDB search failed.");
    assert_eq!(e.url, url);
    assert_eq!(store().search_outcome(APP, None, 200, Some(vec![1, 2])).unwrap(), Some(vec![1, 2]));
    assert!(store().search_outcome(APP, None, 200, None).is_err());
}

#[test]
fn resolving_to_one_object() {
    let query = pairs(&[("name", "Press \"7\""), ("k", "v")]);
    assert_eq!(store().resolve(APP, &query, None, Some(vec![OBJ])).unwrap(), Some(OBJ));
    assert_eq!(store().resolve(APP, &query, None, Some(Vec::new())).unwrap(), None);
    assert_eq!(store().resolve(APP, &query, None, None).unwrap(), None);
    let e = store().resolve(APP, &query, Some("/c".to_string()), Some(vec![OBJ, APP])).unwrap_err();
    assert_eq!(
        e.message,
        format!(
            "Returned more than once result: {} with {{\"name\": \"Press \\\"7\\\"\", \"k\": \"v\"}}",
            APP_TEXT
        )
    );
    assert_eq!(e.url, format!("https://cfg.example/v1/app/{}/c/search", APP_TEXT));
    let e = store().resolve(APP, &Vec::new(), None, Some(vec![1, 2, 3])).unwrap_err();
    assert_eq!(e.message, format!("Returned more than once result: {} with {{}}", APP_TEXT));
    let one = pairs(&[("a", "b")]);
    let e = store().resolve(APP, &one, None, Some(vec![1, 2])).unwrap_err();
    let shown = format!("{:?}", std::collections::BTreeMap::from([("a", "b")]));
    assert_eq!(e.message, format!("Returned more than once result: {} with {}", APP_TEXT, shown));
}

#[test]
fn store_values() {
    let body = PutConfigBody::from("name".to_string(), Some(true));
    assert_eq!(body.name, "name");
    assert_eq!(body.deleted, Some(true));
    let reg = ObjectRegistration::from(1, 2);
    assert_eq!((reg.uuid, reg.class), (1, 2));
    let s = store();
    assert_eq!(s.service_type, ServiceType::ConfigDb);
    assert_eq!(s.directory_url, "https://dir.example");
    assert_eq!(s.service_url, "https://cfg.example");
    let a = AuthInterface::from("u".to_string(), "p".to_string(), "d".to_string(), "s".to_string());
    assert_eq!(a.service_type, ServiceType::Authentication);
    assert_eq!((a.service_username.as_str(), a.service_password.as_str()), ("u", "p"));
    assert_eq!((a.directory_url.as_str(), a.service_url.as_str()), ("d", "s"));
    let ace = PostAceBody {
        permission: uuids::permission::auth::MANAGE_ACL,
        target: uuids::special::NULL,
        ace_action: AceAction::Add,
        principal: 1,
        kerberos: "user@REALM".to_string(),
    };
    assert!(ace.ace_action == AceAction::Add);
    let query = FetchAclQuery { principal: "p".to_string(), permission: "q".to_string(), by_uuid: true };
    assert!(query.by_uuid);
}

fn commands() -> CmdEscInterface {
    CmdEscInterface::from("user".to_string(), "pass".to_string(), "https://cmd.example".to_string())
}

#[test]
fn command_values() {
    assert_eq!(CmdValue::Bool(true).to_string(), "true");
    assert_eq!(CmdValue::Bool(false).to_string(), "false");
    assert_eq!(CmdValue::String("on".to_string()).to_string(), "\"on\"");
    assert_eq!(CmdValue::String(String::new()).to_string(), "\"\"");
}

#[test]
fn issuing_a_command() {
    let address = Address::from_str("G/N/D").unwrap();
    let request = commands().request_cmd(address, "Speed", "Int32", CmdValue::String("12".to_string()));
    assert_eq!(request.url, "/v1/address/G/N/D");
    assert_eq!(request.service, ServiceType::CommandEscalation);
    assert!(request.method == HttpRequestMethod::POST);
    assert_eq!(request.body.as_deref(), Some("{\"name\":\"Speed\",\"type\":\"Int32\",\"value\":\"12\"}"));
    assert!(request.headers.is_empty());
    assert!(request.query.is_none());
    assert_eq!(commands().service_type, ServiceType::CommandEscalation);
}

#[test]
fn rebirth_depends_on_the_kind_of_address() {
    let device = commands().rebirth(Address::from_str("G/N/D").unwrap());
    assert_eq!(device.url, "/v1/address/G/N/D");
    assert_eq!(
        device.body.as_deref(),
        Some("{\"name\":\"Device Control/Rebirth\",\"type\":\"Boolean\",\"value\":true}")
    );
    let node = commands().rebirth(Address::from_str("G/N").unwrap());
    assert_eq!(node.url, "/v1/address/G/N");
    assert_eq!(
        node.body.as_deref(),
        Some("{\"name\":\"Node Control/Rebirth\",\"type\":\"Boolean\",\"value\":true}")
    );
}

#[test]
fn transports_by_name() {
    for (word, protocol) in [
        ("tcp", MqttProtocol::TCP),
        ("TCP", MqttProtocol::TCP),
        ("ssl", MqttProtocol::SSL),
        ("SSL", MqttProtocol::SSL),
        ("mqtts", MqttProtocol::TLS),
        ("MQTTS", MqttProtocol::TLS),
    ] {
        assert_eq!(MqttProtocol::from_str(word).unwrap(), protocol);
    }
    assert_eq!(MqttProtocol::TCP.to_str(), "tcp");
    assert_eq!(MqttProtocol::SSL.to_str(), "ssl");
    assert_eq!(MqttProtocol::TLS.to_str(), "mqtts");
    assert_eq!("ssl".parse::<MqttProtocol>().unwrap(), MqttProtocol::SSL);
    for word in ["", "Tcp", "mqtt", "tls", "wss"] {
        let e: MqttError = MqttProtocol::from_str(word).unwrap_err();
        assert_eq!(e.message, "Couldn't determine protocol.");
    }
}

fn telemetry(url: &str) -> MQTTInterface {
    MQTTInterface::from("user".to_string(), "pass".to_string(), url.to_string())
}

#[test]
fn the_connection_plan() {
    let plan = telemetry("mqtts://mqtt.example").connection(MqttProtocol::TLS, 8883, "client-1").unwrap();
    assert_eq!(plan.uri, "mqtts://mqtt.example:8883");
    assert_eq!(plan.client_id, "client-1");
    assert_eq!(plan.username, "user");
    assert_eq!(plan.password, "pass");
    assert!(plan.clean_start);
    assert_eq!(plan.keep_alive_secs, 20);
    assert!(!plan.verify_server_cert);
    let plan = telemetry("tcp://m").connection(MqttProtocol::TCP, 0, "").unwrap();
    assert_eq!(plan.uri, "tcp://m:0");
    let plan = telemetry("tcp://m").connection(MqttProtocol::TCP, 65535, "").unwrap();
    assert_eq!(plan.uri, "tcp://m:65535");
    assert_eq!(telemetry("x").service_type, ServiceType::MQTT);
}

#[test]
fn connection_failures_are_told_apart() {
    let e = telemetry("").connection(MqttProtocol::TCP, 1883, "c").unwrap_err();
    assert_eq!(e.message, "No address known for the MQTT service.");
    let m = telemetry("tcp://m");
    assert!(m.get_mqtt_client(ConnectReply::Accepted).is_ok());
    let e = m.get_mqtt_client(ConnectReply::Unanswered).unwrap_err();
    assert_eq!(e.message, "No response from the MQTT service.");
    let e = m.get_mqtt_client(ConnectReply::Rejected("Bad user name or password".to_string())).unwrap_err();
    assert_eq!(e.message, "Bad user name or password");
}
