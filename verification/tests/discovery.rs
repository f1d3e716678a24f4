use factoryplus::error::FetchError;
use factoryplus::service::directory::service_provider::{ServiceProvider, ServiceProviderList};
use factoryplus::service::directory::DirectoryInterface;
use factoryplus::service::discovery::{copy_strings, DiscoveryInterface};
use factoryplus::service::request::HttpRequestMethod;
use factoryplus::service::ServiceType;

fn directory() -> DirectoryInterface {
    DirectoryInterface::from("user".to_string(), "pass".to_string(), "https://dir.example".to_string())
}

fn only_directory() -> DiscoveryInterface {
    DiscoveryInterface::from(None, None, Some("https://dir.example".to_string()), None, None)
}

fn advert(url: Option<&str>) -> ServiceProvider {
    ServiceProvider { device: None, url: url.map(String::from) }
}

#[test]
fn configured_addresses_are_known_at_once() {
    let discovery = DiscoveryInterface::from(
        Some("https://auth".to_string()),
        Some("https://cfg".to_string()),
        Some("https://dir".to_string()),
        Some("mqtts://mqtt".to_string()),
        Some("https://cmd".to_string()),
    );
    assert_eq!(discovery.get_service_urls(ServiceType::Authentication), Some(vec!["https://auth".to_string()]));
    assert_eq!(discovery.get_service_urls(ServiceType::ConfigDb), Some(vec!["https://cfg".to_string()]));
    assert_eq!(discovery.get_service_urls(ServiceType::Directory), Some(vec!["https://dir".to_string()]));
    assert_eq!(discovery.get_service_urls(ServiceType::MQTT), Some(vec!["mqtts://mqtt".to_string()]));
    assert_eq!(discovery.get_service_urls(ServiceType::CommandEscalation), Some(vec!["https://cmd".to_string()]));
}

#[test]
fn unconfigured_roles_are_unknown() {
    let discovery = only_directory();
    assert!(discovery.get_service_urls(ServiceType::ConfigDb).is_none());
    assert!(discovery.get_service_urls(ServiceType::MQTT).is_none());
    assert!(discovery.get_service_urls(ServiceType::Directory).is_some());
}

#[test]
fn the_directory_is_asked_once() {
    let mut discovery = only_directory();
    let service = ServiceType::ConfigDb;
    let mut queries = 0;
    for _ in 0..5 {
        if discovery.get_service_urls(service).is_none() {
            queries += 1;
            let answer = Ok(Some(vec!["https://cfg.example".to_string()]));
            let urls = discovery.resolve(service, answer).unwrap();
            assert_eq!(urls, Some(vec!["https://cfg.example".to_string()]));
        }
        assert_eq!(
            discovery.get_service_urls(service),
            Some(vec!["https://cfg.example".to_string()])
        );
    }
    assert_eq!(queries, 1);
}

#[test]
fn a_later_answer_does_not_replace_what_is_known() {
    let mut discovery = only_directory();
    let service = ServiceType::MQTT;
    discovery.resolve(service, Ok(Some(vec!["mqtt://one".to_string()]))).unwrap();
    let urls = discovery.resolve(service, Ok(Some(vec!["mqtt://two".to_string()]))).unwrap();
    assert_eq!(urls, Some(vec!["mqtt://one".to_string()]));
    let e = FetchError { message: "m".to_string(), url: "u".to_string() };
    let urls = discovery.resolve(service, Err(e)).unwrap();
    assert_eq!(urls, Some(vec!["mqtt://one".to_string()]));
}

#[test]
fn failures_are_not_kept() {
    let mut discovery = only_directory();
    let service = ServiceType::Authentication;
    let e = FetchError { message: "Couldn't make request.".to_string(), url: "https://dir".to_string() };
    let back = discovery.resolve(service, Err(e)).unwrap_err();
    assert_eq!(back.message, "Couldn't make request.");
    assert_eq!(back.url, "https://dir");
    assert!(discovery.get_service_urls(service).is_none());
    assert_eq!(discovery.resolve(service, Ok(None)).unwrap(), None);
    assert!(discovery.get_service_urls(service).is_none());
    assert!(discovery.get_service_urls(ServiceType::Directory).is_some());
}

#[test]
fn an_empty_list_is_an_answer_too() {
    let mut discovery = only_directory();
    let service = ServiceType::CommandEscalation;
    assert_eq!(discovery.resolve(service, Ok(Some(Vec::new()))).unwrap(), Some(Vec::new()));
    assert_eq!(discovery.get_service_urls(service), Some(Vec::new()));
}

#[test]
fn setting_replaces_and_adding_appends() {
    let mut discovery = only_directory();
    let service = ServiceType::ConfigDb;
    assert_eq!(discovery.set_service_url(service, "https://a".to_string()), None);
    discovery.add_service_url(service, "https://b".to_string());
    assert_eq!(
        discovery.get_service_urls(service),
        Some(vec!["https://a".to_string(), "https://b".to_string()])
    );
    let previous = discovery.set_service_url(service, "https://c".to_string());
    assert_eq!(previous, Some(vec!["https://a".to_string(), "https://b".to_string()]));
    assert_eq!(discovery.get_service_urls(service), Some(vec!["https://c".to_string()]));
    discovery.add_service_url(ServiceType::MQTT, "mqtt://m".to_string());
    assert_eq!(discovery.get_service_urls(ServiceType::MQTT), Some(vec!["mqtt://m".to_string()]));
    assert_eq!(discovery.get_service_urls(ServiceType::Directory), Some(vec!["https://dir.example".to_string()]));
}

#[test]
fn the_directory_query() {
    let discovery = only_directory();
    let ask = discovery.find_service_urls(ServiceType::ConfigDb, &directory());
    assert_eq!(ask.url, "/v1/service/af15f175-78a0-4e05-97c0-2a0bb82b9f3b");
    assert_eq!(ask.service, ServiceType::Directory);
    assert!(ask.method == HttpRequestMethod::GET);
    assert!(ask.headers.is_empty());
    assert!(ask.query.is_none());
    assert!(ask.body.is_none());
    let ask = directory().service_urls_request(ServiceType::MQTT);
    assert_eq!(ask.url, "/v1/service/feb27ba3-bd2c-4916-9269-79a61ebc4a47");
}

#[test]
fn advertisements_without_an_address_are_passed_over() {
    let providers = vec![
        advert(Some("https://one.example/")),
        advert(None),
        advert(Some("https://two.example")),
        advert(Some("https://three.example//")),
        advert(Some("")),
        advert(Some("/")),
    ];
    let urls = directory().service_urls(200, Some(providers)).unwrap().unwrap();
    assert_eq!(urls, vec!["https://one.example", "https://two.example", "https://three.example/", "", ""]);
    assert_eq!(directory().service_urls(200, Some(Vec::new())).unwrap(), Some(Vec::new()));
}

#[test]
fn an_unreadable_answer_is_an_error() {
    let e = directory().service_urls(200, None).unwrap_err();
    assert_eq!(e.message, "Couldn't decode service response.");
    assert_eq!(e.url, "https://dir.example");
}

#[test]
fn other_statuses_yield_nothing() {
    for status in [201u16, 204, 401, 404, 500] {
        assert_eq!(directory().service_urls(status, None).unwrap(), None);
        let some = Some(vec![advert(Some("https://x"))]);
        assert_eq!(directory().service_urls(status, some).unwrap(), None);
    }
}

#[test]
fn publishing_an_address() {
    let put = directory().register_service_url("my-service".to_string(), "https://me.example".to_string());
    assert_eq!(put.url, "/v1/service/my-service/advertisement");
    assert_eq!(put.service, ServiceType::Directory);
    assert!(put.method == HttpRequestMethod::PUT);
    assert_eq!(put.body.unwrap(), "{\"url\": \"https://me.example\"}");
    assert!(put.query.is_none());
}

#[test]
fn provider_values() {
    let p = ServiceProvider::from(7, "https://x".to_string());
    assert_eq!(p.device, Some(7));
    assert_eq!(p.url.as_deref(), Some("https://x"));
    let list = ServiceProviderList::from(vec![p]);
    assert_eq!(list.list.len(), 1);
    let d = directory();
    assert_eq!(d.service_type, ServiceType::Directory);
    assert_eq!(d.service_username, "user");
    assert_eq!(d.service_password, "pass");
    assert_eq!(copy_strings(&vec!["a".to_string(), "b".to_string()]), vec!["a", "b"]);
}
