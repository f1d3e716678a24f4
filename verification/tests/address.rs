use factoryplus::sparkplug::util::address::{Address, AddressType};
use factoryplus::sparkplug::util::topic::TopicType;

fn node(group: &str, node: &str) -> Address {
    Address { group: group.to_string(), node: node.to_string(), address_type: AddressType::Node }
}

fn device(group: &str, node: &str, name: &str) -> Address {
    Address {
        group: group.to_string(),
        node: node.to_string(),
        address_type: AddressType::Device(name.to_string()),
    }
}

#[test]
fn parses_a_device_address_and_writes_it_back() {
    let text = "FactoryPlus/Line1/Press1";
    let address = Address::from_str(text).unwrap();
    assert_eq!(address.group, "FactoryPlus");
    assert_eq!(address.node, "Line1");
    assert_eq!(address.address_type, AddressType::Device("Press1".to_string()));
    assert!(address.is_device());
    assert_eq!(address.to_string(), text);
}

#[test]
fn parses_a_node_address_and_writes_it_back() {
    let address = Address::from_str("Group/Node").unwrap();
    assert_eq!(address.group, "Group");
    assert_eq!(address.node, "Node");
    assert_eq!(address.address_type, AddressType::Node);
    assert!(!address.is_device());
    assert_eq!(address.to_string(), "Group/Node");
}

#[test]
fn wrong_segment_counts_are_errors() {
    for text in ["", "alone", "a/b/c/d", "a/b/c/d/e", "////"] {
        match Address::from_str(text) {
            Ok(_) => panic!("{:?} was accepted", text),
            Err(e) => assert_eq!(e.message, "Couldn't parse address."),
        }
    }
}

#[test]
fn group_and_node_are_never_empty() {
    for text in ["/", "/b", "a/", "//", "/b/c", "a//c", "//c"] {
        match Address::from_str(text) {
            Ok(_) => panic!("{:?} was accepted", text),
            Err(e) => assert_eq!(e.message, "Couldn't parse address."),
        }
    }
    let address = Address::from_str("a/b/").unwrap();
    assert_eq!(address.address_type, AddressType::Device(String::new()));
    assert_eq!(address.to_string(), "a/b/");
}

#[test]
fn address_round_trip() {
    for text in ["a/b", "a/b/c", "+/+/+", "Grp/Nd.1/Dev 2", "+/+", "x/y/"] {
        let first = Address::from_str(text).unwrap();
        let again = Address::from_str(&first.to_string()).unwrap();
        assert!(first == again);
        assert_eq!(first.to_string(), text);
    }
}

#[test]
fn unicode_segments_survive() {
    let address = Address::from_str("Werk/Linie-ä/Preße").unwrap();
    assert_eq!(address.node, "Linie-ä");
    assert_eq!(address.to_string(), "Werk/Linie-ä/Preße");
}

#[test]
fn full_wildcard_matches_every_device_and_no_node() {
    let pattern = device("+", "+", "+");
    assert!(pattern.matches(&device("G", "N", "D")));
    assert!(pattern.matches(&device("g", "n", "")));
    assert!(pattern.matches(&device("+", "+", "+")));
    assert!(pattern.matches(&device("Other", "Node-2", "Press 7")));
    assert!(!pattern.matches(&node("G", "N")));
    assert!(!pattern.matches(&node("+", "+")));
}

#[test]
fn matching_is_asymmetric() {
    let pattern = device("+", "N", "+");
    let concrete = device("G", "N", "D");
    assert!(pattern.matches(&concrete));
    assert!(!concrete.matches(&pattern));
}

#[test]
fn literal_segments_must_be_equal() {
    assert!(node("G", "N").matches(&node("G", "N")));
    assert!(!node("G", "N").matches(&node("G", "M")));
    assert!(!node("G", "N").matches(&node("H", "N")));
    assert!(node("+", "N").matches(&node("H", "N")));
    assert!(node("G", "+").matches(&node("G", "M")));
    assert!(!node("G", "N").matches(&device("G", "N", "D")));
    assert!(device("G", "N", "D").matches(&device("G", "N", "D")));
    assert!(!device("G", "N", "D").matches(&device("G", "N", "E")));
    assert!(!device("G", "N", "D").matches(&node("G", "N")));
}

#[test]
fn kind_letters() {
    assert_eq!(node("G", "N").topic_kind(), "N");
    assert_eq!(device("G", "N", "D").topic_kind(), "D");
    assert_eq!(AddressType::Node.to_string(), "N");
    assert_eq!(AddressType::Device("x".to_string()).to_string(), "D");
}

#[test]
fn topic_of_an_address() {
    let address = device("G", "N", "D");
    let topic = address.to_topic(TopicType::DDATA);
    assert_eq!(topic.prefix, "spBv1.0");
    assert!(topic.address == address);
    assert_eq!(topic.topic_type, TopicType::DDATA);
    assert_eq!(topic.to_string(), "spBv1.0/G/DDATA/N/D");
}

#[test]
fn parent_and_child() {
    let press = device("G", "N", "D");
    assert!(press.parent_node() == node("G", "N"));
    assert!(node("G", "N").parent_node() == node("G", "N"));
    let child = node("G", "N").child_device("D").unwrap();
    assert!(child == press);
    assert!(press.child_device("E").is_none());
}

#[test]
fn clones_are_equal() {
    let press = device("G", "N", "D");
    assert!(press.clone() == press);
    assert!(press != node("G", "N"));
    assert!(AddressType::Node != AddressType::Device("N".to_string()));
}

#[test]
fn addresses_parse_from_strings() {
    let address: Address = "G/N/D".parse().unwrap();
    assert!(address == device("G", "N", "D"));
    assert!("G".parse::<Address>().is_err());
}
