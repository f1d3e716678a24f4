//! Addresses: a group, a node within it, and optionally a device below the
//! node. The wire form is `group/node` or `group/node/device`.
//!
//! Group and node of an address are never empty. Reading an address
//! establishes this, and every function that makes an address from another
//! preserves it.

use crate::error::SparkplugError;
use crate::sparkplug::util::sp_prefix;
use crate::sparkplug::util::topic::{Topic, TopicType};
use crate::text::{join, lemma_join_split, lemma_split_join, same_text, split, split_on, views};
use vstd::prelude::*;
use vstd::string::StringExecFns;

verus! {

/// What an address names: a node itself, or a device below it.
#[derive(Debug)]
pub enum AddressType {
    /// Wraps the device name if the address is for a device.
    Device(String),
    Node,
}

/// The mathematical value of an [`AddressType`].
pub ghost enum TargetView {
    Device(Seq<char>),
    Node,
}

impl View for AddressType {
    type V = TargetView;

    open spec fn view(&self) -> TargetView {
        match self {
            AddressType::Device(name) => TargetView::Device(name@),
            AddressType::Node => TargetView::Node,
        }
    }
}

/// A name in the telemetry namespace.
#[derive(Debug)]
pub struct Address {
    pub group: String,
    pub node: String,
    pub address_type: AddressType,
}

/// The mathematical value of an [`Address`].
pub ghost struct AddressView {
    pub group: Seq<char>,
    pub node: Seq<char>,
    pub target: TargetView,
}

impl View for Address {
    type V = AddressView;

    open spec fn view(&self) -> AddressView {
        AddressView { group: self.group@, node: self.node@, target: self.address_type@ }
    }
}

/// The text that stands for "anything" in a pattern.
pub open spec fn wildcard() -> Seq<char> {
    "+"@
}

/// A pattern segment `p` accepts a segment `a` when they are equal or when
/// the pattern is the wildcard.
pub open spec fn wild(p: Seq<char>, a: Seq<char>) -> bool {
    p == a || p == wildcard()
}

/// A pattern target `p` accepts a target `a` when they are equal, or when the
/// pattern is the device wildcard and `a` is any device. The device wildcard
/// never accepts a node.
pub open spec fn wild_target(p: TargetView, a: TargetView) -> bool {
    p == a || (p == TargetView::Device(wildcard()) && a is Device)
}

impl AddressView {
    /// True when neither group nor node is empty.
    pub open spec fn well_formed(self) -> bool {
        self.group.len() > 0 && self.node.len() > 0
    }

    /// Wildcard comparison, with `self` as the pattern and `other` as the
    /// concrete address.
    pub open spec fn matches(self, other: AddressView) -> bool {
        wild(self.group, other.group) && wild(self.node, other.node) && wild_target(
            self.target,
            other.target,
        )
    }

    /// The segments of the wire form.
    pub open spec fn segments(self) -> Seq<Seq<char>> {
        match self.target {
            TargetView::Device(name) => seq![self.group, self.node, name],
            TargetView::Node => seq![self.group, self.node],
        }
    }

    /// The wire form: `group/node`, with `/device` appended for a device.
    pub open spec fn text(self) -> Seq<char> {
        join(self.segments(), '/')
    }

    /// True when no segment contains the separator, so that the wire form
    /// can be read back.
    pub open spec fn separable(self) -> bool {
        forall|i: int|
            0 <= i < self.segments().len() ==> !(#[trigger] self.segments()[i]).contains('/')
    }
}

/// The address that a sequence of segments spells: two segments name a node,
/// three name a device, and any other count names nothing. Neither the
/// group nor the node may be empty.
pub open spec fn address_of(segments: Seq<Seq<char>>) -> Option<AddressView> {
    if segments.len() < 2 || segments[0].len() == 0 || segments[1].len() == 0 {
        None
    } else if segments.len() == 2 {
        Some(AddressView { group: segments[0], node: segments[1], target: TargetView::Node })
    } else if segments.len() == 3 {
        Some(
            AddressView {
                group: segments[0],
                node: segments[1],
                target: TargetView::Device(segments[2]),
            },
        )
    } else {
        None
    }
}

/// The address that the text `s` spells, if any.
pub open spec fn parse_address(s: Seq<char>) -> Option<AddressView> {
    address_of(split(s, '/'))
}

/// The message of the error returned for a malformed address.
pub open spec fn address_error_text() -> Seq<char> {
    "Couldn't parse address."@
}

impl Clone for AddressType {
    fn clone(&self) -> (r: Self)
        ensures
            r == *self,
    {
        match self {
            AddressType::Device(name) => AddressType::Device(name.clone()),
            AddressType::Node => AddressType::Node,
        }
    }
}

impl Clone for Address {
    fn clone(&self) -> (r: Self)
        ensures
            r == *self,
    {
        Address {
            group: self.group.clone(),
            node: self.node.clone(),
            address_type: self.address_type.clone(),
        }
    }
}

impl PartialEq for AddressType {
    fn eq(&self, other: &Self) -> (b: bool) {
        self.same(other)
    }
}

impl vstd::std_specs::cmp::PartialEqSpecImpl for AddressType {
    open spec fn obeys_eq_spec() -> bool {
        true
    }

    open spec fn eq_spec(&self, other: &Self) -> bool {
        self@ == other@
    }
}

impl PartialEq for Address {
    fn eq(&self, other: &Self) -> (b: bool) {
        self.group == other.group && self.node == other.node && self.address_type.same(
            &other.address_type,
        )
    }
}

impl vstd::std_specs::cmp::PartialEqSpecImpl for Address {
    open spec fn obeys_eq_spec() -> bool {
        true
    }

    open spec fn eq_spec(&self, other: &Self) -> bool {
        self@ == other@
    }
}

impl AddressType {
    /// True when both name the same target.
    pub fn same(&self, other: &AddressType) -> (b: bool)
        ensures
            b == (self@ == other@),
    {
        match self {
            AddressType::Device(a) => match other {
                AddressType::Device(b) => *a == *b,
                AddressType::Node => false,
            },
            AddressType::Node => match other {
                AddressType::Device(_) => false,
                AddressType::Node => true,
            },
        }
    }

    /// The one-letter kind: `D` for a device, `N` for a node.
    pub open spec fn kind_text(self) -> Seq<char> {
        match self {
            AddressType::Device(_) => "D"@,
            AddressType::Node => "N"@,
        }
    }

    pub fn to_string(&self) -> (s: String)
        ensures
            s@ == self.kind_text(),
    {
        match self {
            AddressType::Device(_) => String::from_str("D"),
            AddressType::Node => String::from_str("N"),
        }
    }
}

impl Address {
    /// Reads an address from its wire form. The text is split on `/`; two
    /// segments give a node address, three a device address, and every other
    /// count is an error. So is an empty group or node.
    pub fn from_str(s: &str) -> (r: Result<Address, SparkplugError>)
        ensures
            match r {
                Ok(a) => parse_address(s@) == Some(a@) && a@.well_formed(),
                Err(e) => parse_address(s@) is None && e.message@ == address_error_text(),
            },
    {
        let mut segments = split_on(s, '/');
        let ghost all = views(segments@);
        if segments.len() < 2 || segments[0].as_str().is_empty() || segments[1].as_str().is_empty() {
            proof {
                if segments.len() >= 2 {
                    assert(all[0] == segments@[0]@);
                    assert(all[1] == segments@[1]@);
                }
            }
            Err(SparkplugError { message: String::from_str("Couldn't parse address.") })
        } else if segments.len() == 2 {
            let node = segments.pop().unwrap();
            let group = segments.pop().unwrap();
            proof {
                assert(node@ == all[1]);
                assert(group@ == all[0]);
            }
            Ok(Address { group, node, address_type: AddressType::Node })
        } else if segments.len() == 3 {
            let device = segments.pop().unwrap();
            let node = segments.pop().unwrap();
            let group = segments.pop().unwrap();
            proof {
                assert(device@ == all[2]);
                assert(node@ == all[1]);
                assert(group@ == all[0]);
            }
            Ok(Address { group, node, address_type: AddressType::Device(device) })
        } else {
            Err(SparkplugError { message: String::from_str("Couldn't parse address.") })
        }
    }

    /// Writes the wire form: `group/node`, or `group/node/device`.
    pub fn to_string(&self) -> (s: String)
        ensures
            s@ == self@.text(),
    {
        let mut s = self.group.clone();
        s.append("/");
        s.append(self.node.as_str());
        proof {
            reveal_strlit("/");
            assert("/"@ =~= seq!['/']);
            reveal_with_fuel(join, 4);
            assert(s@ =~= join(seq![self.group@, self.node@], '/'));
        }
        match &self.address_type {
            AddressType::Device(name) => {
                s.append("/");
                s.append(name.as_str());
                proof {
                    let three = seq![self.group@, self.node@, name@];
                    assert(three.drop_last() =~= seq![self.group@, self.node@]);
                    assert(s@ =~= join(three, '/'));
                }
            },
            AddressType::Node => {},
        }
        s
    }

    /// Wildcard comparison. The receiver is the pattern and `other` the
    /// concrete address: group and node match when equal or when the pattern
    /// holds `+`; the target matches when equal, or when the pattern is the
    /// device `+` and `other` is any device.
    pub fn matches(&self, other: &Address) -> (b: bool)
        ensures
            b == self@.matches(other@),
    {
        let group_ok = self.group == other.group || same_text(self.group.as_str(), "+");
        let node_ok = self.node == other.node || same_text(self.node.as_str(), "+");
        let target_ok = self.address_type.same(&other.address_type) || (match &self.address_type {
            AddressType::Device(name) => same_text(name.as_str(), "+") && other.is_device(),
            AddressType::Node => false,
        });
        group_ok && node_ok && target_ok
    }

    /// True for a device address, false for a node address.
    pub fn is_device(&self) -> (b: bool)
        ensures
            b == (self@.target is Device),
    {
        match self.address_type {
            AddressType::Device(_) => true,
            AddressType::Node => false,
        }
    }

    /// The one-letter kind used in topic names: `D` or `N`.
    pub fn topic_kind(&self) -> (s: String)
        ensures
            s@ == self.address_type.kind_text(),
    {
        self.address_type.to_string()
    }

    /// The topic of the given kind for this address, under the fixed
    /// namespace prefix.
    pub fn to_topic(&self, topic_type: TopicType) -> (t: Topic)
        ensures
            t.prefix@ == crate::sparkplug::util::prefix_text(),
            t.address == *self,
            t.topic_type == topic_type,
    {
        Topic { prefix: sp_prefix(), address: self.clone(), topic_type }
    }

    /// The address of the node that this address is, or lies below.
    pub fn parent_node(&self) -> (a: Address)
        ensures
            a@ == (AddressView { target: TargetView::Node, ..self@ }),
            self@.well_formed() ==> a@.well_formed(),
    {
        Address {
            group: self.group.clone(),
            node: self.node.clone(),
            address_type: AddressType::Node,
        }
    }

    /// The address of the device `name` below this node. Only a node has
    /// devices: on a device address the answer is `None`.
    pub fn child_device(&self, name: &str) -> (r: Option<Address>)
        ensures
            match r {
                Some(a) => {
                    &&& self@.target is Node
                    &&& a@ == (AddressView { target: TargetView::Device(name@), ..self@ })
                    &&& self@.well_formed() ==> a@.well_formed()
                },
                None => self@.target is Device,
            },
    {
        match self.address_type {
            AddressType::Device(_) => None,
            AddressType::Node => Some(
                Address {
                    group: self.group.clone(),
                    node: self.node.clone(),
                    address_type: AddressType::Device(String::from_str(name)),
                },
            ),
        }
    }
}

impl std::str::FromStr for Address {
    type Err = SparkplugError;

    /// Reads an address from its wire form, as [`Address::from_str`] does.
    fn from_str(s: &str) -> (r: Result<Self, SparkplugError>)
        ensures
            match r {
                Ok(a) => parse_address(s@) == Some(a@) && a@.well_formed(),
                Err(e) => parse_address(s@) is None && e.message@ == address_error_text(),
            },
    {
        Address::from_str(s)
    }
}

/// Writing a parsed address gives back the text it was read from.
pub proof fn lemma_text_of_parsed(s: Seq<char>)
    requires
        parse_address(s) is Some,
    ensures
        parse_address(s).unwrap().text() == s,
{
    let segments = split(s, '/');
    lemma_join_split(s, '/');
    assert(parse_address(s).unwrap().segments() =~= segments);
}

/// Reading the text of an address whose segments hold no `/` gives back the
/// address.
pub proof fn law_address_read_back(a: AddressView)
    requires
        a.well_formed(),
        a.separable(),
    ensures
        parse_address(a.text()) == Some(a),
{
    lemma_split_join(a.segments(), '/');
}

/// Round trip: for every text that parses, parsing what the parsed address
/// writes gives the same address again.
pub proof fn law_address_round_trip(s: Seq<char>)
    requires
        parse_address(s) is Some,
    ensures
        parse_address(parse_address(s).unwrap().text()) == parse_address(s),
{
    lemma_text_of_parsed(s);
}

/// A text parses exactly when it has two or three segments of which the
/// first two are not empty. With any other count nothing is produced, and
/// what is produced is well formed.
pub proof fn law_segment_count(s: Seq<char>)
    ensures
        parse_address(s) is Some <==> {
            &&& split(s, '/').len() == 2 || split(s, '/').len() == 3
            &&& split(s, '/')[0].len() > 0
            &&& split(s, '/')[1].len() > 0
        },
        split(s, '/').len() != 2 && split(s, '/').len() != 3 ==> parse_address(s) is None,
        parse_address(s) is Some ==> parse_address(s).unwrap().well_formed(),
{
}

/// The pattern `+/+/+` accepts every device address and no node address.
pub proof fn law_wildcard(group: Seq<char>, node: Seq<char>, device: Seq<char>)
    ensures
        ({
            let pattern = AddressView {
                group: wildcard(),
                node: wildcard(),
                target: TargetView::Device(wildcard()),
            };
            &&& pattern.matches(AddressView { group, node, target: TargetView::Device(device) })
            &&& !pattern.matches(AddressView { group, node, target: TargetView::Node })
        }),
{
}

} // verus!
