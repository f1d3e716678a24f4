//! Topics: the fixed prefix, an address and a message kind, written
//! `prefix/group/kind/node` or `prefix/group/kind/node/device`.

use crate::error::SparkplugError;
use crate::sparkplug::util::address::{Address, AddressType, AddressView, TargetView};
use crate::sparkplug::util::prefix_text;
use crate::text::{join, lemma_join_split, lemma_split_join, same_text, split, split_on, views};
use vstd::prelude::*;
use vstd::string::StringExecFns;

verus! {

/// The kind of message a topic carries; `Any` is the wildcard `+`.
#[derive(Clone, Copy, Debug, PartialEq, Eq, Structural)]
pub enum TopicType {
    Any,
    NBIRTH,
    NCMD,
    NDATA,
    NDEATH,
    DBIRTH,
    DCMD,
    DDATA,
    DDEATH,
}

/// A topic name of the telemetry namespace.
#[derive(Debug)]
pub struct Topic {
    pub prefix: String,
    pub address: Address,
    pub topic_type: TopicType,
}

/// The mathematical value of a [`Topic`].
pub ghost struct TopicView {
    pub prefix: Seq<char>,
    pub address: AddressView,
    pub kind: TopicType,
}

impl View for Topic {
    type V = TopicView;

    open spec fn view(&self) -> TopicView {
        TopicView { prefix: self.prefix@, address: self.address@, kind: self.topic_type }
    }
}

/// Why a text is not a topic.
pub ghost enum TopicFault {
    /// It has neither four nor five segments.
    Length,
    /// Its first segment is not the namespace prefix.
    Prefix,
    /// Its group or its node is empty.
    Address,
    /// Its third segment is not a message kind.
    Kind,
}

/// The message kind that the token `t` spells, if any.
pub open spec fn kind_of(t: Seq<char>) -> Option<TopicType> {
    if t == "+"@ {
        Some(TopicType::Any)
    } else if t == "NBIRTH"@ {
        Some(TopicType::NBIRTH)
    } else if t == "NCMD"@ {
        Some(TopicType::NCMD)
    } else if t == "NDATA"@ {
        Some(TopicType::NDATA)
    } else if t == "NDEATH"@ {
        Some(TopicType::NDEATH)
    } else if t == "DBIRTH"@ {
        Some(TopicType::DBIRTH)
    } else if t == "DCMD"@ {
        Some(TopicType::DCMD)
    } else if t == "DDATA"@ {
        Some(TopicType::DDATA)
    } else if t == "DDEATH"@ {
        Some(TopicType::DDEATH)
    } else {
        None
    }
}

/// The message of the error returned for an unknown kind token.
pub open spec fn kind_error_text() -> Seq<char> {
    "Couldn't determine topic type"@
}

impl TopicType {
    /// The token that spells this kind.
    pub open spec fn text(self) -> Seq<char> {
        match self {
            TopicType::Any => "+"@,
            TopicType::NBIRTH => "NBIRTH"@,
            TopicType::NCMD => "NCMD"@,
            TopicType::NDATA => "NDATA"@,
            TopicType::NDEATH => "NDEATH"@,
            TopicType::DBIRTH => "DBIRTH"@,
            TopicType::DCMD => "DCMD"@,
            TopicType::DDATA => "DDATA"@,
            TopicType::DDEATH => "DDEATH"@,
        }
    }

    /// Reads a kind from its token.
    pub fn from_str(s: &str) -> (r: Result<TopicType, SparkplugError>)
        ensures
            match r {
                Ok(k) => kind_of(s@) == Some(k),
                Err(e) => kind_of(s@) is None && e.message@ == kind_error_text(),
            },
    {
        if same_text(s, "+") {
            Ok(TopicType::Any)
        } else if same_text(s, "NBIRTH") {
            Ok(TopicType::NBIRTH)
        } else if same_text(s, "NCMD") {
            Ok(TopicType::NCMD)
        } else if same_text(s, "NDATA") {
            Ok(TopicType::NDATA)
        } else if same_text(s, "NDEATH") {
            Ok(TopicType::NDEATH)
        } else if same_text(s, "DBIRTH") {
            Ok(TopicType::DBIRTH)
        } else if same_text(s, "DCMD") {
            Ok(TopicType::DCMD)
        } else if same_text(s, "DDATA") {
            Ok(TopicType::DDATA)
        } else if same_text(s, "DDEATH") {
            Ok(TopicType::DDEATH)
        } else {
            Err(SparkplugError { message: String::from_str("Couldn't determine topic type") })
        }
    }

    /// Writes the token of this kind.
    pub fn to_string(&self) -> (s: String)
        ensures
            s@ == self.text(),
    {
        match self {
            TopicType::Any => String::from_str("+"),
            TopicType::NBIRTH => String::from_str("NBIRTH"),
            TopicType::NCMD => String::from_str("NCMD"),
            TopicType::NDATA => String::from_str("NDATA"),
            TopicType::NDEATH => String::from_str("NDEATH"),
            TopicType::DBIRTH => String::from_str("DBIRTH"),
            TopicType::DCMD => String::from_str("DCMD"),
            TopicType::DDATA => String::from_str("DDATA"),
            TopicType::DDEATH => String::from_str("DDEATH"),
        }
    }
}

impl TopicView {
    /// The segments of the wire form, in their fixed order.
    pub open spec fn segments(self) -> Seq<Seq<char>> {
        match self.address.target {
            TargetView::Device(name) => seq![
                self.prefix,
                self.address.group,
                self.kind.text(),
                self.address.node,
                name,
            ],
            TargetView::Node => seq![
                self.prefix,
                self.address.group,
                self.kind.text(),
                self.address.node,
            ],
        }
    }

    /// The wire form: `prefix/group/kind/node`, with `/device` appended
    /// for a device.
    pub open spec fn text(self) -> Seq<char> {
        join(self.segments(), '/')
    }

    /// True when prefix, group, node and device name hold no `/`.
    pub open spec fn separable(self) -> bool {
        &&& !self.prefix.contains('/')
        &&& self.address.separable()
    }
}

/// The topic that a sequence of segments spells. There must be four or five
/// segments; the first must be the namespace prefix and the third a message
/// kind. The second and fourth are group and node, neither of them empty,
/// and a fifth is the device.
pub open spec fn topic_of(segments: Seq<Seq<char>>) -> Result<TopicView, TopicFault> {
    if segments.len() != 4 && segments.len() != 5 {
        Err(TopicFault::Length)
    } else if segments[0] != prefix_text() {
        Err(TopicFault::Prefix)
    } else if segments[1].len() == 0 || segments[3].len() == 0 {
        Err(TopicFault::Address)
    } else if kind_of(segments[2]) is None {
        Err(TopicFault::Kind)
    } else {
        Ok(
            TopicView {
                prefix: prefix_text(),
                address: AddressView {
                    group: segments[1],
                    node: segments[3],
                    target: if segments.len() == 5 {
                        TargetView::Device(segments[4])
                    } else {
                        TargetView::Node
                    },
                },
                kind: kind_of(segments[2]).unwrap(),
            },
        )
    }
}

/// The topic that the text `s` spells, or the reason it spells none.
pub open spec fn parse_topic(s: Seq<char>) -> Result<TopicView, TopicFault> {
    topic_of(split(s, '/'))
}

/// The message of the error returned for each fault.
pub open spec fn fault_text(fault: TopicFault) -> Seq<char> {
    match fault {
        TopicFault::Length => "Incorrect topic length"@,
        TopicFault::Prefix => "Incorrect Sparkplug prefix"@,
        TopicFault::Address => "Couldn't get topic components"@,
        TopicFault::Kind => kind_error_text(),
    }
}

impl Topic {
    /// Reads a topic from its wire form. Every malformed text is reported as
    /// an error; no partial topic is ever returned.
    pub fn from_str(s: &str) -> (r: Result<Topic, SparkplugError>)
        ensures
            match r {
                Ok(t) => parse_topic(s@) == Ok::<TopicView, TopicFault>(t@)
                    && t@.address.well_formed(),
                Err(e) => parse_topic(s@) is Err && e.message@ == fault_text(
                    parse_topic(s@)->Err_0,
                ),
            },
    {
        let mut segments = split_on(s, '/');
        let ghost all = views(segments@);
        let count: usize = segments.len();
        if count != 4 && count != 5 {
            return Err(SparkplugError { message: String::from_str("Incorrect topic length") });
        }
        let address_type = if count == 5 {
            let device = segments.pop().unwrap();
            assert(device@ == all[4]);
            AddressType::Device(device)
        } else {
            AddressType::Node
        };
        let node = segments.pop().unwrap();
        let kind_token = segments.pop().unwrap();
        let group = segments.pop().unwrap();
        let prefix = segments.pop().unwrap();
        proof {
            assert(node@ == all[3]);
            assert(kind_token@ == all[2]);
            assert(group@ == all[1]);
            assert(prefix@ == all[0]);
        }
        if !same_text(prefix.as_str(), "spBv1.0") {
            return Err(SparkplugError { message: String::from_str("Incorrect Sparkplug prefix") });
        }
        if group.as_str().is_empty() || node.as_str().is_empty() {
            return Err(
                SparkplugError { message: String::from_str("Couldn't get topic components") },
            );
        }
        match TopicType::from_str(kind_token.as_str()) {
            Ok(topic_type) => Ok(
                Topic { prefix, address: Address { group, node, address_type }, topic_type },
            ),
            Err(e) => Err(e),
        }
    }

    /// Writes the wire form, reconstructing the fixed field order.
    pub fn to_string(&self) -> (s: String)
        ensures
            s@ == self@.text(),
    {
        let kind = self.topic_type.to_string();
        let mut s = self.prefix.clone();
        s.append("/");
        s.append(self.address.group.as_str());
        s.append("/");
        s.append(kind.as_str());
        s.append("/");
        s.append(self.address.node.as_str());
        let ghost four = seq![
            self.prefix@,
            self.address.group@,
            self.topic_type.text(),
            self.address.node@,
        ];
        proof {
            reveal_strlit("/");
            assert("/"@ =~= seq!['/']);
            reveal_with_fuel(join, 5);
            let three = seq![self.prefix@, self.address.group@, self.topic_type.text()];
            let two = seq![self.prefix@, self.address.group@];
            assert(three.drop_last() =~= two);
            assert(four.drop_last() =~= three);
            assert(s@ =~= join(four, '/'));
        }
        match &self.address.address_type {
            AddressType::Device(name) => {
                s.append("/");
                s.append(name.as_str());
                proof {
                    let five = four.push(name@);
                    assert(five.drop_last() =~= four);
                    assert(five =~= self@.segments());
                    assert(s@ =~= join(five, '/'));
                }
            },
            AddressType::Node => {
                assert(four =~= self@.segments());
            },
        }
        s
    }
}

impl std::str::FromStr for TopicType {
    type Err = SparkplugError;

    /// Reads a kind from its token, as [`TopicType::from_str`] does.
    fn from_str(s: &str) -> (r: Result<Self, SparkplugError>)
        ensures
            match r {
                Ok(k) => kind_of(s@) == Some(k),
                Err(e) => kind_of(s@) is None && e.message@ == kind_error_text(),
            },
    {
        TopicType::from_str(s)
    }
}

impl std::str::FromStr for Topic {
    type Err = SparkplugError;

    /// Reads a topic from its wire form, as [`Topic::from_str`] does.
    fn from_str(s: &str) -> (r: Result<Self, SparkplugError>)
        ensures
            match r {
                Ok(t) => parse_topic(s@) == Ok::<TopicView, TopicFault>(t@)
                    && t@.address.well_formed(),
                Err(e) => parse_topic(s@) is Err && e.message@ == fault_text(
                    parse_topic(s@)->Err_0,
                ),
            },
    {
        Topic::from_str(s)
    }
}

/// A recognised kind token is the token that its kind writes.
pub proof fn lemma_text_of_kind(t: Seq<char>)
    requires
        kind_of(t) is Some,
    ensures
        kind_of(t).unwrap().text() == t,
{
}

/// Every kind is recognised from the token it writes.
pub proof fn lemma_kind_of_text(kind: TopicType)
    ensures
        kind_of(kind.text()) == Some(kind),
{
    reveal_strlit("+");
    reveal_strlit("NBIRTH");
    reveal_strlit("NCMD");
    reveal_strlit("NDATA");
    reveal_strlit("NDEATH");
    reveal_strlit("DBIRTH");
    reveal_strlit("DCMD");
    reveal_strlit("DDATA");
    reveal_strlit("DDEATH");
    assert("+"@.len() == 1);
    assert("NBIRTH"@.len() == 6 && "NDEATH"@.len() == 6);
    assert("DBIRTH"@.len() == 6 && "DDEATH"@.len() == 6);
    assert("NCMD"@.len() == 4 && "DCMD"@.len() == 4);
    assert("NDATA"@.len() == 5 && "DDATA"@.len() == 5);
    assert("NBIRTH"@[1] == 'B');
    assert("NDEATH"@[1] == 'D');
    assert("DBIRTH"@[1] == 'B');
    assert("DDEATH"@[1] == 'D');
    assert("NBIRTH"@[0] == 'N');
    assert("NDEATH"@[0] == 'N');
    assert("DBIRTH"@[0] == 'D');
    assert("DDEATH"@[0] == 'D');
    assert("NCMD"@[0] == 'N');
    assert("DCMD"@[0] == 'D');
    assert("NDATA"@[0] == 'N');
    assert("DDATA"@[0] == 'D');
}

/// Topic round trip: every text that parses as a topic is exactly what the
/// parsed topic writes.
pub proof fn law_topic_round_trip(s: Seq<char>)
    requires
        parse_topic(s) is Ok,
    ensures
        parse_topic(s)->Ok_0.text() == s,
{
    let segments = split(s, '/');
    let topic = parse_topic(s)->Ok_0;
    lemma_text_of_kind(segments[2]);
    lemma_join_split(s, '/');
    assert(topic.segments() =~= segments);
}

/// Reading what a topic writes gives the topic back, provided it carries the
/// namespace prefix, its address is well formed and none of its names holds
/// a `/`.
pub proof fn law_topic_read_back(t: TopicView)
    requires
        t.prefix == prefix_text(),
        t.address.well_formed(),
        t.separable(),
    ensures
        parse_topic(t.text()) == Ok::<TopicView, TopicFault>(t),
{
    let segments = t.segments();
    lemma_kind_of_text(t.kind);
    assert(!t.kind.text().contains('/')) by {
        reveal_strlit("+");
        reveal_strlit("NBIRTH");
        reveal_strlit("NCMD");
        reveal_strlit("NDATA");
        reveal_strlit("NDEATH");
        reveal_strlit("DBIRTH");
        reveal_strlit("DCMD");
        reveal_strlit("DDATA");
        reveal_strlit("DDEATH");
    }
    assert forall|i: int| 0 <= i < segments.len() implies !(#[trigger] segments[i]).contains(
        '/',
    ) by {
        match t.address.target {
            TargetView::Device(name) => {
                assert(t.address.segments() =~= seq![t.address.group, t.address.node, name]);
                if i == 1 {
                    assert(segments[i] == t.address.segments()[0]);
                } else if i == 3 {
                    assert(segments[i] == t.address.segments()[1]);
                } else if i == 4 {
                    assert(segments[i] == t.address.segments()[2]);
                }
            },
            TargetView::Node => {
                assert(t.address.segments() =~= seq![t.address.group, t.address.node]);
                if i == 1 {
                    assert(segments[i] == t.address.segments()[0]);
                } else if i == 3 {
                    assert(segments[i] == t.address.segments()[1]);
                }
            },
        }
    }
    lemma_split_join(segments, '/');
}

} // verus!
