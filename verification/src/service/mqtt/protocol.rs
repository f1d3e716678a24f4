//! The transports over which the telemetry service can be reached.

use crate::error::MqttError;
use crate::text::same_text;
use vstd::prelude::*;
use vstd::string::StringExecFns;

verus! {

/// A transport of the telemetry service.
#[derive(Clone, Copy, PartialEq, Eq, Debug, Structural)]
pub enum MqttProtocol {
    TCP,
    SSL,
    TLS,
}

/// The transport that the word `s` names, in lower or upper case.
pub open spec fn protocol_of(s: Seq<char>) -> Option<MqttProtocol> {
    if s == "tcp"@ || s == "TCP"@ {
        Some(MqttProtocol::TCP)
    } else if s == "ssl"@ || s == "SSL"@ {
        Some(MqttProtocol::SSL)
    } else if s == "mqtts"@ || s == "MQTTS"@ {
        Some(MqttProtocol::TLS)
    } else {
        None
    }
}

/// The message of the error returned for an unknown transport.
pub open spec fn protocol_error_text() -> Seq<char> {
    "Couldn't determine protocol."@
}

impl MqttProtocol {
    /// The scheme that selects this transport.
    pub open spec fn scheme(self) -> Seq<char> {
        match self {
            MqttProtocol::TCP => "tcp"@,
            MqttProtocol::SSL => "ssl"@,
            MqttProtocol::TLS => "mqtts"@,
        }
    }

    /// The scheme that selects this transport.
    pub fn to_str(&self) -> (s: &str)
        ensures
            s@ == self.scheme(),
    {
        match self {
            MqttProtocol::TCP => "tcp",
            MqttProtocol::SSL => "ssl",
            MqttProtocol::TLS => "mqtts",
        }
    }

    /// Reads a transport from its scheme.
    pub fn from_str(s: &str) -> (r: Result<MqttProtocol, MqttError>)
        ensures
            match r {
                Ok(p) => protocol_of(s@) == Some(p),
                Err(e) => protocol_of(s@) is None && e.message@ == protocol_error_text(),
            },
    {
        if same_text(s, "tcp") || same_text(s, "TCP") {
            Ok(MqttProtocol::TCP)
        } else if same_text(s, "ssl") || same_text(s, "SSL") {
            Ok(MqttProtocol::SSL)
        } else if same_text(s, "mqtts") || same_text(s, "MQTTS") {
            Ok(MqttProtocol::TLS)
        } else {
            Err(MqttError { message: String::from_str("Couldn't determine protocol.") })
        }
    }
}

impl std::str::FromStr for MqttProtocol {
    type Err = MqttError;

    /// Reads a transport from its scheme, as [`MqttProtocol::from_str`] does.
    fn from_str(s: &str) -> (r: Result<Self, MqttError>)
        ensures
            match r {
                Ok(p) => protocol_of(s@) == Some(p),
                Err(e) => protocol_of(s@) is None && e.message@ == protocol_error_text(),
            },
    {
        MqttProtocol::from_str(s)
    }
}

} // verus!
