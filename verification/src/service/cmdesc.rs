//! The command escalation service, through which commands reach devices.

use crate::service::headers::{holds_nothing, new_headers};
use crate::service::request::{FetchOpts, HttpRequestMethod};
use crate::service::ServiceType;
use crate::sparkplug::util::address::{Address, AddressView};
use vstd::prelude::*;
use vstd::string::StringExecFns;

verus! {

/// The interface to the command escalation service.
pub struct CmdEscInterface {
    pub service_type: ServiceType,
    pub service_username: String,
    pub service_password: String,
    pub service_url: String,
}

/// The value that a command carries.
#[derive(Debug)]
pub enum CmdValue {
    String(String),
    Bool(bool),
}

impl CmdValue {
    /// The value as it stands in a command body: a string between double
    /// quotes, a boolean as `true` or `false`.
    pub open spec fn text(self) -> Seq<char> {
        match self {
            CmdValue::String(value) => "\""@ + value@ + "\""@,
            CmdValue::Bool(value) => if value {
                "true"@
            } else {
                "false"@
            },
        }
    }

    pub fn to_string(&self) -> (s: String)
        ensures
            s@ == self.text(),
    {
        match self {
            CmdValue::String(value) => {
                let mut s = String::from_str("\"");
                s.append(value.as_str());
                s.append("\"");
                s
            },
            CmdValue::Bool(value) => {
                if *value {
                    String::from_str("true")
                } else {
                    String::from_str("false")
                }
            },
        }
    }
}

/// The path at which commands for `address` are issued.
pub open spec fn command_path(address: AddressView) -> Seq<char> {
    "/v1/address/"@ + address.text()
}

/// The body of a command: `{"name":"<name>","type":"<kind>","value":<value>}`.
pub open spec fn command_body(name: Seq<char>, kind: Seq<char>, value: CmdValue) -> Seq<char> {
    "{\"name\":\""@ + name + "\",\"type\":\""@ + kind + "\",\"value\":"@ + value.text() + "}"@
}

/// The name of the command that makes `address` announce itself again.
pub open spec fn rebirth_name(address: AddressView) -> Seq<char> {
    if address.target is Device {
        "Device Control"@ + "/Rebirth"@
    } else {
        "Node Control"@ + "/Rebirth"@
    }
}

impl CmdEscInterface {
    /// An interface to the command escalation service at `service_url`.
    pub fn from(service_username: String, service_password: String, service_url: String) -> (c:
        Self)
        ensures
            c.service_type == ServiceType::CommandEscalation,
            c.service_username == service_username,
            c.service_password == service_password,
            c.service_url == service_url,
    {
        CmdEscInterface {
            service_type: ServiceType::CommandEscalation,
            service_username,
            service_password,
            service_url,
        }
    }

    /// The request that issues the command `name` of type `kind` with
    /// `value` to `address`: `POST /v1/address/<address>`.
    pub fn request_cmd(&self, address: Address, name: &str, kind: &str, value: CmdValue) -> (o:
        FetchOpts)
        ensures
            o.url@ == command_path(address@),
            o.service == ServiceType::CommandEscalation,
            o.method == HttpRequestMethod::POST,
            holds_nothing(o.headers),
            o.query is None,
            o.body is Some && o.body.unwrap()@ == command_body(name@, kind@, value),
    {
        let target = address.to_string();
        let mut url = String::from_str("/v1/address/");
        url.append(target.as_str());
        let shown = value.to_string();
        let mut body = String::from_str("{\"name\":\"");
        body.append(name);
        body.append("\",\"type\":\"");
        body.append(kind);
        body.append("\",\"value\":");
        body.append(shown.as_str());
        body.append("}");
        FetchOpts {
            url,
            service: ServiceType::CommandEscalation,
            method: HttpRequestMethod::POST,
            headers: new_headers(),
            query: None,
            body: Some(body),
        }
    }

    /// The request that makes `address` announce itself again: the boolean
    /// command `Device Control/Rebirth` for a device, `Node Control/Rebirth`
    /// for a node, with value `true`.
    pub fn rebirth(&self, address: Address) -> (o: FetchOpts)
        ensures
            o.url@ == command_path(address@),
            o.service == ServiceType::CommandEscalation,
            o.method == HttpRequestMethod::POST,
            holds_nothing(o.headers),
            o.query is None,
            o.body is Some && o.body.unwrap()@ == command_body(
                rebirth_name(address@),
                "Boolean"@,
                CmdValue::Bool(true),
            ),
    {
        let mut name = if address.is_device() {
            String::from_str("Device Control")
        } else {
            String::from_str("Node Control")
        };
        name.append("/Rebirth");
        self.request_cmd(address, name.as_str(), "Boolean", CmdValue::Bool(true))
    }
}

} // verus!
