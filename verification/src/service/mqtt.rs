//! The telemetry service: how to connect to it, and what a connection
//! attempt that did not succeed means.

pub mod protocol;

use crate::error::MqttError;
use crate::service::mqtt::protocol::MqttProtocol;
use crate::service::ServiceType;
use crate::text::{decimal, decimal_string};
use vstd::prelude::*;
use vstd::string::StringExecFns;

verus! {

/// The interface to the telemetry service.
pub struct MQTTInterface {
    pub service_type: ServiceType,
    pub service_username: String,
    pub service_password: String,
    pub service_url: String,
}

/// Everything the transport needs to open a connection.
#[derive(Debug)]
pub struct ConnectPlan {
    /// Where to connect: `<service address>:<port>`.
    pub uri: String,
    pub client_id: String,
    pub username: String,
    pub password: String,
    /// Start without any state of an earlier session.
    pub clean_start: bool,
    /// Seconds between keep-alive messages.
    pub keep_alive_secs: u64,
    /// Whether the server's certificate is checked.
    pub verify_server_cert: bool,
}

/// What became of a connection attempt.
#[derive(Debug)]
pub enum ConnectReply {
    /// The service accepted the connection.
    Accepted,
    /// The transport reported success, but the service never answered.
    Unanswered,
    /// The connection was rejected; this is the transport's description.
    Rejected(String),
}

/// The address to connect to.
pub open spec fn connect_uri(service_url: Seq<char>, port: u16) -> Seq<char> {
    service_url + ":"@ + decimal(port as nat)
}

/// The message of the error returned when no address is known.
pub open spec fn no_address_text() -> Seq<char> {
    "No address known for the MQTT service."@
}

/// The message of the error returned when the service never answered.
pub open spec fn no_response_text() -> Seq<char> {
    "No response from the MQTT service."@
}

impl MQTTInterface {
    /// An interface to the telemetry service at `service_url`.
    pub fn from(service_username: String, service_password: String, service_url: String) -> (m:
        Self)
        ensures
            m.service_type == ServiceType::MQTT,
            m.service_username == service_username,
            m.service_password == service_password,
            m.service_url == service_url,
    {
        MQTTInterface { service_type: ServiceType::MQTT, service_username, service_password, service_url }
    }

    /// How to connect to the service on `port` as `client_id`.
    ///
    /// The connection goes to `<service address>:<port>` with the shared
    /// credentials, starts clean, keeps alive every 20 seconds and does not
    /// check the server's certificate. Without a service address there is
    /// nothing to connect to, and that is the error.
    pub fn connection(&self, protocol: MqttProtocol, port: u16, client_id: &str) -> (r: Result<
        ConnectPlan,
        MqttError,
    >)
        ensures
            match r {
                Ok(plan) => {
                    &&& self.service_url@.len() > 0
                    &&& plan.uri@ == connect_uri(self.service_url@, port)
                    &&& plan.client_id@ == client_id@
                    &&& plan.username == self.service_username
                    &&& plan.password == self.service_password
                    &&& plan.clean_start
                    &&& plan.keep_alive_secs == 20
                    &&& !plan.verify_server_cert
                },
                Err(e) => self.service_url@.len() == 0 && e.message@ == no_address_text(),
            },
    {
        if self.service_url.as_str().unicode_len() == 0 {
            return Err(MqttError { message: String::from_str("No address known for the MQTT service.") });
        }
        let number = decimal_string(port as u64);
        let mut uri = self.service_url.clone();
        uri.append(":");
        uri.append(number.as_str());
        Ok(
            ConnectPlan {
                uri,
                client_id: String::from_str(client_id),
                username: self.service_username.clone(),
                password: self.service_password.clone(),
                clean_start: true,
                keep_alive_secs: 20,
                verify_server_cert: false,
            },
        )
    }

    /// The meaning of a connection attempt: success when the service
    /// accepted; otherwise an error that tells a service that never answered
    /// from one that rejected the connection.
    pub fn get_mqtt_client(&self, reply: ConnectReply) -> (r: Result<(), MqttError>)
        ensures
            match r {
                Ok(_) => reply is Accepted,
                Err(e) => match reply {
                    ConnectReply::Accepted => false,
                    ConnectReply::Unanswered => e.message@ == no_response_text(),
                    ConnectReply::Rejected(description) => e.message == description,
                },
            },
    {
        match reply {
            ConnectReply::Accepted => Ok(()),
            ConnectReply::Unanswered => Err(
                MqttError { message: String::from_str("No response from the MQTT service.") },
            ),
            ConnectReply::Rejected(description) => Err(MqttError { message: description }),
        }
    }
}

} // verus!
