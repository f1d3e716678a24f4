//! The failures this crate reports. Each carries a human-readable message;
//! those that are shown to people render themselves with `to_string`.

use crate::service::ServiceType;
use vstd::prelude::*;
use vstd::string::StringExecFns;

verus! {

/// A malformed address or topic string.
#[derive(Debug)]
pub struct SparkplugError {
    pub message: String,
}

/// A call to a service that was answered, but not with what was asked for.
#[derive(Debug)]
pub struct ServiceError {
    pub service: ServiceType,
    pub message: String,
    pub status: String,
}

impl ServiceError {
    /// `Service error in service <service>. Message: <message> (<status>).`
    pub open spec fn text(self) -> Seq<char> {
        "Service error in service "@ + self.service.text() + ". Message: "@ + self.message@ + " ("@
            + self.status@ + ")."@
    }

    pub fn to_string(&self) -> (s: String)
        ensures
            s@ == self.text(),
    {
        let service = self.service.to_string();
        let mut s = String::from_str("Service error in service ");
        s.append(service.as_str());
        s.append(". Message: ");
        s.append(self.message.as_str());
        s.append(" (");
        s.append(self.status.as_str());
        s.append(").");
        s
    }
}

/// A request that could not be carried out: the address that was asked and
/// what went wrong.
#[derive(Debug)]
pub struct FetchError {
    pub message: String,
    pub url: String,
}

/// The mathematical value of a [`FetchError`].
pub ghost struct FetchErrorView {
    pub message: Seq<char>,
    pub url: Seq<char>,
}

impl View for FetchError {
    type V = FetchErrorView;

    open spec fn view(&self) -> FetchErrorView {
        FetchErrorView { message: self.message@, url: self.url@ }
    }
}

impl FetchError {
    /// `Error fetching from <url>. Message: <message>.`
    pub open spec fn text(self) -> Seq<char> {
        "Error fetching from "@ + self.url@ + ". Message: "@ + self.message@ + "."@
    }

    pub fn to_string(&self) -> (s: String)
        ensures
            s@ == self.text(),
    {
        let mut s = String::from_str("Error fetching from ");
        s.append(self.url.as_str());
        s.append(". Message: ");
        s.append(self.message.as_str());
        s.append(".");
        s
    }
}

impl Clone for FetchError {
    fn clone(&self) -> (e: Self)
        ensures
            e == *self,
    {
        FetchError { message: self.message.clone(), url: self.url.clone() }
    }
}

/// A failure of the telemetry transport.
#[derive(Debug)]
pub struct MqttError {
    pub message: String,
}

impl MqttError {
    /// `MQTT error: <message>.`
    pub open spec fn text(self) -> Seq<char> {
        "MQTT error: "@ + self.message@ + "."@
    }

    pub fn to_string(&self) -> (s: String)
        ensures
            s@ == self.text(),
    {
        let mut s = String::from_str("MQTT error: ");
        s.append(self.message.as_str());
        s.append(".");
        s
    }
}

impl From<FetchError> for MqttError {
    fn from(fetch_error: FetchError) -> (e: Self) {
        MqttError { message: fetch_error.message }
    }
}

impl vstd::std_specs::convert::FromSpecImpl<FetchError> for MqttError {
    open spec fn obeys_from_spec() -> bool {
        true
    }

    open spec fn from_spec(fetch_error: FetchError) -> Self {
        MqttError { message: fetch_error.message }
    }
}

} // verus!
