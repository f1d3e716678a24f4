//! The authentication service.

pub mod auth_models;

use crate::service::ServiceType;
use vstd::prelude::*;

verus! {

/// The interface to the authentication service.
pub struct AuthInterface {
    pub service_type: ServiceType,
    pub service_username: String,
    pub service_password: String,
    pub directory_url: String,
    pub service_url: String,
}

impl AuthInterface {
    /// An interface to the authentication service at `service_url`.
    pub fn from(
        service_username: String,
        service_password: String,
        directory_url: String,
        service_url: String,
    ) -> (a: Self)
        ensures
            a.service_type == ServiceType::Authentication,
            a.service_username == service_username,
            a.service_password == service_password,
            a.directory_url == directory_url,
            a.service_url == service_url,
    {
        AuthInterface {
            service_type: ServiceType::Authentication,
            service_username,
            service_password,
            directory_url,
            service_url,
        }
    }
}

} // verus!
