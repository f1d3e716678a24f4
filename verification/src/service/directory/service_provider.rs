//! Advertisements, as the directory returns them.

use vstd::prelude::*;

verus! {

/// One advertisement of a service: the device that offers it and the address
/// at which it does, either of which may be missing.
#[derive(Debug)]
pub struct ServiceProvider {
    pub device: Option<u128>,
    pub url: Option<String>,
}

impl ServiceProvider {
    pub fn from(device: u128, url: String) -> (p: Self)
        ensures
            p.device == Some(device),
            p.url == Some(url),
    {
        ServiceProvider { device: Some(device), url: Some(url) }
    }
}

/// The advertisements of one service.
#[derive(Debug)]
pub struct ServiceProviderList {
    pub list: Vec<ServiceProvider>,
}

impl ServiceProviderList {
    pub fn from(list: Vec<ServiceProvider>) -> (l: Self)
        ensures
            l.list == list,
    {
        ServiceProviderList { list }
    }
}

} // verus!
