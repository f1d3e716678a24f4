//! The values exchanged with the configuration store.

use vstd::prelude::*;

verus! {

/// The body that names an object and marks it deleted or not.
#[derive(Debug)]
pub struct PutConfigBody {
    pub name: String,
    pub deleted: Option<bool>,
}

impl PutConfigBody {
    pub fn from(name: String, deleted: Option<bool>) -> (b: Self)
        ensures
            b.name == name,
            b.deleted == deleted,
    {
        PutConfigBody { name, deleted }
    }
}

/// An object and the class it belongs to.
#[derive(Clone, Copy, PartialEq, Eq, Debug, Structural)]
pub struct ObjectRegistration {
    pub uuid: u128,
    pub class: u128,
}

impl ObjectRegistration {
    pub fn from(uuid: u128, class: u128) -> (r: Self)
        ensures
            r.uuid == uuid,
            r.class == class,
    {
        ObjectRegistration { uuid, class }
    }
}

/// Where a principal lives in the telemetry namespace.
#[derive(Debug)]
pub struct PrincipalConfig {
    pub group_id: String,
    pub node_id: String,
}

impl PrincipalConfig {
    pub fn from(group_id: String, node_id: String) -> (c: Self)
        ensures
            c.group_id == group_id,
            c.node_id == node_id,
    {
        PrincipalConfig { group_id, node_id }
    }
}

} // verus!
