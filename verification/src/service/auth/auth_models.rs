//! The values exchanged with the authentication service.

use crate::sparkplug::util::address::Address;
use vstd::prelude::*;

verus! {

/// Whether an access-control entry is to be added or removed.
#[derive(Clone, Copy, PartialEq, Eq, Debug, Structural)]
pub enum AceAction {
    Add,
    Delete,
}

/// The body that adds or removes an access-control entry.
pub struct PostAceBody {
    pub permission: u128,
    pub target: u128,
    pub ace_action: AceAction,
    pub principal: u128,
    pub kerberos: String,
}

/// The names under which one principal is known.
pub struct PrincipalMapping {
    pub uuid: u128,
    pub kerberos: String,
    pub sparkplug: Address,
}

/// The query that asks for a principal's access-control list.
pub struct FetchAclQuery {
    pub principal: String,
    pub permission: String,
    pub by_uuid: bool,
}

/// One access-control entry.
pub struct Ace {
    pub permission: u128,
    pub target: u128,
    pub principal: u128,
    pub kerberos: String,
}

/// An access-control list.
pub struct Acl {
    pub acl_vec: Vec<Acl>,
}

} // verus!
