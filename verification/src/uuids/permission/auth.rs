//! Permissions checked by the authentication service.

use vstd::prelude::*;

verus! {

/// `ba566181-0e8a-405b-b16e-3fb89130fbee`
pub const READ_ACL: u128 = 0xba566181_0e8a_405b_b16e_3fb89130fbee;

/// `327c4cc8-9c46-4e1e-bb6b-257ace37b0f6`
pub const MANAGE_KERBEROS: u128 = 0x327c4cc8_9c46_4e1e_bb6b_257ace37b0f6;

/// `3a41f5ce-fc08-4669-9762-ec9e71061168`
pub const MANAGE_ACL: u128 = 0x3a41f5ce_fc08_4669_9762_ec9e71061168;

/// `be9b6d47-c845-49b2-b9d5-d87b83f11c3b`
pub const MANAGE_GROUP: u128 = 0xbe9b6d47_c845_49b2_b9d5_d87b83f11c3b;

} // verus!
