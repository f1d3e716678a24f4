//! Permissions checked by the configuration store.

use vstd::prelude::*;

verus! {

/// `4a339562-cd57-408d-9d1a-6529a383ea4b`
pub const READ_CONFIG: u128 = 0x4a339562_cd57_408d_9d1a_6529a383ea4b;

/// `6c799ccb-d2ad-4715-a2a7-3c8728d6c0bf`
pub const WRITE_CONFIG: u128 = 0x6c799ccb_d2ad_4715_a2a7_3c8728d6c0bf;

/// `f0b7917b-d475-4888-9d5a-2af96b3c26b6`
pub const MANAGE_OBJECTS: u128 = 0xf0b7917b_d475_4888_9d5a_2af96b3c26b6;

} // verus!
