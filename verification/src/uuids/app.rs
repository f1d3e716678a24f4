//! Identifiers of the configuration-store applications.

use vstd::prelude::*;

verus! {

/// `cb40bed5-49ad-4443-a7f5-08c75009da8f`
pub const REGISTRATION: u128 = 0xcb40bed5_49ad_4443_a7f5_08c75009da8f;

/// `64a8bfa9-7772-45c4-9d1a-9e6290690957`
pub const INFO: u128 = 0x64a8bfa9_7772_45c4_9d1a_9e6290690957;

/// `8e32801b-f35a-4cbf-a5c3-2af64d3debd7`
pub const SPARKPLUG_ADDRESS: u128 = 0x8e32801b_f35a_4cbf_a5c3_2af64d3debd7;

/// `dbd8a535-52ba-4f6e-b4f8-9b71aefe09d3`
pub const CONFIG_SCHEMA: u128 = 0xdbd8a535_52ba_4f6e_b4f8_9b71aefe09d3;

/// `5b47881c-b012-4040-945c-eacafca539b2`
pub const SERVICE_CONFIG: u128 = 0x5b47881c_b012_4040_945c_eacafca539b2;

} // verus!
