//! Identifiers of the service roles, the stable keys of discovery.

use vstd::prelude::*;

verus! {

/// `af4a1d66-e6f7-43c4-8a67-0fa3be2b1cf9`
pub const DIRECTORY: u128 = 0xaf4a1d66_e6f7_43c4_8a67_0fa3be2b1cf9;

/// `af15f175-78a0-4e05-97c0-2a0bb82b9f3b`
pub const CONFIG_DB: u128 = 0xaf15f175_78a0_4e05_97c0_2a0bb82b9f3b;

/// `cab2642a-f7d9-42e5-8845-8f35affe1fd4`
pub const AUTHENTICATION: u128 = 0xcab2642a_f7d9_42e5_8845_8f35affe1fd4;

/// `78ea7071-24ac-4916-8351-aa3e549d8ccd`
pub const COMMAND_ESCALATION: u128 = 0x78ea7071_24ac_4916_8351_aa3e549d8ccd;

/// `feb27ba3-bd2c-4916-9269-79a61ebc4a47`
pub const MQTT: u128 = 0xfeb27ba3_bd2c_4916_9269_79a61ebc4a47;

/// `7adf4db0-2e7b-4a68-ab9d-376f4c5ce14b`
pub const GIT: u128 = 0x7adf4db0_2e7b_4a68_ab9d_376f4c5ce14b;

/// `2706aa43-a826-441e-9cec-cd3d4ce623c2`
pub const CLUSTERS: u128 = 0x2706aa43_a826_441e_9cec_cd3d4ce623c2;

} // verus!
