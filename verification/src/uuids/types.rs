//! Identifiers of the object classes known to the configuration store.

use vstd::prelude::*;

verus! {

/// `d319bd87-f42b-4b66-be4f-f82ff48b93f0`
pub const APP: u128 = 0xd319bd87_f42b_4b66_be4f_f82ff48b93f0;

/// `04a1c90d-2295-4cbe-b33a-74eded62cbf1`
pub const CLASS: u128 = 0x04a1c90d_2295_4cbe_b33a_74eded62cbf1;

/// `18773d6d-a70d-443a-b29a-3f1583195290`
pub const DEVICE: u128 = 0x18773d6d_a70d_443a_b29a_3f1583195290;

/// `00da3c0b-f62b-4761-a689-39ad0c33f864`
pub const EDGE_AGENT: u128 = 0x00da3c0b_f62b_4761_a689_39ad0c33f864;

/// `d25f2afc-1ab8-4d27-b51b-d02314624e3e`
pub const GIT_REPO: u128 = 0xd25f2afc_1ab8_4d27_b51b_d02314624e3e;

/// `b03d4dfe-7e78-4252-8e62-af594cf316c9`
pub const GIT_REPO_GROUP: u128 = 0xb03d4dfe_7e78_4252_8e62_af594cf316c9;

/// `ac0d5288-6136-4ced-a372-325fbbcdd70d`
pub const PERM_GROUP: u128 = 0xac0d5288_6136_4ced_a372_325fbbcdd70d;

/// `8ae784bb-c4b5-4995-9bf6-799b3c7f21ad`
pub const PERMISSION: u128 = 0x8ae784bb_c4b5_4995_9bf6_799b3c7f21ad;

/// `b419cbc2-ab0f-4311-bd9e-f0591f7e88cb`
pub const REQUIREMENT: u128 = 0xb419cbc2_ab0f_4311_bd9e_f0591f7e88cb;

/// `83ee28d4-023e-4c2c-ab86-12c24e86372c`
pub const SCHEMA: u128 = 0x83ee28d4_023e_4c2c_ab86_12c24e86372c;

/// `265d481f-87a7-4f93-8fc6-53fa64dc11bb`
pub const SERVICE: u128 = 0x265d481f_87a7_4f93_8fc6_53fa64dc11bb;

/// `ddb132e4-5cdd-49c8-b9b1-2f35879eab6d`
pub const SPECIAL: u128 = 0xddb132e4_5cdd_49c8_b9b1_2f35879eab6d;

} // verus!
