//! Identifiers of payload schemas.

use vstd::prelude::*;

verus! {

/// `2dd093e9-1450-44c5-be8c-c0d78e48219b`
pub const DEVICE_INFORMATION: u128 = 0x2dd093e9_1450_44c5_be8c_c0d78e48219b;

/// `05688a03-730e-4cda-9932-172e2c62e45c`
pub const SERVICE: u128 = 0x05688a03_730e_4cda_9932_172e2c62e45c;

} // verus!
