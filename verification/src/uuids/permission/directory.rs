//! Permissions checked by the directory service.

use vstd::prelude::*;

verus! {

/// `4db4c39a-f18d-4e83-aeb0-5af2c14ddc2b`
pub const ADVERTISE_SERVICE: u128 = 0x4db4c39a_f18d_4e83_aeb0_5af2c14ddc2b;

} // verus!
