//! Permissions checked by the command escalation service.

use vstd::prelude::*;

verus! {

/// `fbb9c25d-386d-4966-a325-f16471d9f7be`
pub const REBIRTH: u128 = 0xfbb9c25d_386d_4966_a325_f16471d9f7be;

} // verus!
