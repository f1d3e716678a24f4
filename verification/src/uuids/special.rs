//! Identifiers with a fixed meaning everywhere in the mesh.

use vstd::prelude::*;

verus! {

/// `00000000-0000-0000-0000-000000000000`
pub const NULL: u128 = 0x00000000_0000_0000_0000_000000000000;

/// `11ad7b32-1d32-4c4a-b0c9-fa049208939a`
pub const FACTORY_PLUS: u128 = 0x11ad7b32_1d32_4c4a_b0c9_fa049208939a;

/// `5855a1cc-46d8-4b16-84f8-ab3916ecb230`
pub const SELF: u128 = 0x5855a1cc_46d8_4b16_84f8_ab3916ecb230;

} // verus!
