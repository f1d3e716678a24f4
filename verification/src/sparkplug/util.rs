//! Structured names of the telemetry namespace: addresses and topics.

pub mod address;
pub mod topic;

use vstd::prelude::*;
use vstd::string::StringExecFns;

verus! {

/// The text of the fixed namespace prefix that opens every topic.
pub open spec fn prefix_text() -> Seq<char> {
    "spBv1.0"@
}

/// The fixed namespace prefix that opens every topic.
pub fn sp_prefix() -> (s: String)
    ensures
        s@ == prefix_text(),
{
    String::from_str("spBv1.0")
}

} // verus!
