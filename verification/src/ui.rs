//! The on-screen status line: the step count, and the fingerprint once
//! the simulation settled.

use vstd::prelude::*;
use crate::decimal::dec_str;
use crate::decimal::u64_to_string;
use crate::resources::PhysicsState;

verus! {

/// The status line for the current detector state: the step count alone
/// while the run is still going, with the fingerprint appended once it
/// settled.
pub fn physic_state_text(state: &PhysicsState) -> (s: String)
    ensures
        !state.settled() ==> s@ == "Physic simulation steps: "@ + dec_str(state.step as nat),
        state.settled() ==> s@ == "Physic simulation steps: "@ + dec_str(state.step as nat)
            + ". sha256: "@ + state.hash@,
{
    let mut s = String::from_str("Physic simulation steps: ");
    s.append(u64_to_string(state.step).as_str());
    if !state.hash.as_str().is_empty() {
        s.append(". sha256: ");
        s.append(state.hash.as_str());
    }
    s
}

} // verus!
