use vstd::prelude::*;

use crate::state::{OBCMode, OBCState};

verus! {

/// Mode transition rule: SAFE can always be entered; leaving SAFE for NORMAL
/// is allowed only while no fault is active; every other change is allowed.
pub open spec fn transition_allowed(current: OBCMode, next: OBCMode, faults_active: bool) -> bool {
    !(current == OBCMode::Safe && next == OBCMode::Normal && faults_active)
}

/// Whether the computer may go from mode `current` to mode `next`.
pub fn valid_transition(current: OBCMode, next: OBCMode, faults_active: bool) -> (r: bool)
    ensures
        r == transition_allowed(current, next, faults_active),
        next == OBCMode::Safe ==> r,
{
    match (current, next) {
        (_, OBCMode::Safe) => true,
        (OBCMode::Safe, OBCMode::Normal) => !faults_active,
        _ => true,
    }
}

/// Puts the computer in SAFE mode and changes nothing else.
pub fn force_safe_mode(state: &mut OBCState)
    ensures
        *final(state) == (OBCState { mode: OBCMode::Safe, ..*old(state) }),
{
    state.mode = OBCMode::Safe;
}

/// Law: the mode transition rule. Entering SAFE mode is always allowed;
/// going from SAFE to NORMAL is allowed exactly when no fault is active; and
/// staying in NORMAL is always allowed.
pub proof fn lemma_transition_rule(current: OBCMode, faults_active: bool)
    ensures
        transition_allowed(current, OBCMode::Safe, faults_active),
        transition_allowed(OBCMode::Safe, OBCMode::Normal, faults_active) <==> !faults_active,
        transition_allowed(OBCMode::Normal, OBCMode::Normal, faults_active),
{
}

} // verus!
