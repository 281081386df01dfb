//! The marker types that tag combat entities, the messages that start and
//! end a combat, and the decision to clear the battlefield.

use std::collections::HashSet;
use vstd::prelude::*;

verus! {

/// Tags every entity that belongs to a combat, so that a clear removes it.
#[derive(Debug, Clone, Copy, PartialEq, Eq)]
pub struct CombatMarker;

/// Asks for a new combat: the old one is cleared and the battlefield set up.
#[derive(Debug, Clone, Copy, PartialEq, Eq)]
pub struct CombatInitMessage {}

/// Asks for the current combat to be cleared.
#[derive(Debug, Clone, Copy, PartialEq, Eq)]
pub struct CombatClearMessage {}

/// Tags the background of the combat view.
#[derive(Debug, Clone, Copy, PartialEq, Eq)]
pub struct CombatBackground;

/// Tags the entities that the combat camera keeps in its centre.
#[derive(Debug, Clone, Copy, PartialEq, Eq)]
pub struct CameraFollowTarget;

/// Tags the entities that the combat camera also tries to keep in view.
#[derive(Debug, Clone, Copy, PartialEq, Eq)]
pub struct CameraFollowSecondaryTarget;

/// Tags the entities that wrap around the edges of the battlefield.
#[derive(Debug, Clone, Copy, PartialEq, Eq)]
pub struct WorldWrapping;

/// Tags the entity around which the battlefield wraps.
#[derive(Debug, Clone, Copy, PartialEq, Eq)]
pub struct WorldWrappingCenter;

/// Whether the combat entities are to be cleared: a clear or an init
/// message is waiting. Clear messages are consumed by the clear; init
/// messages are left for the setup of the new combat.
pub fn combat_clear_wanted(clear_messages: usize, init_messages: usize) -> (r: bool)
    ensures
        r <==> clear_messages > 0 || init_messages > 0,
{
    clear_messages > 0 || init_messages > 0
}

/// Records that a device joins a ship's active devices, and whether it is
/// fitted: a unique device that is already active is skipped. Devices are
/// known by their numeric ids.
pub fn admit_device(active: &mut HashSet<u64>, device: u64, unique: bool) -> (r: bool)
    ensures
        final(active)@ == old(active)@.insert(device),
        r == !(old(active)@.contains(device) && unique),
{
    let newly_active = active.insert(device);
    newly_active || !unique
}

} // verus!
