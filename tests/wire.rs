use rvfs_sim_core::error::SimError;
use rvfs_sim_core::wire::{decay_action, DecayAction, WireCore, WirePull};

#[test]
fn wire_core_create() {
    let wire = WireCore::new("foo", WirePull::Floating);
    assert_eq!("foo", wire.name());
    assert_eq!(WirePull::Floating, wire.pull());
    assert_eq!(Err(SimError::Unassigned), wire.id());
}

#[test]
fn wire_core_default_pull_governs_without_active_pull() {
    let up = WireCore::new("/RESET", WirePull::Up);
    assert_eq!(WirePull::Up, up.pull());
    let down = WireCore::new("/RESET", WirePull::Down);
    assert_eq!(WirePull::Down, down.pull());
}

#[test]
fn wire_core_active_pull_overrides_default() {
    let mut wire = WireCore::new("foo", WirePull::Up);
    wire.set_pull(WirePull::Down);
    assert_eq!(WirePull::Down, wire.pull());
    wire.set_pull(WirePull::Floating);
    assert_eq!(WirePull::Up, wire.pull());
}

#[test]
fn wire_core_assign_id_once() {
    let mut wire = WireCore::new("foo", WirePull::Up);
    assert_eq!(Ok(4), wire.assign_id(4));
    assert_eq!(Err(SimError::AlreadyAssigned), wire.assign_id(9));
    assert_eq!(Ok(4), wire.id());
}

#[test]
fn decay_action_floating_holds() {
    assert_eq!(DecayAction::Hold, decay_action(WirePull::Floating, false));
    assert_eq!(DecayAction::Hold, decay_action(WirePull::Floating, true));
}

#[test]
fn decay_action_zero_tau_snaps() {
    assert_eq!(DecayAction::Snap(WirePull::Up), decay_action(WirePull::Up, true));
    assert_eq!(DecayAction::Snap(WirePull::Down), decay_action(WirePull::Down, true));
}

#[test]
fn decay_action_positive_tau_decays() {
    assert_eq!(DecayAction::Decay(WirePull::Up), decay_action(WirePull::Up, false));
    assert_eq!(DecayAction::Decay(WirePull::Down), decay_action(WirePull::Down, false));
}
