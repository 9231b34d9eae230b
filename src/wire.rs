//! The float-free state of a signal carrier (a Wire): its name, its pulls and
//! its write-once Id, together with the decision that a decay step takes.

use vstd::prelude::*;

use crate::error::SimError;
use crate::Id;

verus! {

/// Types of pull which may be exerted on a Wire.
#[derive(Debug, Copy, Clone, PartialEq, Eq, Structural)]
pub enum WirePull {
    /// Wire value is pulled towards 1.0.
    Up,
    /// Wire value is pulled towards 0.0.
    Down,
    /// Wire value is floating with no pull towards a specific value.
    Floating,
}

/// The pull a Wire feels: the active pull, unless that is `Floating`, in which
/// case the default pull.
pub open spec fn effective_pull(default_pull: WirePull, active: WirePull) -> WirePull {
    if active != WirePull::Floating {
        active
    } else {
        default_pull
    }
}

/// What one decay step does to a Wire's level.
#[derive(Debug, Copy, Clone, PartialEq, Eq, Structural)]
pub enum DecayAction {
    /// The level stays exactly as it is.
    Hold,
    /// The level jumps to the rail of the pull (1.0 for `Up`, 0.0 for `Down`).
    Snap(WirePull),
    /// The level decays exponentially toward the rail of the pull.
    Decay(WirePull),
}

/// Decide how a step moves a level under `pull` when the time constant is
/// zero (`tau_is_zero`) or positive. A zero time constant is an infinite decay
/// rate: the level reaches the rail at once.
pub fn decay_action(pull: WirePull, tau_is_zero: bool) -> (r: DecayAction)
    ensures
        pull == WirePull::Floating ==> r == DecayAction::Hold,
        pull != WirePull::Floating && tau_is_zero ==> r == DecayAction::Snap(pull),
        pull != WirePull::Floating && !tau_is_zero ==> r == DecayAction::Decay(pull),
{
    match pull {
        WirePull::Floating => DecayAction::Hold,
        _ => if tau_is_zero {
            DecayAction::Snap(pull)
        } else {
            DecayAction::Decay(pull)
        },
    }
}

/// The carrier's Id slot after `assign_id(id)`.
pub open spec fn after_assign(slot: Option<Id>, id: Id) -> Option<Id> {
    if slot.is_none() {
        Some(id)
    } else {
        slot
    }
}

/// The float-free part of a Wire: name, default and active pull, and the Id
/// that the Wire may be given once.
#[derive(Debug, Clone)]
pub struct WireCore {
    /// A readable, unique name for the Wire within the Simulation.
    name: String,
    /// Pull that the Wire feels when the active pull is `Floating`.
    default_pull: WirePull,
    /// Pull that the Wire feels at the present time.
    pull: WirePull,
    /// Id under which the Wire is registered, once assigned.
    id: Option<Id>,
}

impl WireCore {
    pub closed spec fn spec_name(&self) -> Seq<char> {
        self.name@
    }

    pub closed spec fn spec_default_pull(&self) -> WirePull {
        self.default_pull
    }

    pub closed spec fn spec_active_pull(&self) -> WirePull {
        self.pull
    }

    pub closed spec fn spec_id(&self) -> Option<Id> {
        self.id
    }

    /// Create the state of a new Wire: no active pull and no Id yet.
    pub fn new(name: &str, default_pull: WirePull) -> (r: Self)
        ensures
            r.spec_name() == name@,
            r.spec_default_pull() == default_pull,
            r.spec_active_pull() == WirePull::Floating,
            r.spec_id().is_none(),
    {
        Self { name: name.to_string(), default_pull, pull: WirePull::Floating, id: None }
    }

    /// The name assigned to the Wire.
    pub fn name(&self) -> (r: &String)
        ensures
            r@ == self.spec_name(),
    {
        &self.name
    }

    /// The present pull direction: the active pull takes precedence over the
    /// default pull unless it is `Floating`.
    pub fn pull(&self) -> (r: WirePull)
        ensures
            r == effective_pull(self.spec_default_pull(), self.spec_active_pull()),
    {
        if self.pull == WirePull::Floating {
            self.default_pull
        } else {
            self.pull
        }
    }

    /// Set the active pull direction.
    pub fn set_pull(&mut self, pull: WirePull)
        ensures
            final(self).spec_active_pull() == pull,
            final(self).spec_default_pull() == old(self).spec_default_pull(),
            final(self).spec_name() == old(self).spec_name(),
            final(self).spec_id() == old(self).spec_id(),
    {
        self.pull = pull;
    }

    /// Give the Wire its Id; refused with `AlreadyAssigned`, keeping the first
    /// Id, when it already has one.
    pub fn assign_id(&mut self, id: Id) -> (r: Result<Id, SimError>)
        ensures
            old(self).spec_id().is_none() ==> r == Ok::<Id, SimError>(id),
            old(self).spec_id().is_some() ==> r == Err::<Id, SimError>(
                SimError::AlreadyAssigned,
            ),
            final(self).spec_id() == after_assign(old(self).spec_id(), id),
            final(self).spec_name() == old(self).spec_name(),
            final(self).spec_default_pull() == old(self).spec_default_pull(),
            final(self).spec_active_pull() == old(self).spec_active_pull(),
    {
        if self.id.is_some() {
            Err(SimError::AlreadyAssigned)
        } else {
            self.id = Some(id);
            Ok(id)
        }
    }

    /// The Id of the Wire; `Unassigned` if it has none yet.
    pub fn id(&self) -> (r: Result<Id, SimError>)
        ensures
            self.spec_id().is_some() ==> r == Ok::<Id, SimError>(self.spec_id().unwrap()),
            self.spec_id().is_none() ==> r == Err::<Id, SimError>(SimError::Unassigned),
    {
        match self.id {
            Some(id) => Ok(id),
            None => Err(SimError::Unassigned),
        }
    }
}

/// Whatever the default pull, an active pull other than `Floating` decides the
/// effective pull; an active pull of `Floating` leaves it to the default pull.
pub proof fn lemma_active_pull_overrides(default_pull: WirePull, active: WirePull)
    ensures
        active != WirePull::Floating ==> effective_pull(default_pull, active) == active,
        active == WirePull::Floating ==> effective_pull(default_pull, active) == default_pull,
{
}

/// On a Wire without an Id, a first `assign_id` succeeds; any second one is
/// refused and the first Id stays.
pub proof fn lemma_assign_id_once(first: Id, second: Id)
    ensures
        after_assign(None, first) == Some(first),
        after_assign(after_assign(None, first), second) == Some(first),
        after_assign(None, first).is_some(),
{
}

} // verus!
