//! The crafting service's shared status and stop switch, read and set by
//! the console while a craft runs elsewhere.
use vstd::prelude::*;
use std::sync::{Arc, Mutex};
use crate::crafting::execution::{CraftCancellation, CraftStatus};

verus! {

/// `std::sync::Mutex`, carried through opaquely.
#[verifier::external_type_specification]
#[verifier::external_body]
#[verifier::reject_recursive_types(T)]
pub struct ExMutex<T: ?Sized>(Mutex<T>);

/// What the service reports about the current or last craft.
#[derive(Clone, Debug, Default)]
pub struct CraftServiceStatus {
    pub active: bool,
    pub recipe_id: Option<String>,
    pub completed_operations: u32,
    pub crafted: u32,
    pub last_status: Option<CraftStatus>,
}

/// A copy of the shared status (`Mutex::lock`, then a clone of the
/// guarded value; a poisoned lock still yields its value). Another thread
/// may change the status at any time, so nothing is stated of the copy.
#[verifier::external_body]
fn read_status(shared: &Mutex<CraftServiceStatus>) -> CraftServiceStatus {
    match shared.lock() {
        Ok(guard) => guard.clone(),
        Err(poisoned) => poisoned.into_inner().clone(),
    }
}

/// Replaces the shared status (`Mutex::lock`, then an assignment through
/// the guard; a poisoned lock is written all the same).
#[verifier::external_body]
fn write_status(shared: &Mutex<CraftServiceStatus>, value: CraftServiceStatus) {
    match shared.lock() {
        Ok(mut guard) => *guard = value,
        Err(poisoned) => *poisoned.into_inner() = value,
    }
}

/// Whether a stop request goes out, given the status read: exactly when a
/// craft is active.
pub fn stop_decision(current: &CraftServiceStatus) -> (r: bool)
    ensures
        r == current.active,
{
    current.active
}

/// The status a fresh craft starts from: active, with no recipe, no
/// progress and no outcome yet.
pub open spec fn fresh_status() -> CraftServiceStatus {
    CraftServiceStatus {
        active: true,
        recipe_id: None,
        completed_operations: 0,
        crafted: 0,
        last_status: None,
    }
}

/// What claiming the service writes, given the status read: nothing when a
/// craft is already active, the fresh status otherwise.
pub open spec fn claimed_status(current: CraftServiceStatus) -> Option<CraftServiceStatus> {
    if current.active {
        None
    } else {
        Some(fresh_status())
    }
}

/// The claim decision: [`claimed_status`] of the status read.
pub fn claim_decision(current: &CraftServiceStatus) -> (r: Option<CraftServiceStatus>)
    ensures
        r == claimed_status(*current),
{
    if current.active {
        None
    } else {
        Some(CraftServiceStatus {
            active: true,
            recipe_id: None,
            completed_operations: 0,
            crafted: 0,
            last_status: None,
        })
    }
}

/// The crafting service: one craft at a time, observable and stoppable.
#[derive(Clone, Default)]
pub struct CraftService {
    status: Arc<Mutex<CraftServiceStatus>>,
    cancellation: CraftCancellation,
}

impl CraftService {
    /// The current status.
    pub fn status(&self) -> CraftServiceStatus {
        read_status(&self.status)
    }

    /// Asks a running craft to stop; `true` when one was running (and so
    /// was asked), `false` when the service was idle (and nothing changed).
    /// What it decides from the status it reads is [`CraftService::stop_on`].
    pub fn stop(&self) -> bool {
        let current = self.status();
        self.stop_on(&current)
    }

    /// `stop` once the status `current` was read: asks the stop switch
    /// exactly when [`stop_decision`] says so, and returns that.
    pub fn stop_on(&self, current: &CraftServiceStatus) -> (r: bool)
        ensures
            r == current.active,
    {
        let asked = stop_decision(current);
        if asked {
            self.cancellation.cancel();
        }
        asked
    }

    /// Claims the service for a new craft: `false` when one is already
    /// running; otherwise marks a fresh craft active, clears the stop
    /// switch, and returns `true`. What it decides from the status it reads
    /// is [`CraftService::begin_on`].
    pub fn begin(&self) -> bool {
        let current = self.status();
        self.begin_on(&current)
    }

    /// `begin` once the status `current` was read: writes the status that
    /// [`claim_decision`] gives, if any, then clears the stop switch; returns
    /// whether it claimed the service.
    pub fn begin_on(&self, current: &CraftServiceStatus) -> (r: bool)
        ensures
            r == !current.active,
            r == claimed_status(*current) is Some,
    {
        match claim_decision(current) {
            Some(fresh) => {
                write_status(&self.status, fresh);
                self.cancellation.reset();
                true
            },
            None => false,
        }
    }

    /// Records which recipe the running craft uses.
    pub fn set_recipe(&self, recipe_id: String) {
        let mut current = self.status();
        current.recipe_id = Some(recipe_id);
        write_status(&self.status, current);
    }

    /// Records the running craft's progress.
    pub fn record_progress(&self, completed_operations: u32, crafted: u32) {
        let mut current = self.status();
        current.completed_operations = completed_operations;
        current.crafted = crafted;
        write_status(&self.status, current);
    }

    /// Marks the craft finished with `outcome`.
    pub fn finish(&self, outcome: Option<CraftStatus>) {
        let mut current = self.status();
        current.active = false;
        current.last_status = outcome;
        write_status(&self.status, current);
    }

    /// The service's own stop switch.
    pub closed spec fn stop_switch(&self) -> CraftCancellation {
        self.cancellation
    }

    /// The stop switch the running craft watches: the service's own, the
    /// same one on every call.
    pub fn cancellation(&self) -> (c: &CraftCancellation)
        ensures
            *c == self.stop_switch(),
    {
        &self.cancellation
    }
}

} // verus!
