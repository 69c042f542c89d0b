//! The container task's state machine: who owns the inventory, which menu
//! and revision a transfer expects, and how the task ended. Every failure,
//! cancellation and close releases ownership.
use vstd::prelude::*;
use crate::container::model::{BlockPosition, ContainerKind, ContainerOutcome, ContainerPhase, ContainerStatus, MenuSnapshot, TransferPlan};

verus! {

/// The container task's state.
#[derive(Clone, Debug)]
pub struct ContainerMachine {
    pub status: ContainerStatus,
    owned: bool,
    expected_revision: Option<u32>,
}

/// The abstract content of a [`ContainerMachine`].
pub struct ContainerModel {
    pub status: ContainerStatus,
    /// Whether the task currently owns the inventory.
    pub owned: bool,
    /// The menu revision the next transfer or confirmation expects.
    pub expected_revision: Option<u32>,
}

impl View for ContainerMachine {
    type V = ContainerModel;

    closed spec fn view(&self) -> ContainerModel {
        ContainerModel { status: self.status, owned: self.owned, expected_revision: self.expected_revision }
    }
}

/// A fresh status for a task on `target`.
pub open spec fn validating_status(target: BlockPosition) -> ContainerStatus {
    ContainerStatus {
        phase: ContainerPhase::Validating,
        target: Some(target),
        kind: None,
        window_id: None,
        requested: 0,
        transferred: 0,
        outcome: None,
        detail: None,
    }
}

/// The machine after failing with `outcome`.
pub open spec fn failed(m: ContainerModel, outcome: ContainerOutcome) -> ContainerModel {
    ContainerModel {
        status: ContainerStatus { phase: ContainerPhase::Failed, outcome: Some(outcome), ..m.status },
        owned: false,
        ..m
    }
}

impl Default for ContainerMachine {
    fn default() -> (m: Self)
        ensures
            m@.status.phase == ContainerPhase::Idle,
            m@.status.outcome is None,
            m@.status.requested == 0,
            m@.status.transferred == 0,
            !m@.owned,
            m@.expected_revision is None,
    {
        ContainerMachine { status: ContainerStatus::default(), owned: false, expected_revision: None }
    }
}

impl ContainerMachine {
    /// Starts a task on `target`; refused with `InventoryConflict` (and
    /// nothing changed) while another task owns the inventory.
    pub fn begin(&mut self, target: BlockPosition) -> (r: Result<(), ContainerOutcome>)
        ensures
            old(self)@.owned ==> r == Err::<(), ContainerOutcome>(ContainerOutcome::InventoryConflict) && final(self)@ == old(self)@,
            !old(self)@.owned ==> r is Ok && final(self)@ == (ContainerModel {
                status: validating_status(target),
                owned: true,
                ..old(self)@
            }),
        no_unwind
    {
        if self.owned {
            return Err(ContainerOutcome::InventoryConflict);
        }
        self.owned = true;
        self.status = ContainerStatus {
            phase: ContainerPhase::Validating,
            target: Some(target),
            kind: None,
            window_id: None,
            requested: 0,
            transferred: 0,
            outcome: None,
            detail: None,
        };
        Ok(())
    }

    /// Moves to `phase`.
    pub fn advance(&mut self, phase: ContainerPhase)
        ensures
            final(self)@ == (ContainerModel { status: ContainerStatus { phase, ..old(self)@.status }, ..old(self)@ }),
        no_unwind
    {
        self.status.phase = phase;
    }

    /// Records an authoritatively opened chest menu: its kind and window,
    /// phase `Open`, outcome `Opened`, and its revision as the expected one.
    pub fn menu_opened(&mut self, menu: &MenuSnapshot) -> (r: Result<(), ContainerOutcome>)
        ensures
            r is Ok,
            final(self)@ == (ContainerModel {
                status: ContainerStatus {
                    kind: Some(menu.kind),
                    window_id: Some(menu.window_id),
                    phase: ContainerPhase::Open,
                    outcome: Some(ContainerOutcome::Opened),
                    ..old(self)@.status
                },
                expected_revision: Some(menu.revision),
                ..old(self)@
            }),
        no_unwind
    {
        self.status.kind = Some(menu.kind);
        self.status.window_id = Some(menu.window_id);
        self.status.phase = ContainerPhase::Open;
        self.status.outcome = Some(ContainerOutcome::Opened);
        self.expected_revision = Some(menu.revision);
        Ok(())
    }

    /// Starts executing `plan`; fails with `InventoryConflict` unless the
    /// plan was made for the open window at the expected revision.
    pub fn begin_transfer(&mut self, plan: &TransferPlan) -> (r: Result<(), ContainerOutcome>)
        ensures
            (old(self)@.status.window_id != Some(plan.expected_window) || old(self)@.expected_revision != Some(plan.expected_revision))
                ==> r == Err::<(), ContainerOutcome>(ContainerOutcome::InventoryConflict)
                    && final(self)@ == failed(old(self)@, ContainerOutcome::InventoryConflict),
            (old(self)@.status.window_id == Some(plan.expected_window) && old(self)@.expected_revision == Some(plan.expected_revision))
                ==> r is Ok && final(self)@ == (ContainerModel {
                    status: ContainerStatus {
                        phase: ContainerPhase::Transferring,
                        requested: plan.requested,
                        ..old(self)@.status
                    },
                    ..old(self)@
                }),
        no_unwind
    {
        if self.status.window_id != Some(plan.expected_window) || self.expected_revision != Some(plan.expected_revision) {
            return self.fail(ContainerOutcome::InventoryConflict);
        }
        self.status.phase = ContainerPhase::Transferring;
        self.status.requested = plan.requested;
        Ok(())
    }

    /// Whether the menu's revision differs from the expected one.
    pub fn revision_changed(&self, revision: u32) -> (r: bool)
        ensures
            r == (self@.expected_revision != Some(revision)),
    {
        self.expected_revision != Some(revision)
    }

    /// Confirms that the server applied a transfer of `actual` items at a
    /// new `revision` of `window`. Fails with `ContainerClosedUnexpectedly`
    /// for another window, and `ServerRejected` when the revision did not
    /// move or nothing moved; otherwise adds `actual` to the transferred
    /// total and reports the transfer partial or complete.
    pub fn confirm(&mut self, window: i32, revision: u32, actual: u32) -> (r: Result<(), ContainerOutcome>)
        requires
            old(self)@.status.transferred + actual <= u32::MAX,
        ensures
            old(self)@.status.window_id != Some(window) ==> r == Err::<(), ContainerOutcome>(ContainerOutcome::ContainerClosedUnexpectedly)
                && final(self)@ == failed(old(self)@, ContainerOutcome::ContainerClosedUnexpectedly),
            old(self)@.status.window_id == Some(window) && (old(self)@.expected_revision == Some(revision) || actual == 0)
                ==> r == Err::<(), ContainerOutcome>(ContainerOutcome::ServerRejected)
                    && final(self)@ == failed(old(self)@, ContainerOutcome::ServerRejected),
            old(self)@.status.window_id == Some(window) && old(self)@.expected_revision != Some(revision) && actual > 0
                ==> r is Ok && final(self)@ == (ContainerModel {
                    status: ContainerStatus {
                        transferred: (old(self)@.status.transferred + actual) as u32,
                        phase: ContainerPhase::Open,
                        outcome: Some(if old(self)@.status.transferred + actual < old(self)@.status.requested {
                            ContainerOutcome::TransferPartial
                        } else {
                            ContainerOutcome::TransferCompleted
                        }),
                        ..old(self)@.status
                    },
                    expected_revision: Some(revision),
                    ..old(self)@
                }),
        no_unwind
    {
        if self.status.window_id != Some(window) {
            return self.fail(ContainerOutcome::ContainerClosedUnexpectedly);
        }
        if Some(revision) == self.expected_revision || actual == 0 {
            return self.fail(ContainerOutcome::ServerRejected);
        }
        self.expected_revision = Some(revision);
        self.status.transferred = self.status.transferred + actual;
        self.status.phase = ContainerPhase::Open;
        self.status.outcome = Some(if self.status.transferred < self.status.requested {
            ContainerOutcome::TransferPartial
        } else {
            ContainerOutcome::TransferCompleted
        });
        Ok(())
    }

    /// Ends the task with `outcome`, releasing the inventory.
    pub fn fail<T>(&mut self, outcome: ContainerOutcome) -> (r: Result<T, ContainerOutcome>)
        ensures
            r == Err::<T, ContainerOutcome>(outcome),
            final(self)@ == failed(old(self)@, outcome),
        no_unwind
    {
        self.status.phase = ContainerPhase::Failed;
        self.status.outcome = Some(outcome);
        self.owned = false;
        Err(outcome)
    }

    /// Cancels the task, releasing the inventory.
    pub fn cancel(&mut self)
        ensures
            final(self)@ == (ContainerModel {
                status: ContainerStatus { phase: ContainerPhase::Cancelled, outcome: Some(ContainerOutcome::Cancelled), ..old(self)@.status },
                owned: false,
                ..old(self)@
            }),
        no_unwind
    {
        self.status.phase = ContainerPhase::Cancelled;
        self.status.outcome = Some(ContainerOutcome::Cancelled);
        self.owned = false;
    }

    /// Completes the task, releasing the inventory.
    pub fn close(&mut self)
        ensures
            final(self)@ == (ContainerModel {
                status: ContainerStatus { phase: ContainerPhase::Completed, ..old(self)@.status },
                owned: false,
                ..old(self)@
            }),
        no_unwind
    {
        self.status.phase = ContainerPhase::Completed;
        self.owned = false;
    }

    /// What the task reports.
    pub fn status(&self) -> (s: &ContainerStatus)
        ensures
            *s == self@.status,
    {
        &self.status
    }

    /// Whether the task currently owns the inventory.
    pub fn owns_inventory(&self) -> (r: bool)
        ensures
            r == self@.owned,
    {
        self.owned
    }
}

/// Failing never leaves the inventory owned, and records the outcome.
pub proof fn lemma_failure_releases_the_inventory(m: ContainerModel, outcome: ContainerOutcome)
    ensures
        !failed(m, outcome).owned,
        failed(m, outcome).status.outcome == Some(outcome),
        failed(m, outcome).status.phase == ContainerPhase::Failed,
{
}

} // verus!
