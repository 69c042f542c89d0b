//! Plain container and menu data.
use vstd::prelude::*;

verus! {

/// A block's integer coordinates.
#[derive(Clone, Copy, Debug, Default, PartialEq, Eq, Structural)]
pub struct BlockPosition {
    pub x: i32,
    pub y: i32,
    pub z: i32,
}

/// The chest kinds the container service opens.
#[derive(Clone, Copy, Debug, PartialEq, Eq, Structural)]
pub enum ContainerKind {
    SingleChest,
    DoubleChest,
}

/// One stack in a menu slot.
#[derive(Clone, Debug, PartialEq, Eq)]
pub struct StackSnapshot {
    pub item_id: String,
    pub count: u32,
    pub max_count: u32,
}

/// An open chest menu: container slots first, then the 36 player slots.
#[derive(Clone, Debug, PartialEq, Eq)]
pub struct MenuSnapshot {
    pub kind: ContainerKind,
    pub position: Option<BlockPosition>,
    pub window_id: i32,
    pub revision: u32,
    pub container_slots: Vec<Option<StackSnapshot>>,
    pub player_slots: Vec<Option<StackSnapshot>>,
}

/// Which way items move.
#[derive(Clone, Copy, Debug, PartialEq, Eq, Structural)]
pub enum TransferDirection {
    /// From the container into the player's inventory.
    Take,
    /// From the player's inventory into the container.
    Store,
}

/// A mouse button of a menu click.
#[derive(Clone, Copy, Debug, PartialEq, Eq, Structural)]
pub enum ClickButton {
    Left,
    Right,
}

/// One click on a protocol menu slot.
#[derive(Clone, Copy, Debug, PartialEq, Eq, Structural)]
pub struct InventoryClick {
    pub slot: usize,
    pub button: ClickButton,
}

/// A planned transfer: the clicks to send and the menu state they assume.
#[derive(Clone, Debug, PartialEq, Eq)]
pub struct TransferPlan {
    pub direction: TransferDirection,
    pub item_id: String,
    pub requested: u32,
    pub planned: u32,
    pub clicks: Vec<InventoryClick>,
    pub expected_window: i32,
    pub expected_revision: u32,
}

/// Where a container task is.
#[derive(Clone, Copy, Debug, PartialEq, Eq, Structural)]
pub enum ContainerPhase {
    Idle,
    Validating,
    Navigating,
    Aligning,
    Interacting,
    AwaitingMenu,
    Open,
    Planning,
    Transferring,
    Closing,
    Completed,
    Failed,
    Cancelled,
}

/// How a container task (or one step of it) ended.
#[derive(Clone, Copy, Debug, PartialEq, Eq, Structural)]
pub enum ContainerOutcome {
    Opened,
    TransferCompleted,
    TransferPartial,
    ItemNotFound,
    DestinationFull,
    TargetNotFound,
    TargetUnreachable,
    WrongMenu,
    ContainerClosedUnexpectedly,
    InventoryConflict,
    ServerRejected,
    TimedOut,
    Cancelled,
    Disconnected,
    Died,
    BlockedOrRemoved,
}

/// What the container service reports.
#[derive(Clone, Debug, PartialEq, Eq)]
pub struct ContainerStatus {
    pub phase: ContainerPhase,
    pub target: Option<BlockPosition>,
    pub kind: Option<ContainerKind>,
    pub window_id: Option<i32>,
    pub requested: u32,
    pub transferred: u32,
    pub outcome: Option<ContainerOutcome>,
    pub detail: Option<String>,
}

impl Default for ContainerStatus {
    fn default() -> (s: Self)
        ensures
            s.phase == ContainerPhase::Idle,
            s.target is None,
            s.kind is None,
            s.window_id is None,
            s.requested == 0,
            s.transferred == 0,
            s.outcome is None,
            s.detail is None,
    {
        ContainerStatus {
            phase: ContainerPhase::Idle,
            target: None,
            kind: None,
            window_id: None,
            requested: 0,
            transferred: 0,
            outcome: None,
            detail: None,
        }
    }
}

} // verus!
