//! The tri-state connectivity flag and the cell that shares it between an
//! owner handle and its background task.

use std::sync::atomic::AtomicUsize;
use std::sync::atomic::Ordering;
use vstd::prelude::*;

verus! {

/// Connectivity of one socket owner.
#[derive(Debug, Clone, Copy, PartialEq, Eq, Structural)]
pub enum NetState {
    /// No socket.
    Inactive,
    /// A connect or bind is in flight.
    Establishing,
    /// The socket is usable.
    Active,
}

impl Default for NetState {
    fn default() -> (state: NetState)
        ensures
            state == NetState::Inactive,
    {
        NetState::Inactive
    }
}

impl NetState {
    /// The number under which a state is kept in an [`AtomicNetState`].
    pub open spec fn code(self) -> usize {
        match self {
            NetState::Inactive => 0,
            NetState::Establishing => 1,
            NetState::Active => 2,
        }
    }

    /// The state that a stored number stands for. Numbers that no state has
    /// read as `Inactive`.
    pub open spec fn of_code(code: usize) -> NetState {
        if code == 1 {
            NetState::Establishing
        } else if code == 2 {
            NetState::Active
        } else {
            NetState::Inactive
        }
    }

    /// One edge of the lifecycle: `Inactive → Establishing`,
    /// `Establishing → Active`, `Establishing → Inactive` or
    /// `Active → Inactive`.
    pub open spec fn steps_to(self, next: NetState) -> bool {
        match (self, next) {
            (NetState::Inactive, NetState::Establishing) => true,
            (NetState::Establishing, NetState::Active) => true,
            (NetState::Establishing, NetState::Inactive) => true,
            (NetState::Active, NetState::Inactive) => true,
            _ => false,
        }
    }

    pub fn to_usize(self) -> (code: usize)
        ensures
            code == self.code(),
    {
        match self {
            NetState::Inactive => 0,
            NetState::Establishing => 1,
            NetState::Active => 2,
        }
    }

    pub fn from_usize(code: usize) -> (state: NetState)
        ensures
            state == NetState::of_code(code),
    {
        if code == 1 {
            NetState::Establishing
        } else if code == 2 {
            NetState::Active
        } else {
            NetState::Inactive
        }
    }

    /// Whether the lifecycle has an edge from `self` to `next`.
    pub fn can_step_to(self, next: NetState) -> (allowed: bool)
        ensures
            allowed == self.steps_to(next),
    {
        match self {
            NetState::Inactive => next == NetState::Establishing,
            NetState::Establishing => next == NetState::Active || next == NetState::Inactive,
            NetState::Active => next == NetState::Inactive,
        }
    }
}

/// Every state survives the trip through its stored number.
pub proof fn code_round_trip(state: NetState)
    ensures
        NetState::of_code(state.code()) == state,
{
}

/// A [`NetState`] that an owner and its background task share. Both sides
/// touch it through relaxed atomic loads and stores only; it gates the
/// lifecycle and synchronises no data.
pub struct AtomicNetState {
    cell: AtomicUsize,
}

impl AtomicNetState {
    pub fn new(state: NetState) -> AtomicNetState {
        AtomicNetState { cell: AtomicUsize::new(state.to_usize()) }
    }

    /// The state last stored by any holder of the cell.
    pub fn load(&self) -> NetState {
        NetState::from_usize(self.cell.load(Ordering::Relaxed))
    }

    pub fn store(&self, state: NetState) {
        self.cell.store(state.to_usize(), Ordering::Relaxed)
    }
}

/// Which role a tab plays.
#[derive(Debug, Clone, Copy, PartialEq, Eq, Structural)]
pub enum Mode {
    Client,
    Server,
}

impl Mode {
    /// The name of the mode as it is shown.
    pub open spec fn shown(self) -> Seq<char> {
        match self {
            Mode::Client => "Client"@,
            Mode::Server => "Server"@,
        }
    }

    /// The name of the mode as it is shown: `Client` or `Server`.
    pub fn name(self) -> (name: &'static str)
        ensures
            name@ == self.shown(),
    {
        match self {
            Mode::Client => "Client",
            Mode::Server => "Server",
        }
    }
}

impl Default for Mode {
    fn default() -> (mode: Mode)
        ensures
            mode == Mode::Client,
    {
        Mode::Client
    }
}

} // verus!
