//! The Cell: a single-use relay that forwards once and then destroys itself.

use vstd::prelude::*;

use crate::address::Address;
use crate::codec::{address_at, read_address};
use crate::gas::{forward_gas, forward_gas_spec, transfer_gas, transfer_gas_spec};
use crate::params::HOP_COUNT;

verus! {

/// Where a Cell is in its one-shot life.
#[derive(Debug, Clone, Copy, PartialEq, Eq, Structural)]
pub enum CellPhase {
    /// Deployed, not yet called.
    Created,
    /// Called with hops still to go: spawning and feeding the next Cell.
    Intermediate,
    /// Called as the last hop: delivering to the destination.
    Terminal,
    /// Self-destructed; its balance went back to the Router.
    Destroyed,
}

/// What a called Cell asks the host to do before it self-destructs.
#[derive(Debug, Clone, Copy, PartialEq, Eq, Structural)]
pub enum CellAction {
    /// Transfer the carried value to the destination with `gas`.
    Deliver { gas: u64 },
    /// Deploy a Cell holding `next_hops` and forward the value to it with `gas`.
    Spawn { next_hops: u8, gas: u64 },
}

/// A Cell's state.
#[derive(Debug, Clone, Copy)]
pub struct Cell {
    /// Hops left, at most `HOP_COUNT`.
    pub hops_remaining: u8,
    /// The Router that receives whatever is left when this Cell self-destructs.
    pub router: Address,
    pub phase: CellPhase,
}

/// `hops` held to the protocol's largest hop count.
pub open spec fn clamp_hops(hops: int) -> int {
    if hops <= HOP_COUNT { hops } else { HOP_COUNT as int }
}

/// The hop count of the Cell that a Cell holding `hops` spawns: one less,
/// never below zero. Zero means the Cell is the last hop.
pub open spec fn next_hops_spec(hops: int) -> int {
    let h = clamp_hops(hops);
    if h >= 1 { h - 1 } else { 0 }
}

/// What a Cell holding `hops` does when called with `gas_limit`.
pub open spec fn cell_action_spec(hops: int, gas_limit: int) -> CellAction {
    let next = next_hops_spec(hops);
    if next == 0 {
        CellAction::Deliver { gas: transfer_gas_spec(gas_limit) as u64 }
    } else {
        CellAction::Spawn { next_hops: next as u8, gas: forward_gas_spec(gas_limit, next) as u64 }
    }
}

impl Cell {
    pub open spec fn wf(&self) -> bool {
        self.hops_remaining <= HOP_COUNT
    }

    /// A Cell as deployed with constructor data `hops` and `router`, or as
    /// read back from storage: the hop count is clamped to `HOP_COUNT`
    /// against corrupted or hostile input.
    pub fn new(hops: u8, router: Address) -> (r: Cell)
        ensures
            r.wf(),
            r.hops_remaining == clamp_hops(hops as int),
            r.router == router,
            r.phase == CellPhase::Created,
    {
        let h: u8 = if hops <= HOP_COUNT { hops } else { HOP_COUNT };
        Cell { hops_remaining: h, router, phase: CellPhase::Created }
    }

    /// A Cell as read back from its storage words: the hop count in the
    /// first byte of `hops_word` (clamped again, against corrupted storage),
    /// the Router left-aligned in `router_word`.
    pub fn from_storage(hops_word: &[u8; 32], router_word: &[u8; 32]) -> (r: Cell)
        ensures
            r.wf(),
            r.hops_remaining == clamp_hops(hops_word@[0] as int),
            r.router@ == address_at(router_word@, 0),
            r.phase == CellPhase::Created,
    {
        Cell::new(hops_word[0], read_address(router_word, 0))
    }

    /// The Cell's one call: decides between delivering and spawning the
    /// next hop, and moves to the matching phase.
    pub fn receive(&mut self, gas_limit: u64) -> (r: CellAction)
        requires
            old(self).phase == CellPhase::Created,
        ensures
            r == cell_action_spec(old(self).hops_remaining as int, gas_limit as int),
            final(self).hops_remaining == old(self).hops_remaining,
            final(self).router == old(self).router,
            final(self).phase == (if r is Deliver { CellPhase::Terminal } else { CellPhase::Intermediate }),
    {
        let h: u8 = if self.hops_remaining <= HOP_COUNT { self.hops_remaining } else { HOP_COUNT };
        let next: u8 = h.saturating_sub(1);
        if next == 0 {
            self.phase = CellPhase::Terminal;
            CellAction::Deliver { gas: transfer_gas(gas_limit) }
        } else {
            self.phase = CellPhase::Intermediate;
            CellAction::Spawn { next_hops: next, gas: forward_gas(gas_limit, next) }
        }
    }

    /// Ends the Cell whatever became of its forward: it self-destructs and
    /// names the Router as the beneficiary of what it still holds.
    pub fn conclude(&mut self) -> (r: Address)
        requires
            old(self).phase == CellPhase::Intermediate || old(self).phase == CellPhase::Terminal,
        ensures
            r == old(self).router,
            final(self).phase == CellPhase::Destroyed,
            final(self).hops_remaining == old(self).hops_remaining,
            final(self).router == old(self).router,
    {
        self.phase = CellPhase::Destroyed;
        self.router
    }
}

} // verus!
