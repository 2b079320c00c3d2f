//! A run of a whole chain of Cells, with the host's transfers given as
//! outcomes: the protocol's teardown and value accounting made explicit.

use vstd::prelude::*;

use crate::address::Address;
use crate::cell::{clamp_hops, Cell, CellAction, CellPhase};
use crate::error::ContractError;
use crate::params::{HOP_COUNT, ROUTING_FEE};
use crate::router::{route_spec, RouterState};

verus! {

/// What a run of a chain did.
#[derive(Debug)]
pub struct ChainReport {
    /// Cells deployed, the first one included.
    pub deployments: u64,
    /// Cells that self-destructed.
    pub destructs: u64,
    /// Value that reached the destination.
    pub delivered: u128,
    /// Value left in a Cell and swept to the Router by its self-destruct.
    pub swept: u128,
    /// The hop count of each Cell that ran, in the order they ran.
    pub hops_seen: Vec<u8>,
}

/// Whether the outbound transfer of the `i`-th Cell of a run went through;
/// outcomes past the end of `link_ok` are successes.
pub open spec fn link_succeeds(link_ok: Seq<bool>, i: int) -> bool {
    i >= link_ok.len() || link_ok[i]
}

/// Link `k` is the first whose transfer fails.
pub open spec fn first_failure_at(link_ok: Seq<bool>, k: int) -> bool {
    &&& 0 <= k
    &&& !link_succeeds(link_ok, k)
    &&& forall|i: int| 0 <= i < k ==> link_succeeds(link_ok, i)
}

/// Number of Cells that run in a chain started with `hops` when every
/// transfer goes through.
pub open spec fn chain_length(hops: int) -> int {
    let h = clamp_hops(hops);
    if h >= 1 { h } else { 1 }
}

/// Runs a chain whose first Cell holds `first_hops` and carries `value`.
/// The `i`-th Cell's outbound transfer (to the next Cell, or to the
/// destination) succeeds as `link_ok` says. Every Cell that runs
/// self-destructs; value is never created or lost, only delivered or swept
/// back; the hop count falls by one from Cell to Cell. A failed transfer
/// stops the run at the Cell that made it, which sweeps the whole value
/// back to the Router.
pub fn run_chain(first_hops: u8, value: u128, router: Address, gas_limit: u64, link_ok: &Vec<bool>) -> (r: ChainReport)
    ensures
        r.delivered + r.swept == value,
        r.destructs == r.hops_seen@.len(),
        r.destructs >= 1,
        forall|i: int| 0 <= i < r.hops_seen@.len() ==> r.hops_seen@[i] == clamp_hops(first_hops as int) - i,
        r.deployments == r.destructs || r.deployments == r.destructs + 1,
        (forall|i: int| 0 <= i < chain_length(first_hops as int) ==> link_succeeds(link_ok@, i)) ==> {
            &&& r.deployments == chain_length(first_hops as int)
            &&& r.destructs == chain_length(first_hops as int)
            &&& r.delivered == value
            &&& r.swept == 0
        },
        forall|k: int| 0 <= k < chain_length(first_hops as int) && #[trigger] first_failure_at(link_ok@, k) ==> {
            &&& r.destructs == k + 1
            &&& r.deployments == (if k + 1 == chain_length(first_hops as int) { k + 1 } else { k + 2 })
            &&& r.delivered == 0
            &&& r.swept == value
        },
{
    let mut cell = Cell::new(first_hops, router);
    let mut deployments: u64 = 1;
    let mut destructs: u64 = 0;
    let mut hops_seen: Vec<u8> = Vec::new();
    let ghost c = clamp_hops(first_hops as int);
    loop
        invariant
            cell.wf(),
            cell.phase == CellPhase::Created,
            cell.hops_remaining >= 1 ==> cell.hops_remaining == c - destructs,
            cell.hops_remaining == 0 ==> c == 0 && destructs == 0,
            destructs == hops_seen@.len(),
            deployments == destructs + 1,
            destructs <= c,
            forall|i: int| 0 <= i < hops_seen@.len() ==> hops_seen@[i] == c - i,
            forall|i: int| 0 <= i < destructs ==> link_succeeds(link_ok@, i),
            c == clamp_hops(first_hops as int),
        decreases cell.hops_remaining,
    {
        let i: usize = destructs as usize;
        let ok: bool = i >= link_ok.len() || link_ok[i];
        assert(ok == link_succeeds(link_ok@, destructs as int));
        assert forall|k: int| #[trigger] first_failure_at(link_ok@, k) implies k >= destructs by {
            if k < destructs {
                assert(link_succeeds(link_ok@, k));
            }
        }
        assert(!ok ==> forall|k: int| #[trigger] first_failure_at(link_ok@, k) ==> k == destructs);
        let h: u8 = cell.hops_remaining;
        hops_seen.push(h);
        let action = cell.receive(gas_limit);
        match action {
            CellAction::Deliver { .. } => {
                assert(h <= 1);
                assert(destructs + 1 == chain_length(first_hops as int));
                let _beneficiary = cell.conclude();
                destructs = destructs + 1;
                let (delivered, swept): (u128, u128) = if ok { (value, 0) } else { (0, value) };
                return ChainReport { deployments, destructs, delivered, swept, hops_seen };
            },
            CellAction::Spawn { next_hops, .. } => {
                assert(h >= 2);
                assert(destructs < chain_length(first_hops as int));
                deployments = deployments + 1;
                let _beneficiary = cell.conclude();
                destructs = destructs + 1;
                if !ok {
                    return ChainReport { deployments, destructs, delivered: 0, swept: value, hops_seen };
                }
                cell = Cell::new(next_hops, router);
            },
        }
    }
}

/// A route of `value` through a Router in state `*old(state)`, followed by
/// the chain it starts. An accepted route delivers or sweeps back exactly
/// the value less the fee.
pub fn simulate_route(state: &mut RouterState, value: u128, gas_limit: u64, router: Address, link_ok: &Vec<bool>) -> (r: Result<ChainReport, ContractError>)
    ensures
        *final(state) == route_spec(*old(state), value, gas_limit).0,
        r is Ok <==> route_spec(*old(state), value, gas_limit).1 is Ok,
        r is Err ==> r->Err_0 == route_spec(*old(state), value, gas_limit).1->Err_0,
        r is Ok ==> r->Ok_0.delivered + r->Ok_0.swept == value - ROUTING_FEE,
        r is Ok && (forall|i: int| 0 <= i < HOP_COUNT ==> link_succeeds(link_ok@, i)) ==> {
            &&& r->Ok_0.deployments == HOP_COUNT
            &&& r->Ok_0.destructs == HOP_COUNT
            &&& r->Ok_0.delivered == value - ROUTING_FEE
        },
        forall|k: int| 0 <= k < HOP_COUNT && #[trigger] first_failure_at(link_ok@, k) ==> r is Ok ==> {
            &&& r->Ok_0.destructs == k + 1
            &&& r->Ok_0.deployments == (if k + 1 == HOP_COUNT { k + 1 } else { k + 2 })
            &&& r->Ok_0.delivered == 0
            &&& r->Ok_0.swept == value - ROUTING_FEE
        },
{
    match state.route(value, gas_limit) {
        Ok(start) => Ok(run_chain(start.hops, start.forward_value, router, gas_limit, link_ok)),
        Err(e) => Err(e),
    }
}

} // verus!
