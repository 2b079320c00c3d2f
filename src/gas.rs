//! Gas budgeting across the chain of nested calls.

use vstd::prelude::*;

use crate::params::{DEPLOYMENT_GAS, FORWARD_GAS, HOP_COUNT, MAX_GAS_PER_CELL};

verus! {

/// `a - b`, or zero where `b` exceeds `a`.
pub open spec fn sat_sub(a: int, b: int) -> int {
    if a >= b { a - b } else { 0 }
}

pub open spec fn min_int(a: int, b: int) -> int {
    if a <= b { a } else { b }
}

/// Gas a route call must carry: one deployment plus the full per-cell cap
/// for every hop.
pub open spec fn required_route_gas_spec() -> int {
    DEPLOYMENT_GAS + HOP_COUNT * MAX_GAS_PER_CELL
}

/// Gas handed to a Cell that still has `hops` hops to cover, out of
/// `gas_limit`: what is left after a deployment, capped at `hops` cells.
pub open spec fn forward_gas_spec(gas_limit: int, hops: int) -> int {
    min_int(sat_sub(gas_limit, DEPLOYMENT_GAS as int), MAX_GAS_PER_CELL * hops)
}

/// Gas handed to a plain transfer (final delivery or fee withdrawal).
pub open spec fn transfer_gas_spec(gas_limit: int) -> int {
    min_int(sat_sub(gas_limit, FORWARD_GAS as int), MAX_GAS_PER_CELL as int)
}

/// Gas handed to the deployment of a Cell.
pub open spec fn deploy_gas_spec(gas_limit: int) -> int {
    min_int(sat_sub(gas_limit, FORWARD_GAS as int), DEPLOYMENT_GAS as int)
}

/// The gas a route call must carry so that no deployment of the chain runs dry.
pub fn required_route_gas() -> (r: u64)
    ensures
        r == required_route_gas_spec(),
        r == 12_500_000,
{
    DEPLOYMENT_GAS + (HOP_COUNT as u64) * MAX_GAS_PER_CELL
}

/// Whether a route call carrying `gas_limit` may start the chain.
pub fn route_gas_sufficient(gas_limit: u64) -> (r: bool)
    ensures
        r == (gas_limit >= required_route_gas_spec()),
{
    gas_limit >= required_route_gas()
}

/// Gas for the call into a Cell that has `hops` hops left to cover.
pub fn forward_gas(gas_limit: u64, hops: u8) -> (r: u64)
    requires
        hops <= HOP_COUNT,
    ensures
        r == forward_gas_spec(gas_limit as int, hops as int),
        r <= MAX_GAS_PER_CELL * hops,
{
    let cap: u64 = MAX_GAS_PER_CELL * (hops as u64);
    let left: u64 = gas_limit.saturating_sub(DEPLOYMENT_GAS);
    if left <= cap { left } else { cap }
}

/// Gas for a plain value transfer out of a Cell or out of the Router.
pub fn transfer_gas(gas_limit: u64) -> (r: u64)
    ensures
        r == transfer_gas_spec(gas_limit as int),
        r <= MAX_GAS_PER_CELL,
{
    let left: u64 = gas_limit.saturating_sub(FORWARD_GAS);
    if left <= MAX_GAS_PER_CELL { left } else { MAX_GAS_PER_CELL }
}

/// Gas for deploying a Cell.
pub fn deploy_gas(gas_limit: u64) -> (r: u64)
    ensures
        r == deploy_gas_spec(gas_limit as int),
        r <= DEPLOYMENT_GAS,
{
    let left: u64 = gas_limit.saturating_sub(FORWARD_GAS);
    if left <= DEPLOYMENT_GAS { left } else { DEPLOYMENT_GAS }
}

} // verus!
