//! Deployment of a Cell: its constructor payload and the preimage of the
//! salt that fixes its address.
//!
//! The salt mixes the hop count, the Router, a nonce, the block number and
//! the timestamp. This is a best-effort defence against precomputed
//! addresses, not an unpredictability guarantee: block number and time are
//! public, and the first hop's nonce is a plain counter.

use vstd::prelude::*;

use crate::address::Address;
use crate::error::ContractError;
use crate::gas::{deploy_gas, deploy_gas_spec};
use crate::params::TYPE_CELL;
use crate::router::{route_spec, RouterState};
use crate::word::{encode_le, le_value, pow256};

verus! {

/// `p` is the salt preimage for a Cell of `hops` hops under `router`, with
/// `nonce`, in the block whose number and time words are `block` and `now`:
/// hop count, Router, nonce (8 bytes little-endian), then the first 8 bytes
/// of each of the two words.
pub open spec fn is_salt_preimage(p: Seq<u8>, hops: u8, router: Seq<u8>, nonce: u64, block: Seq<u8>, now: Seq<u8>) -> bool {
    &&& p.len() == 45
    &&& p[0] == hops
    &&& p.subrange(1, 21) == router
    &&& p.subrange(21, 29).len() == 8
    &&& le_value(p.subrange(21, 29)) == nonce
    &&& p.subrange(29, 37) == block.subrange(0, 8)
    &&& p.subrange(37, 45) == now.subrange(0, 8)
}

/// The constructor payload of a Cell: its tag, its hop count, its Router.
pub open spec fn cell_constructor_spec(hops: u8, router: Seq<u8>) -> Seq<u8> {
    seq![TYPE_CELL, hops] + router
}

/// What the host needs to deploy one Cell.
#[derive(Debug)]
pub struct CellDeployment {
    /// Code hash followed by the constructor payload.
    pub input: Vec<u8>,
    /// The bytes whose 256-bit hash is the deployment salt.
    pub salt_preimage: Vec<u8>,
    /// Gas for the deployment.
    pub gas: u64,
}

/// The salt preimage for a Cell of `hops` hops under `router`.
pub fn salt_preimage(hops: u8, router: &Address, nonce: u64, block: &[u8; 32], now: &[u8; 32]) -> (r: Vec<u8>)
    ensures
        is_salt_preimage(r@, hops, router@, nonce, block@, now@),
{
    let mut out: Vec<u8> = Vec::new();
    out.push(hops);
    let mut i: usize = 0;
    while i < 20
        invariant
            i <= 20,
            router@.len() == 20,
            out@ == seq![hops] + router@.subrange(0, i as int),
        decreases 20 - i,
    {
        out.push(router[i]);
        i = i + 1;
    }
    proof {
        reveal_with_fuel(pow256, 9);
    }
    let nb = encode_le(nonce as u128, 8);
    let mut j: usize = 0;
    while j < 8
        invariant
            j <= 8,
            nb@.len() == 8,
            out@ == seq![hops] + router@ + nb@.subrange(0, j as int),
        decreases 8 - j,
    {
        out.push(nb[j]);
        j = j + 1;
    }
    let mut k: usize = 0;
    while k < 8
        invariant
            k <= 8,
            block@.len() == 32,
            out@ == seq![hops] + router@ + nb@ + block@.subrange(0, k as int),
        decreases 8 - k,
    {
        out.push(block[k]);
        k = k + 1;
    }
    let mut m: usize = 0;
    while m < 8
        invariant
            m <= 8,
            now@.len() == 32,
            out@ == seq![hops] + router@ + nb@ + block@.subrange(0, 8) + now@.subrange(0, m as int),
        decreases 8 - m,
    {
        out.push(now[m]);
        m = m + 1;
    }
    assert(router@.subrange(0, 20) =~= router@);
    assert(nb@.subrange(0, 8) =~= nb@);
    assert(out@.subrange(1, 21) =~= router@);
    assert(out@.subrange(21, 29) =~= nb@);
    assert(out@.subrange(29, 37) =~= block@.subrange(0, 8));
    assert(out@.subrange(37, 45) =~= now@.subrange(0, 8));
    out
}

/// The salt nonce of an intermediate Cell, drawn from the running
/// execution: the next hop count in the low byte, the low 4 bytes of the
/// remaining execution budget above it, and the low 3 bytes of the gas
/// price on top.
pub fn hop_nonce(next_hops: u8, budget_left: u64, gas_price: u64) -> (r: u64)
    ensures
        r == next_hops + 0x100 * (budget_left % 0x1_0000_0000) + 0x100_0000_0000 * (gas_price % 0x100_0000),
{
    let budget: u64 = budget_left % 0x1_0000_0000;
    let price: u64 = gas_price % 0x100_0000;
    assert(next_hops + 0x100 * budget + 0x100_0000_0000 * price <= u64::MAX) by (nonlinear_arith)
        requires
            budget < 0x1_0000_0000,
            price < 0x100_0000,
            next_hops < 256,
    ;
    next_hops as u64 + 0x100 * budget + 0x100_0000_0000 * price
}

/// The address a Cell deployment produced, or `CellDeployFailed` when the
/// host could not deploy it; the failure reverts the enclosing call.
pub fn finish_deploy(address: Address, deployed: bool) -> (r: Result<Address, ContractError>)
    ensures
        deployed ==> r == Ok::<Address, ContractError>(address),
        !deployed ==> r == Err::<Address, ContractError>(ContractError::CellDeployFailed),
{
    if deployed {
        Ok(address)
    } else {
        Err(ContractError::CellDeployFailed)
    }
}

/// Everything the host needs to deploy a Cell of `hops` hops under `router`
/// from the code `code_hash`, with `nonce`, in the block described by
/// `block` and `now`, out of `gas_limit`.
pub fn plan_cell_deployment(
    code_hash: &[u8; 32],
    hops: u8,
    router: &Address,
    nonce: u64,
    block: &[u8; 32],
    now: &[u8; 32],
    gas_limit: u64,
) -> (r: CellDeployment)
    ensures
        r.input@ == code_hash@ + cell_constructor_spec(hops, router@),
        is_salt_preimage(r.salt_preimage@, hops, router@, nonce, block@, now@),
        r.gas == deploy_gas_spec(gas_limit as int),
{
    let mut input: Vec<u8> = Vec::new();
    let mut i: usize = 0;
    while i < 32
        invariant
            i <= 32,
            code_hash@.len() == 32,
            input@ == code_hash@.subrange(0, i as int),
        decreases 32 - i,
    {
        input.push(code_hash[i]);
        i = i + 1;
    }
    input.push(TYPE_CELL);
    input.push(hops);
    let mut j: usize = 0;
    while j < 20
        invariant
            j <= 20,
            router@.len() == 20,
            code_hash@.len() == 32,
            input@ == code_hash@ + seq![TYPE_CELL, hops] + router@.subrange(0, j as int),
        decreases 20 - j,
    {
        input.push(router[j]);
        j = j + 1;
    }
    assert(code_hash@.subrange(0, 32) =~= code_hash@);
    assert(router@.subrange(0, 20) =~= router@);
    assert(input@ =~= code_hash@ + cell_constructor_spec(hops, router@));
    CellDeployment {
        input,
        salt_preimage: salt_preimage(hops, router, nonce, block, now),
        gas: deploy_gas(gas_limit),
    }
}

/// Salt preimages built with different nonces differ, whatever else they share.
pub proof fn lemma_salt_separates_nonces(
    p1: Seq<u8>,
    p2: Seq<u8>,
    hops: u8,
    router: Seq<u8>,
    n1: u64,
    n2: u64,
    block: Seq<u8>,
    now: Seq<u8>,
)
    requires
        is_salt_preimage(p1, hops, router, n1, block, now),
        is_salt_preimage(p2, hops, router, n2, block, now),
        n1 != n2,
    ensures
        p1 != p2,
{
}

/// Two routes accepted one after the other start their first Cells with
/// different nonces, so in one block, with one Router and one timestamp,
/// their salt preimages differ.
pub proof fn lemma_consecutive_routes_distinct_salts(
    s: RouterState,
    v1: u128,
    g1: u64,
    v2: u128,
    g2: u64,
    p1: Seq<u8>,
    p2: Seq<u8>,
    router: Seq<u8>,
    block: Seq<u8>,
    now: Seq<u8>,
)
    requires
        route_spec(s, v1, g1).1 is Ok,
        route_spec(route_spec(s, v1, g1).0, v2, g2).1 is Ok,
        is_salt_preimage(p1, route_spec(s, v1, g1).1->Ok_0.hops, router, route_spec(s, v1, g1).1->Ok_0.nonce, block, now),
        is_salt_preimage(
            p2,
            route_spec(route_spec(s, v1, g1).0, v2, g2).1->Ok_0.hops,
            router,
            route_spec(route_spec(s, v1, g1).0, v2, g2).1->Ok_0.nonce,
            block,
            now,
        ),
    ensures
        p1 != p2,
{
    assert(route_spec(s, v1, g1).1->Ok_0.nonce != route_spec(route_spec(s, v1, g1).0, v2, g2).1->Ok_0.nonce);
}

} // verus!
