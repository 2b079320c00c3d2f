//! The Router: fee collection, the start of a chain, and fee withdrawal.

use vstd::prelude::*;

use crate::address::{same_address, Address};
use crate::codec::{address_at, read_address};
use crate::word::{decode_le, decode_le_u64, le_value};
use crate::error::ContractError;
use crate::gas::{forward_gas, forward_gas_spec, required_route_gas_spec, route_gas_sufficient};
use crate::params::{HOP_COUNT, ROUTING_FEE};

verus! {

/// What the Router keeps in storage.
#[derive(Debug, Clone, Copy)]
pub struct RouterState {
    /// The deployer; the only account that may withdraw fees.
    pub owner: Address,
    /// Fees taken so far and not yet withdrawn.
    pub fees_collected: u128,
    /// Counter of successful routes, mixed into the first Cell's salt.
    pub nonce: u64,
}

/// What the host must do to start a chain once a route is accepted.
#[derive(Debug, Clone, Copy, PartialEq, Eq, Structural)]
pub struct RouteStart {
    /// Salt nonce for the first Cell.
    pub nonce: u64,
    /// Hop count of the first Cell.
    pub hops: u8,
    /// Value forwarded into the first Cell: the attached value less the fee.
    pub forward_value: u128,
    /// Gas given to the call into the first Cell.
    pub cell_gas: u64,
}

/// `a + b`, held at `u128::MAX`.
pub open spec fn sat_add_u128(a: int, b: int) -> u128 {
    if a + b > u128::MAX { u128::MAX } else { (a + b) as u128 }
}

/// `a + 1` modulo 2^64.
pub open spec fn wrap_inc_u64(a: u64) -> u64 {
    if a == u64::MAX { 0 } else { (a + 1) as u64 }
}

/// A route request carrying `value` and `gas_limit`: the new state and the
/// result. A rejected request leaves the state as it was.
pub open spec fn route_spec(s: RouterState, value: u128, gas_limit: u64) -> (RouterState, Result<RouteStart, ContractError>) {
    if value <= ROUTING_FEE {
        (s, Err(ContractError::InsufficientFee))
    } else if gas_limit < required_route_gas_spec() {
        (s, Err(ContractError::InsufficientGas))
    } else {
        let n = wrap_inc_u64(s.nonce);
        (
            RouterState { fees_collected: sat_add_u128(s.fees_collected as int, ROUTING_FEE as int), nonce: n, ..s },
            Ok(RouteStart {
                nonce: n,
                hops: HOP_COUNT,
                forward_value: (value - ROUTING_FEE) as u128,
                cell_gas: forward_gas_spec(gas_limit as int, HOP_COUNT as int) as u64,
            }),
        )
    }
}

/// The first half of a withdrawal by `caller`: on success the fees are
/// zeroed before any transfer and their amount is returned.
pub open spec fn withdraw_begin_spec(s: RouterState, caller: Seq<u8>) -> (RouterState, Result<u128, ContractError>) {
    if caller != s.owner@ {
        (s, Err(ContractError::NotOwner))
    } else if s.fees_collected == 0 {
        (s, Err(ContractError::NoFees))
    } else {
        (RouterState { fees_collected: 0, ..s }, Ok(s.fees_collected))
    }
}

/// The second half of a withdrawal of `amount`, once the transfer to the
/// owner has succeeded or failed: a failed transfer restores the fees.
pub open spec fn withdraw_finish_spec(s: RouterState, amount: u128, transferred: bool) -> (RouterState, Result<u128, ContractError>) {
    if transferred {
        (s, Ok(amount))
    } else {
        (RouterState { fees_collected: amount, ..s }, Err(ContractError::WithdrawFailed))
    }
}

/// The outcome of starting a chain whose call into the first Cell succeeded
/// or failed: the first Cell's address, or `RoutingFailed`.
pub open spec fn route_finish_spec(first_cell: Seq<u8>, forwarded: bool) -> Result<Seq<u8>, ContractError> {
    if forwarded {
        Ok(Seq::new(12, |i: int| 0u8) + first_cell)
    } else {
        Err(ContractError::RoutingFailed)
    }
}

impl RouterState {
    /// The state a Router is constructed with: owned by its deployer, no
    /// fees, nonce zero.
    pub fn new(owner: Address) -> (r: RouterState)
        ensures
            r.owner == owner,
            r.fees_collected == 0,
            r.nonce == 0,
    {
        RouterState { owner, fees_collected: 0, nonce: 0 }
    }

    /// The state held in the storage words of the owner (address
    /// left-aligned), the fees (16 bytes little-endian) and the nonce
    /// (8 bytes little-endian).
    pub fn from_storage(owner_word: &[u8; 32], fees_word: &[u8; 32], nonce_word: &[u8; 32]) -> (r: RouterState)
        ensures
            r.owner@ == address_at(owner_word@, 0),
            r.fees_collected == le_value(fees_word@.subrange(0, 16)),
            r.nonce == le_value(nonce_word@.subrange(0, 8)),
    {
        RouterState {
            owner: read_address(owner_word, 0),
            fees_collected: decode_le(fees_word, 16),
            nonce: decode_le_u64(nonce_word),
        }
    }

    /// Accepts or rejects a route request that attaches `value` and carries
    /// `gas_limit`. On acceptance the fee is booked (saturating), the nonce
    /// advances (wrapping), and the returned plan says what to deploy and
    /// forward.
    pub fn route(&mut self, value: u128, gas_limit: u64) -> (r: Result<RouteStart, ContractError>)
        ensures
            (*final(self), r) == route_spec(*old(self), value, gas_limit),
            r is Ok <==> (value > ROUTING_FEE && gas_limit >= required_route_gas_spec()),
    {
        if value <= ROUTING_FEE {
            return Err(ContractError::InsufficientFee);
        }
        if !route_gas_sufficient(gas_limit) {
            return Err(ContractError::InsufficientGas);
        }
        self.fees_collected = self.fees_collected.saturating_add(ROUTING_FEE);
        self.nonce = self.nonce.wrapping_add(1);
        Ok(RouteStart {
            nonce: self.nonce,
            hops: HOP_COUNT,
            forward_value: value - ROUTING_FEE,
            cell_gas: forward_gas(gas_limit, HOP_COUNT),
        })
    }

    /// Starts a withdrawal by `caller`. On success the fees are zeroed here,
    /// before the host transfers them, so a reentrant withdrawal finds none.
    pub fn begin_withdraw(&mut self, caller: &Address) -> (r: Result<u128, ContractError>)
        ensures
            (*final(self), r) == withdraw_begin_spec(*old(self), caller@),
    {
        if !same_address(caller, &self.owner) {
            return Err(ContractError::NotOwner);
        }
        let fees = self.fees_collected;
        if fees == 0 {
            return Err(ContractError::NoFees);
        }
        self.fees_collected = 0;
        Ok(fees)
    }

    /// Ends a withdrawal of `amount` once the host reports whether the
    /// transfer to the owner went through; a failed transfer restores the fees.
    pub fn finish_withdraw(&mut self, amount: u128, transferred: bool) -> (r: Result<u128, ContractError>)
        ensures
            (*final(self), r) == withdraw_finish_spec(*old(self), amount, transferred),
    {
        if transferred {
            Ok(amount)
        } else {
            self.fees_collected = amount;
            Err(ContractError::WithdrawFailed)
        }
    }
}

/// The data a successful route returns: the first Cell's address,
/// right-aligned in 32 bytes; `RoutingFailed` when the call into it failed.
pub fn finish_route(first_cell: &Address, forwarded: bool) -> (r: Result<Vec<u8>, ContractError>)
    ensures
        match (r, route_finish_spec(first_cell@, forwarded)) {
            (Ok(v), Ok(w)) => v@ == w,
            (Err(e), Err(f)) => e == f,
            _ => false,
        },
{
    if !forwarded {
        return Err(ContractError::RoutingFailed);
    }
    let mut out: Vec<u8> = Vec::new();
    let mut i: usize = 0;
    while i < 12
        invariant
            i <= 12,
            out@ =~= Seq::new(i as nat, |k: int| 0u8),
        decreases 12 - i,
    {
        out.push(0u8);
        i = i + 1;
    }
    let mut j: usize = 0;
    while j < 20
        invariant
            j <= 20,
            first_cell@.len() == 20,
            out@ =~= Seq::new(12, |k: int| 0u8) + first_cell@.subrange(0, j as int),
        decreases 20 - j,
    {
        out.push(first_cell[j]);
        j = j + 1;
    }
    assert(first_cell@.subrange(0, 20) =~= first_cell@);
    Ok(out)
}

/// A route request that attaches no more than the fee is rejected with
/// `InsufficientFee` and changes nothing.
pub proof fn lemma_underpaid_route_rejected(s: RouterState, value: u128, gas_limit: u64)
    requires
        value <= ROUTING_FEE,
    ensures
        route_spec(s, value, gas_limit) == (s, Err::<RouteStart, ContractError>(ContractError::InsufficientFee)),
{
}

/// An accepted route books exactly one fee and advances the nonce by
/// exactly one, as long as the fee total does not reach the top of `u128`
/// (where it saturates) and the nonce does not wrap.
pub proof fn lemma_route_books_fee_and_nonce(s: RouterState, value: u128, gas_limit: u64)
    requires
        route_spec(s, value, gas_limit).1 is Ok,
        s.fees_collected + ROUTING_FEE <= u128::MAX,
        s.nonce < u64::MAX,
    ensures
        route_spec(s, value, gas_limit).0.fees_collected == s.fees_collected + ROUTING_FEE,
        route_spec(s, value, gas_limit).0.nonce == s.nonce + 1,
        route_spec(s, value, gas_limit).0.owner == s.owner,
{
}

/// A withdrawal by anyone but the owner fails with `NotOwner` and leaves the
/// fees where they were.
pub proof fn lemma_withdraw_by_stranger_rejected(s: RouterState, caller: Seq<u8>)
    requires
        caller != s.owner@,
    ensures
        withdraw_begin_spec(s, caller) == (s, Err::<u128, ContractError>(ContractError::NotOwner)),
        withdraw_begin_spec(s, caller).0.fees_collected == s.fees_collected,
{
}

/// After one withdrawal whose transfer went through, a second withdrawal by
/// the owner fails with `NoFees`: fees cannot be drained twice.
pub proof fn lemma_second_withdraw_finds_no_fees(s: RouterState, transferred_amount: u128)
    requires
        withdraw_begin_spec(s, s.owner@).1 is Ok,
        transferred_amount == withdraw_begin_spec(s, s.owner@).1->Ok_0,
    ensures
        ({
            let s1 = withdraw_begin_spec(s, s.owner@).0;
            let s2 = withdraw_finish_spec(s1, transferred_amount, true).0;
            withdraw_begin_spec(s2, s.owner@) == (s2, Err::<u128, ContractError>(ContractError::NoFees))
        }),
{
}

/// A withdrawal whose transfer fails ends with `WithdrawFailed` and the fees
/// exactly as they were before it began.
pub proof fn lemma_failed_withdraw_restores_fees(s: RouterState, caller: Seq<u8>)
    requires
        withdraw_begin_spec(s, caller).1 is Ok,
    ensures
        ({
            let (s1, r1) = withdraw_begin_spec(s, caller);
            let (s2, r2) = withdraw_finish_spec(s1, r1->Ok_0, false);
            s2 == s && r2 == Err::<u128, ContractError>(ContractError::WithdrawFailed)
        }),
{
}

} // verus!
