//! The byte layouts of construction data, call data and storage words.

use vstd::prelude::*;

use crate::address::Address;
use crate::error::ContractError;
use crate::params::{HOP_COUNT, SELECTOR_ROUTE, SELECTOR_WITHDRAW, TYPE_CELL, TYPE_ROUTER};
use crate::word::{encode_le, le_value, pow256};
use crate::cell::clamp_hops;

verus! {

/// What a construction payload asks to become.
#[derive(Debug, Clone, Copy)]
pub enum Deployment {
    Router,
    /// A Cell with its hop count already clamped, and its Router.
    Cell { hops: u8, router: Address },
}

/// Which state machine a deployed instance runs.
#[derive(Debug, Clone, Copy, PartialEq, Eq, Structural)]
pub enum Role {
    Router,
    Cell,
}

/// The Router's two entries.
#[derive(Debug, Clone, Copy, PartialEq, Eq, Structural)]
pub enum RouterEntry {
    Route,
    Withdraw,
}

/// `n` zero bytes.
pub open spec fn zeros(n: nat) -> Seq<u8> {
    Seq::new(n, |i: int| 0u8)
}

/// The 20 bytes of `s` from `start` on.
pub open spec fn address_at(s: Seq<u8>, start: int) -> Seq<u8> {
    s.subrange(start, start + 20)
}

/// The big-endian number in the four bytes `s`.
pub open spec fn be_u32(s: Seq<u8>) -> int {
    s[0] * 0x100_0000 + s[1] * 0x1_0000 + s[2] * 0x100 + s[3]
}

/// Copies 20 bytes of `src` from `start` into an address.
pub fn read_address(src: &[u8; 32], start: usize) -> (r: Address)
    requires
        start + 20 <= 32,
    ensures
        r@ == address_at(src@, start as int),
{
    let mut a: Address = [0u8; 20];
    let mut i: usize = 0;
    while i < 20
        invariant
            i <= 20,
            start + 20 <= 32,
            a@.len() == 20,
            src@.len() == 32,
            forall|j: int| 0 <= j < i ==> a@[j] == src@[start + j],
        decreases 20 - i,
    {
        a[i] = src[start + i];
        i = i + 1;
    }
    assert(a@ =~= address_at(src@, start as int));
    a
}

/// Reads a construction payload: `TYPE_CELL` makes a Cell with the hop
/// count in byte 1 (clamped) and its Router in bytes 2..22; every other tag
/// makes a Router, so a zero-valued default still deploys one.
pub fn parse_deployment(input: &[u8; 32]) -> (r: Deployment)
    ensures
        input@[0] != TYPE_CELL <==> r matches Deployment::Router,
        r matches Deployment::Cell { hops, router } ==> hops == clamp_hops(input@[1] as int)
            && router@ == address_at(input@, 2),
{
    if input[0] == TYPE_CELL {
        let raw: u8 = input[1];
        let hops: u8 = if raw <= HOP_COUNT { raw } else { HOP_COUNT };
        Deployment::Cell { hops, router: read_address(input, 2) }
    } else {
        Deployment::Router
    }
}

/// The state machine that an instance whose stored type tag is `tag` runs.
pub fn role_of(tag: u8) -> (r: Result<Role, ContractError>)
    ensures
        tag == TYPE_ROUTER <==> r == Ok::<Role, ContractError>(Role::Router),
        tag == TYPE_CELL <==> r == Ok::<Role, ContractError>(Role::Cell),
        (tag != TYPE_ROUTER && tag != TYPE_CELL) <==> r == Err::<Role, ContractError>(ContractError::InvalidType),
{
    if tag == TYPE_ROUTER {
        Ok(Role::Router)
    } else if tag == TYPE_CELL {
        Ok(Role::Cell)
    } else {
        Err(ContractError::InvalidType)
    }
}

/// The Router entry named by the big-endian selector in `selector`.
pub fn parse_selector(selector: &[u8; 4]) -> (r: Result<RouterEntry, ContractError>)
    ensures
        be_u32(selector@) == SELECTOR_ROUTE <==> r == Ok::<RouterEntry, ContractError>(RouterEntry::Route),
        be_u32(selector@) == SELECTOR_WITHDRAW <==> r == Ok::<RouterEntry, ContractError>(RouterEntry::Withdraw),
        (be_u32(selector@) != SELECTOR_ROUTE && be_u32(selector@) != SELECTOR_WITHDRAW)
            <==> r == Err::<RouterEntry, ContractError>(ContractError::UnknownSelector),
{
    let v: u32 = (selector[0] as u32) * 0x100_0000 + (selector[1] as u32) * 0x1_0000
        + (selector[2] as u32) * 0x100 + selector[3] as u32;
    if v == SELECTOR_ROUTE {
        Ok(RouterEntry::Route)
    } else if v == SELECTOR_WITHDRAW {
        Ok(RouterEntry::Withdraw)
    } else {
        Err(ContractError::UnknownSelector)
    }
}

/// Appends `src` to `out`.
fn append_bytes(out: &mut Vec<u8>, src: &[u8])
    ensures
        final(out)@ == old(out)@ + src@,
{
    let mut i: usize = 0;
    while i < src.len()
        invariant
            i <= src@.len(),
            out@ == old(out)@ + src@.subrange(0, i as int),
        decreases src@.len() - i,
    {
        out.push(src[i]);
        i = i + 1;
    }
    assert(src@.subrange(0, src@.len() as int) =~= src@);
}

/// Appends `n` zero bytes to `out`.
fn append_zeros(out: &mut Vec<u8>, n: usize)
    ensures
        final(out)@ == old(out)@ + zeros(n as nat),
{
    let mut i: usize = 0;
    while i < n
        invariant
            i <= n,
            out@ =~= old(out)@ + zeros(i as nat),
        decreases n - i,
    {
        out.push(0u8);
        i = i + 1;
    }
}

/// A storage word whose first byte is `b`, the rest zero (type tags, hop counts).
pub fn byte_word(b: u8) -> (r: Vec<u8>)
    ensures
        r@ == seq![b] + zeros(31),
{
    let mut out: Vec<u8> = Vec::new();
    out.push(b);
    append_zeros(&mut out, 31);
    out
}

/// A storage word holding `a` left-aligned, the rest zero.
pub fn address_word(a: &Address) -> (r: Vec<u8>)
    ensures
        r@ == a@ + zeros(12),
{
    let mut out: Vec<u8> = Vec::new();
    append_bytes(&mut out, a);
    append_zeros(&mut out, 12);
    out
}

/// A 32-byte word holding `v` little-endian (storage words, transferred values).
pub fn u128_word(v: u128) -> (r: Vec<u8>)
    ensures
        r@.len() == 32,
        le_value(r@) == v,
{
    proof {
        lemma_u128_fits(32);
    }
    encode_le(v, 32)
}

/// `v` as 16 little-endian bytes: what a withdrawal returns.
pub fn u128_bytes(v: u128) -> (r: Vec<u8>)
    ensures
        r@.len() == 16,
        le_value(r@) == v,
{
    proof {
        lemma_u128_fits(16);
    }
    encode_le(v, 16)
}

proof fn lemma_u128_fits(n: nat)
    requires
        16 <= n,
    ensures
        u128::MAX < pow256(n),
    decreases n,
{
    if n == 16 {
        reveal_with_fuel(pow256, 17);
    } else {
        lemma_u128_fits((n - 1) as nat);
    }
}

} // verus!
