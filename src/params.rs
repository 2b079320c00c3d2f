//! Fixed parameters of the relay protocol.

use vstd::prelude::*;

verus! {

/// Type tag stored by a Router instance.
pub const TYPE_ROUTER: u8 = 1;

/// Type tag stored by a Cell instance.
pub const TYPE_CELL: u8 = 2;

/// Fee kept by the Router on every successful route (0.1 of the native unit).
pub const ROUTING_FEE: u128 = 100_000_000_000_000;

/// Number of Cells in every chain, and the largest hop count a Cell holds.
pub const HOP_COUNT: u8 = 12;

/// Gas set aside for deploying one Cell.
pub const DEPLOYMENT_GAS: u64 = 500_000;

/// Gas set aside for the forwarding step of a call.
pub const FORWARD_GAS: u64 = 100_000;

/// Largest gas budget given to one Cell.
pub const MAX_GAS_PER_CELL: u64 = 1_000_000;

/// Selector of the Router's `route` entry.
pub const SELECTOR_ROUTE: u32 = 0x12345678;

/// Selector of the Router's `withdraw` entry.
pub const SELECTOR_WITHDRAW: u32 = 0x3ccfd60b;

} // verus!
