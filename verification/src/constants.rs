//! Protocol constants.

use vstd::prelude::*;

verus! {

/// The messaging network's chain identifier for the host chain. A foreign
/// emitter may never be registered under this id.
pub const CHAIN_ID_SOLANA: u16 = 1;

/// Decimal precision used for amounts while in transit between chains.
pub const WIRE_DECIMALS: u8 = 8;

/// The messaging network's "confirmed" finality level, stored as a plain
/// byte in the config.
pub const FINALITY_CONFIRMED: u8 = 0;

} // verus!
