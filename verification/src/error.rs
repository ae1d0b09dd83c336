//! Errors surfaced by the bridge's operations.

use vstd::prelude::*;

verus! {

/// Every way a bridge operation can be refused. Each failure aborts the
/// enclosing operation; none is silently swallowed.
#[derive(Clone, Copy, Debug, PartialEq, Eq, Structural)]
pub enum ErrorFactory {
    /// Specified messaging-network bridge data account is wrong.
    InvalidWormholeConfig,
    /// Specified messaging-network fee collector account is wrong.
    InvalidWormholeFeeCollector,
    /// Specified program emitter account is wrong.
    InvalidWormholeEmitter,
    /// Specified emitter sequence account is wrong.
    InvalidWormholeSequence,
    /// Specified sysvar account is wrong.
    InvalidSysvar,
    /// Only the configured owner is permitted.
    OwnerOnly,
    /// Foreign emitter has a bad chain id or a zero address, or no emitter
    /// is registered for the chain in question.
    InvalidForeignEmitter,
    /// Bump seed not found by the host runtime.
    BumpNotFound,
    /// Message payload has an unexpected kind or is malformed.
    InvalidMessage,
    /// The receiving token account is not initialized or is frozen.
    InvalidATAAccount,
    /// The supplied associated token account is not the one derived for
    /// the payload's destination.
    InvalidATAAddress,
    /// The receiving token account does not match the payload's destination.
    MisMatchdATAAddress,
    /// Decimal conversion of the amount overflowed 64 bits, or the wire
    /// amount does not fit in 64 bits.
    InvalidAmount,
    /// Minting the amount would exceed the configured maximum supply.
    IvalidMintAmount,
    /// The token ledger's mint instruction failed.
    MintToFailed,
    /// The token ledger's burn instruction failed.
    TokenBurnFailed,
    /// The payload's destination chain is not this chain.
    InvalidDestinationChain,
    /// The proposed new owner already owns the config.
    AlreadyOwner,
    /// This (chain, sequence) pair was already consumed; the message is a
    /// replay.
    AlreadyProcessed,
}

} // verus!
