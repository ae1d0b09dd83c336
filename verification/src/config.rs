//! The bridge's configuration record and its owner-gated operations.
//!
//! A single persistent record holds the owner, the supply cap, the running
//! minted supply, and the messaging-network accounts the deployment was
//! wired to. Only the owner may register emitters, mint beyond transfers,
//! or hand ownership on.

use vstd::prelude::*;

verus! {

use crate::cat_struct::CATSOLStructs;
use crate::cat_struct::spec_serialize;
use crate::constants::FINALITY_CONFIRMED;
use crate::error::ErrorFactory;
use crate::utils::bytes32_eq;

/// The process-wide configuration singleton.
#[derive(Clone, Copy, Debug, PartialEq, Eq)]
pub struct Config {
    /// The one principal permitted to perform gated operations.
    pub owner: [u8; 32],
    /// Hard cap on the token's total minted supply.
    pub max_supply: u64,
    /// Supply minted so far; never exceeds `max_supply` after a gated mint.
    pub minted_supply: u64,
    /// Batch id used when posting messages; zero means no batching.
    pub batch_id: u32,
    /// Finality level requested for posted messages.
    pub finality: u8,
    /// The messaging network's bridge data account.
    pub wormhole_bridge: [u8; 32],
    /// The messaging network's fee collector account.
    pub wormhole_fee_collector: [u8; 32],
    /// The emitter's sequence tracker account.
    pub wormhole_sequence: [u8; 32],
}

/// Builds the configuration at deployment and the one-shot liveness
/// handshake announcing this program to the remote side. The caller posts
/// the returned 32-byte payload to the messaging network, which also
/// starts the sequence tracker.
pub fn initialize(
    owner: &[u8; 32],
    max_supply: u64,
    current_supply: u64,
    wormhole_bridge: &[u8; 32],
    wormhole_fee_collector: &[u8; 32],
    wormhole_sequence: &[u8; 32],
    program_id: &[u8; 32],
) -> (r: (Config, Vec<u8>))
    ensures
        r.0 == (Config {
            owner: *owner,
            max_supply,
            minted_supply: current_supply,
            batch_id: 0,
            finality: FINALITY_CONFIRMED,
            wormhole_bridge: *wormhole_bridge,
            wormhole_fee_collector: *wormhole_fee_collector,
            wormhole_sequence: *wormhole_sequence,
        }),
        r.1@ == spec_serialize(CATSOLStructs::Alive { program_id: *program_id }),
        r.1@.len() == 32,
{
    let config = Config {
        owner: *owner,
        max_supply,
        minted_supply: current_supply,
        batch_id: 0,
        finality: FINALITY_CONFIRMED,
        wormhole_bridge: *wormhole_bridge,
        wormhole_fee_collector: *wormhole_fee_collector,
        wormhole_sequence: *wormhole_sequence,
    };
    let alive = CATSOLStructs::Alive { program_id: *program_id };
    let payload = alive.serialize();
    (config, payload)
}

/// Hands ownership to `new_owner`. Only the current owner may call this,
/// and handing ownership to the current owner is refused.
pub fn transfer_ownership(config: &mut Config, caller: &[u8; 32], new_owner: &[u8; 32]) -> (r:
    Result<(), ErrorFactory>)
    ensures
        r is Ok <==> (old(config).owner@ == caller@ && new_owner@ != old(config).owner@),
        r is Ok ==> *final(config) == (Config { owner: *new_owner, ..*old(config) }),
        r is Err ==> *final(config) == *old(config),
        old(config).owner@ != caller@ ==> r == Err::<(), ErrorFactory>(ErrorFactory::OwnerOnly),
        old(config).owner@ == caller@ && new_owner@ == old(config).owner@ ==> r == Err::<
            (),
            ErrorFactory,
        >(ErrorFactory::AlreadyOwner),
{
    if !bytes32_eq(&config.owner, caller) {
        return Err(ErrorFactory::OwnerOnly);
    }
    if bytes32_eq(&config.owner, new_owner) {
        return Err(ErrorFactory::AlreadyOwner);
    }
    config.owner = *new_owner;
    Ok(())
}

/// Owner-gated mint beyond transfers. The supply cap is enforced with the
/// cap itself reachable: minting is refused exactly when it would push the
/// minted supply strictly above `max_supply`. On success the minted supply
/// grows by `amount`; nothing changes on failure.
pub fn mint_tokens(config: &mut Config, caller: &[u8; 32], amount: u64) -> (r: Result<
    (),
    ErrorFactory,
>)
    ensures
        r is Ok <==> (old(config).owner@ == caller@ && old(config).minted_supply + amount <= old(
            config,
        ).max_supply),
        r is Ok ==> *final(config) == (Config {
            minted_supply: (old(config).minted_supply + amount) as u64,
            ..*old(config)
        }),
        r is Err ==> *final(config) == *old(config),
        old(config).owner@ != caller@ ==> r == Err::<(), ErrorFactory>(ErrorFactory::OwnerOnly),
        old(config).owner@ == caller@ && old(config).minted_supply + amount > old(
            config,
        ).max_supply ==> r == Err::<(), ErrorFactory>(ErrorFactory::IvalidMintAmount),
{
    if !bytes32_eq(&config.owner, caller) {
        return Err(ErrorFactory::OwnerOnly);
    }
    if config.minted_supply > config.max_supply {
        return Err(ErrorFactory::IvalidMintAmount);
    }
    if amount > config.max_supply - config.minted_supply {
        return Err(ErrorFactory::IvalidMintAmount);
    }
    config.minted_supply = config.minted_supply + amount;
    Ok(())
}

} // verus!
