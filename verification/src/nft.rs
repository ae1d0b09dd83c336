//! The collection configuration and transfer orchestrator for
//! non-fungible assets.
//!
//! A collection has a hard size cap and a base URI; each asset's metadata
//! URI is the base followed by the token id in decimal. The outbound flow
//! validates the destination and encodes the payload for the caller to
//! post after burning the asset; the inbound flow decodes an
//! already-verified message, checks destination and emitter, and records
//! the replay key before the caller mints the asset locally.

use vstd::prelude::*;

verus! {

use crate::cat_struct_nft::CATSOLStructs;
use crate::cat_struct_nft::CrossChainStruct;
use crate::cat_struct_nft::spec_serialize;
use crate::cat_struct_nft::read_bytes_range;
use crate::constants::CHAIN_ID_SOLANA;
use crate::constants::FINALITY_CONFIRMED;
use crate::error::ErrorFactory;
use crate::foreign_emitter::EmitterRegistry;
use crate::received::Received;
use crate::received::ReceivedLedger;
use crate::u256::U256;
use crate::utils::bytes32_eq;

/// The ASCII decimal digits of a number, most significant first.
pub open spec fn spec_decimal_digits(n: nat) -> Seq<u8>
    decreases n,
{
    if n < 10 {
        seq![(48 + n) as u8]
    } else {
        spec_decimal_digits(n / 10).push((48 + n % 10) as u8)
    }
}

/// Appends the decimal digits of `n` to the buffer.
pub fn push_decimal_digits(out: &mut Vec<u8>, n: u64)
    ensures
        final(out)@ == old(out)@ + spec_decimal_digits(n as nat),
    decreases n,
{
    if n < 10 {
        out.push(48 + (n as u8));
        proof {
            assert(final(out)@ =~= old(out)@ + spec_decimal_digits(n as nat));
        }
    } else {
        push_decimal_digits(out, n / 10);
        out.push(48 + ((n % 10) as u8));
        proof {
            assert(final(out)@ =~= old(out)@ + spec_decimal_digits(n as nat));
        }
    }
}

/// The collection's configuration singleton.
#[derive(Clone, Debug, PartialEq, Eq)]
pub struct NftConfig {
    /// The one principal permitted to mint and administer the collection.
    pub owner: [u8; 32],
    /// Hard cap on the number of assets in the collection.
    pub max_supply: u64,
    /// Assets minted so far.
    pub minted_supply: u64,
    /// Prefix of every asset's metadata URI.
    pub base_uri: Vec<u8>,
    /// Batch id used when posting messages; zero means no batching.
    pub batch_id: u32,
    /// Finality level requested for posted messages.
    pub finality: u8,
}

/// Builds the collection's configuration: the cap and base URI are fixed
/// and the minted count starts at zero. The collection asset itself is
/// created by the caller in the metadata registry.
pub fn create_collection(owner: &[u8; 32], max_supply: u64, base_uri: Vec<u8>) -> (r: NftConfig)
    ensures
        r.owner == *owner,
        r.max_supply == max_supply,
        r.minted_supply == 0,
        r.base_uri@ == base_uri@,
        r.batch_id == 0,
        r.finality == FINALITY_CONFIRMED,
{
    NftConfig {
        owner: *owner,
        max_supply,
        minted_supply: 0,
        base_uri,
        batch_id: 0,
        finality: FINALITY_CONFIRMED,
    }
}

/// Owner-gated local mint of one asset. Refused exactly when the caller
/// is not the owner or one more asset would push the collection strictly
/// above its cap; the cap itself is reachable.
pub fn mint_nft(config: &mut NftConfig, caller: &[u8; 32]) -> (r: Result<(), ErrorFactory>)
    ensures
        r is Ok <==> (old(config).owner@ == caller@ && old(config).minted_supply + 1 <= old(
            config,
        ).max_supply),
        r is Ok ==> final(config).minted_supply == old(config).minted_supply + 1,
        r is Err ==> final(config).minted_supply == old(config).minted_supply,
        final(config).owner == old(config).owner,
        final(config).max_supply == old(config).max_supply,
        final(config).base_uri@ == old(config).base_uri@,
        final(config).batch_id == old(config).batch_id,
        final(config).finality == old(config).finality,
        old(config).owner@ != caller@ ==> r == Err::<(), ErrorFactory>(ErrorFactory::OwnerOnly),
        old(config).owner@ == caller@ && old(config).minted_supply + 1 > old(
            config,
        ).max_supply ==> r == Err::<(), ErrorFactory>(ErrorFactory::IvalidMintAmount),
{
    if !bytes32_eq(&config.owner, caller) {
        return Err(ErrorFactory::OwnerOnly);
    }
    if config.minted_supply >= config.max_supply {
        return Err(ErrorFactory::IvalidMintAmount);
    }
    config.minted_supply = config.minted_supply + 1;
    Ok(())
}

/// What the caller asks of an outbound asset transfer.
#[derive(Clone, Copy, Debug, PartialEq, Eq)]
pub struct NftBridgeOutParams {
    /// Identity of the asset within the collection.
    pub token_id: u64,
    /// Chain id the transfer is destined for.
    pub recipient_chain: u16,
    /// Receiving user on the destination chain.
    pub recipient: [u8; 32],
}

/// Everything the caller must perform to complete an outbound asset
/// transfer: burn the asset, then post `encoded_payload`.
#[derive(Clone, Debug, PartialEq, Eq)]
pub struct NftBridgeOutAction {
    /// The asset to burn.
    pub burn_token_id: u64,
    /// The payload that was encoded.
    pub payload: CrossChainStruct,
    /// The bytes to post.
    pub encoded_payload: Vec<u8>,
    /// Batch id to post with.
    pub batch_id: u32,
    /// Finality level to request.
    pub finality: u8,
}

/// Outbound asset transfer: validates that an emitter is registered for
/// the destination chain and builds and encodes the payload, with the
/// asset's URI derived from the collection's base URI and the token id.
/// Nothing is burned or posted here.
pub fn bridge_out(
    config: &NftConfig,
    emitters: &EmitterRegistry,
    user: &[u8; 32],
    params: &NftBridgeOutParams,
) -> (r: Result<NftBridgeOutAction, ErrorFactory>)
    requires
        emitters.wf(),
    ensures
        r is Ok <==> emitters@.contains_key(params.recipient_chain),
        r matches Ok(a) ==> {
            &&& a.burn_token_id == params.token_id
            &&& a.payload.token_address == *user
            &&& a.payload.token_chain == CHAIN_ID_SOLANA
            &&& a.payload.token_id.value() == params.token_id
            &&& a.payload.uri@ == config.base_uri@ + spec_decimal_digits(params.token_id as nat)
            &&& a.payload.to_address == params.recipient
            &&& a.payload.to_chain == params.recipient_chain
            &&& a.encoded_payload@ == spec_serialize(
                CATSOLStructs::CrossChainPayload { payload: a.payload },
            )
            &&& a.batch_id == config.batch_id
            &&& a.finality == config.finality
        },
        r is Err ==> r == Err::<NftBridgeOutAction, ErrorFactory>(
            ErrorFactory::InvalidForeignEmitter,
        ),
{
    if !emitters.has_chain(params.recipient_chain) {
        return Err(ErrorFactory::InvalidForeignEmitter);
    }
    let mut uri = read_bytes_range(&config.base_uri, 0, config.base_uri.len());
    proof {
        assert(config.base_uri@.subrange(0, config.base_uri@.len() as int)
            =~= config.base_uri@);
    }
    push_decimal_digits(&mut uri, params.token_id);
    let payload = CrossChainStruct {
        token_address: *user,
        token_chain: CHAIN_ID_SOLANA,
        token_id: U256::from_u64(params.token_id),
        uri,
        to_address: params.recipient,
        to_chain: params.recipient_chain,
    };
    let encoded_payload = payload.serialize_payload();
    Ok(
        NftBridgeOutAction {
            burn_token_id: params.token_id,
            payload,
            encoded_payload,
            batch_id: config.batch_id,
            finality: config.finality,
        },
    )
}

/// True when a buffer of the non-fungible channel is read as a transfer.
pub open spec fn spec_nft_is_transfer(b: Seq<u8>) -> bool {
    b.len() != 32 && b.len() >= 100
}

/// The destination chain id an asset-transfer buffer carries.
pub open spec fn spec_nft_to_chain(b: Seq<u8>) -> int {
    b[b.len() - 2] * 256 + b[b.len() - 1]
}

/// The destination user address an asset-transfer buffer carries.
pub open spec fn spec_nft_to_address(b: Seq<u8>) -> Seq<u8> {
    b.subrange(b.len() - 34, b.len() - 2)
}

/// The URI bytes an asset-transfer buffer carries.
pub open spec fn spec_nft_uri(b: Seq<u8>) -> Seq<u8> {
    b.subrange(66, b.len() - 34)
}

/// The 256-bit token id field of an asset-transfer buffer.
pub open spec fn spec_nft_token_id(b: Seq<u8>) -> Seq<u8> {
    b.subrange(34, 66)
}

/// When an inbound asset message is accepted: it is a transfer, destined
/// for this chain and the given receiving account, its emitter is the
/// registered one, and its replay key is fresh.
pub open spec fn spec_nft_inbound_accepted(
    b: Seq<u8>,
    emitters: Map<u16, Seq<u8>>,
    ledger: Map<(u16, u64), Received>,
    emitter_chain: u16,
    emitter_address: Seq<u8>,
    sequence: u64,
    recipient: Seq<u8>,
) -> bool {
    &&& spec_nft_is_transfer(b)
    &&& spec_nft_to_chain(b) == CHAIN_ID_SOLANA
    &&& spec_nft_to_address(b) == recipient
    &&& emitters.contains_key(emitter_chain)
    &&& emitters[emitter_chain] == emitter_address
    &&& !ledger.contains_key((emitter_chain, sequence))
}

/// What the caller must perform to complete an inbound asset transfer:
/// mint the asset with this URI into the receiving account and attach it
/// to the collection.
#[derive(Clone, Debug, PartialEq, Eq)]
pub struct NftBridgeInAction {
    /// Identity of the asset to mint.
    pub token_id: U256,
    /// Metadata URI of the asset.
    pub uri: Vec<u8>,
    /// The account to credit.
    pub credit_account: [u8; 32],
}

/// Inbound asset transfer: decodes an already-verified message and walks
/// the acceptance checks in order, each failure naming its reason; on
/// success the replay key is recorded, as the final step.
pub fn bridge_in(
    emitters: &EmitterRegistry,
    ledger: &mut ReceivedLedger,
    msg: &crate::bridge::PostedMessage,
    recipient_token_account: &[u8; 32],
) -> (r: Result<NftBridgeInAction, ErrorFactory>)
    requires
        emitters.wf(),
        old(ledger).wf(),
    ensures
        final(ledger).wf(),
        r is Ok <==> spec_nft_inbound_accepted(
            msg.payload@,
            emitters@,
            old(ledger)@,
            msg.emitter_chain,
            msg.emitter_address@,
            msg.sequence,
            recipient_token_account@,
        ),
        r matches Ok(a) ==> {
            &&& a.token_id.bytes@ == spec_nft_token_id(msg.payload@)
            &&& a.uri@ == spec_nft_uri(msg.payload@)
            &&& a.credit_account == *recipient_token_account
            &&& final(ledger)@ == old(ledger)@.insert(
                (msg.emitter_chain, msg.sequence),
                final(ledger)@[(msg.emitter_chain, msg.sequence)],
            )
            &&& final(ledger)@[(msg.emitter_chain, msg.sequence)].batch_id == msg.batch_id
            &&& final(ledger)@[(msg.emitter_chain, msg.sequence)].wormhole_message_hash
                == msg.vaa_hash
            &&& final(ledger)@[(msg.emitter_chain, msg.sequence)].payload@ == msg.payload@
        },
        r is Err ==> final(ledger)@ == old(ledger)@,
        !spec_nft_is_transfer(msg.payload@) ==> r == Err::<NftBridgeInAction, ErrorFactory>(
            ErrorFactory::InvalidMessage,
        ),
        spec_nft_is_transfer(msg.payload@) && spec_nft_to_chain(msg.payload@)
            != CHAIN_ID_SOLANA ==> r == Err::<NftBridgeInAction, ErrorFactory>(
            ErrorFactory::InvalidDestinationChain,
        ),
        spec_nft_is_transfer(msg.payload@) && spec_nft_to_chain(msg.payload@)
            == CHAIN_ID_SOLANA && spec_nft_to_address(msg.payload@)
            != recipient_token_account@ ==> r == Err::<NftBridgeInAction, ErrorFactory>(
            ErrorFactory::MisMatchdATAAddress,
        ),
        spec_nft_is_transfer(msg.payload@) && spec_nft_to_chain(msg.payload@)
            == CHAIN_ID_SOLANA && spec_nft_to_address(msg.payload@)
            == recipient_token_account@ && !(emitters@.contains_key(msg.emitter_chain)
            && emitters@[msg.emitter_chain] == msg.emitter_address@) ==> r == Err::<
            NftBridgeInAction,
            ErrorFactory,
        >(ErrorFactory::InvalidForeignEmitter),
        spec_nft_is_transfer(msg.payload@) && spec_nft_to_chain(msg.payload@)
            == CHAIN_ID_SOLANA && spec_nft_to_address(msg.payload@)
            == recipient_token_account@ && emitters@.contains_key(msg.emitter_chain)
            && emitters@[msg.emitter_chain] == msg.emitter_address@ && old(
            ledger,
        )@.contains_key((msg.emitter_chain, msg.sequence)) ==> r == Err::<
            NftBridgeInAction,
            ErrorFactory,
        >(ErrorFactory::AlreadyProcessed),
{
    let decoded = match CATSOLStructs::deserialize(&msg.payload) {
        Ok(CATSOLStructs::CrossChainPayload { payload }) => payload,
        _ => {
            return Err(ErrorFactory::InvalidMessage);
        },
    };
    if decoded.to_chain != CHAIN_ID_SOLANA {
        return Err(ErrorFactory::InvalidDestinationChain);
    }
    if !bytes32_eq(&decoded.to_address, recipient_token_account) {
        return Err(ErrorFactory::MisMatchdATAAddress);
    }
    if !emitters.verify(msg.emitter_chain, &msg.emitter_address) {
        return Err(ErrorFactory::InvalidForeignEmitter);
    }
    if ledger.contains(msg.emitter_chain, msg.sequence) {
        return Err(ErrorFactory::AlreadyProcessed);
    }
    let raw = read_bytes_range(&msg.payload, 0, msg.payload.len());
    proof {
        assert(msg.payload@.subrange(0, msg.payload@.len() as int) =~= msg.payload@);
    }
    let received = Received {
        batch_id: msg.batch_id,
        wormhole_message_hash: msg.vaa_hash,
        payload: raw,
    };
    match ledger.record(msg.emitter_chain, msg.sequence, received) {
        Ok(()) => Ok(
            NftBridgeInAction {
                token_id: decoded.token_id,
                uri: decoded.uri,
                credit_account: *recipient_token_account,
            },
        ),
        Err(e) => Err(e),
    }
}

} // verus!
