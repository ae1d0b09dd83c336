//! The per-direction transfer orchestrator for fungible tokens.
//!
//! Each flow is a short linear state machine with no persisted
//! intermediate state. The outbound flow validates the destination,
//! normalizes the amount to wire precision and encodes the payload; the
//! caller then debits the sender and posts the bytes to the messaging
//! network. The inbound flow decodes an already-verified message, checks
//! destination, emitter authorization, amount and supply cap, and records
//! the replay key; the caller then credits the receiving account. Either
//! every step succeeds and the state advances, or the first failing step
//! reports its error and nothing changes.

use vstd::prelude::*;

verus! {

use crate::cat_struct::CATSOLStructs;
use crate::cat_struct::CrossChainStruct;
use crate::cat_struct::spec_serialize;
use crate::cat_struct::spec_is_transfer;
use crate::cat_struct::spec_transfer_amount;
use crate::cat_struct::spec_transfer_dest_chain;
use crate::cat_struct::spec_transfer_dest_user;
use crate::cat_struct_nft::read_bytes_range;
use crate::config::Config;
use crate::constants::CHAIN_ID_SOLANA;
use crate::constants::WIRE_DECIMALS;
use crate::error::ErrorFactory;
use crate::foreign_emitter::EmitterRegistry;
use crate::received::Received;
use crate::received::ReceivedLedger;
use crate::u256::U256;
use crate::u256::lemma_be_bytes_value_injective;
use crate::utils::bytes32_eq;
use crate::utils::normalize_amount;
use crate::utils::spec_normalize;

/// What the caller asks of an outbound transfer.
#[derive(Clone, Copy, Debug, PartialEq, Eq)]
pub struct BridgeOutParams {
    /// Amount to send, in the local token's native precision.
    pub amount: u64,
    /// Chain id the transfer is destined for.
    pub recipient_chain: u16,
    /// Receiving user on the destination chain.
    pub recipient: [u8; 32],
}

/// Local facts about the token being sent, supplied by the caller from
/// the token ledger.
#[derive(Clone, Copy, Debug, PartialEq, Eq)]
pub struct BridgeOutContext {
    /// The sender's token account on this chain.
    pub token_address: [u8; 32],
    /// Native decimal precision of the token.
    pub token_decimals: u8,
    /// The sending user on this chain.
    pub user_address: [u8; 32],
    /// The token's address on the destination chain.
    pub dest_token_address: [u8; 32],
}

/// Everything the caller must perform to complete an outbound transfer:
/// debit `burn_amount` from the sender, then post `encoded_payload` with
/// the given batch id and finality to the messaging network.
#[derive(Clone, Debug, PartialEq, Eq)]
pub struct BridgeOutAction {
    /// Amount to burn or lock, in native precision.
    pub burn_amount: u64,
    /// The payload that was encoded.
    pub payload: CrossChainStruct,
    /// The bytes to post.
    pub encoded_payload: Vec<u8>,
    /// Batch id to post with.
    pub batch_id: u32,
    /// Finality level to request.
    pub finality: u8,
}

/// An inbound message as handed over by the messaging network after it
/// has verified signatures and finality.
#[derive(Clone, Debug, PartialEq, Eq)]
pub struct PostedMessage {
    /// Chain id the message originates from.
    pub emitter_chain: u16,
    /// Sender address on the origin chain.
    pub emitter_address: [u8; 32],
    /// The emitter's sequence number for this message.
    pub sequence: u64,
    /// Batch id the message was posted with.
    pub batch_id: u32,
    /// Keccak256 hash identifying the verified message.
    pub vaa_hash: [u8; 32],
    /// The raw payload bytes.
    pub payload: Vec<u8>,
}

/// What the caller must perform to complete an inbound transfer: credit
/// `credit_amount` to `credit_account`.
#[derive(Clone, Copy, Debug, PartialEq, Eq)]
pub struct BridgeInAction {
    /// Amount to mint or release, in the local token's native precision.
    pub credit_amount: u64,
    /// The account to credit.
    pub credit_account: [u8; 32],
}

/// The amount an inbound transfer buffer credits at the local token's
/// precision: the wire amount, if it fits in 64 bits, normalized from
/// wire precision.
pub open spec fn spec_inbound_amount(b: Seq<u8>, token_decimals: u8) -> Option<u64> {
    if spec_transfer_amount(b) <= u64::MAX {
        spec_normalize(spec_transfer_amount(b) as u64, WIRE_DECIMALS, token_decimals)
    } else {
        None
    }
}

/// When an inbound message is accepted: it is a transfer, destined for
/// this chain and for the given receiving account, its emitter is the
/// registered one, its amount converts to local precision and stays
/// within the supply cap, and its replay key is fresh.
pub open spec fn spec_inbound_accepted(
    b: Seq<u8>,
    emitters: Map<u16, Seq<u8>>,
    ledger: Map<(u16, u64), Received>,
    config: Config,
    emitter_chain: u16,
    emitter_address: Seq<u8>,
    sequence: u64,
    token_decimals: u8,
    recipient: Seq<u8>,
) -> bool {
    &&& spec_is_transfer(b)
    &&& spec_transfer_dest_chain(b) == CHAIN_ID_SOLANA
    &&& spec_transfer_dest_user(b) == recipient
    &&& emitters.contains_key(emitter_chain)
    &&& emitters[emitter_chain] == emitter_address
    &&& spec_inbound_amount(b, token_decimals) matches Some(n)
    &&& config.minted_supply + n <= config.max_supply
    &&& !ledger.contains_key((emitter_chain, sequence))
}

/// Outbound transfer: validates that an emitter is registered for the
/// destination chain, normalizes the amount from the token's native
/// precision to wire precision, and builds and encodes the payload.
/// Succeeds exactly when the destination has an emitter and the amount
/// conversion does not overflow; nothing is debited or posted here.
pub fn bridge_out(
    config: &Config,
    emitters: &EmitterRegistry,
    ctx: &BridgeOutContext,
    params: &BridgeOutParams,
) -> (r: Result<BridgeOutAction, ErrorFactory>)
    requires
        emitters.wf(),
    ensures
        r is Ok <==> (emitters@.contains_key(params.recipient_chain) && spec_normalize(
            params.amount,
            ctx.token_decimals,
            WIRE_DECIMALS,
        ) is Some),
        r matches Ok(a) ==> {
            &&& a.burn_amount == params.amount
            &&& a.payload.amount.value() == spec_normalize(
                params.amount,
                ctx.token_decimals,
                WIRE_DECIMALS,
            )->Some_0
            &&& a.payload.token_decimals == ctx.token_decimals
            &&& a.payload.source_token_address == ctx.token_address
            &&& a.payload.source_user_address == ctx.user_address
            &&& a.payload.source_token_chain.value() == CHAIN_ID_SOLANA
            &&& a.payload.dest_token_address == ctx.dest_token_address
            &&& a.payload.dest_user_address == params.recipient
            &&& a.payload.dest_token_chain.value() == params.recipient_chain
            &&& a.encoded_payload@ == spec_serialize(
                CATSOLStructs::CrossChainPayload { payload: a.payload },
            )
            &&& a.encoded_payload@.len() == 225
            &&& a.batch_id == config.batch_id
            &&& a.finality == config.finality
        },
        !emitters@.contains_key(params.recipient_chain) ==> r == Err::<
            BridgeOutAction,
            ErrorFactory,
        >(ErrorFactory::InvalidForeignEmitter),
        emitters@.contains_key(params.recipient_chain) && spec_normalize(
            params.amount,
            ctx.token_decimals,
            WIRE_DECIMALS,
        ) is None ==> r == Err::<BridgeOutAction, ErrorFactory>(ErrorFactory::InvalidAmount),
{
    if !emitters.has_chain(params.recipient_chain) {
        return Err(ErrorFactory::InvalidForeignEmitter);
    }
    let normalized = match normalize_amount(params.amount, ctx.token_decimals, WIRE_DECIMALS) {
        Some(n) => n,
        None => {
            return Err(ErrorFactory::InvalidAmount);
        },
    };
    let payload = CrossChainStruct {
        amount: U256::from_u64(normalized),
        token_decimals: ctx.token_decimals,
        source_token_address: ctx.token_address,
        source_user_address: ctx.user_address,
        source_token_chain: U256::from_u64(CHAIN_ID_SOLANA as u64),
        dest_token_address: ctx.dest_token_address,
        dest_user_address: params.recipient,
        dest_token_chain: U256::from_u64(params.recipient_chain as u64),
    };
    let message = CATSOLStructs::CrossChainPayload { payload };
    let encoded_payload = message.serialize();
    Ok(
        BridgeOutAction {
            burn_amount: params.amount,
            payload,
            encoded_payload,
            batch_id: config.batch_id,
            finality: config.finality,
        },
    )
}

/// Inbound transfer: decodes an already-verified message and walks the
/// acceptance checks in order, each failure naming its reason; on success
/// the minted supply grows by the credited amount and the replay key is
/// recorded, as one atomic step from the caller's point of view. The
/// replay record is created last, so a message is never consumed without
/// its credit being owed.
pub fn bridge_in(
    config: &mut Config,
    emitters: &EmitterRegistry,
    ledger: &mut ReceivedLedger,
    msg: &PostedMessage,
    token_decimals: u8,
    recipient_token_account: &[u8; 32],
) -> (r: Result<BridgeInAction, ErrorFactory>)
    requires
        emitters.wf(),
        old(ledger).wf(),
    ensures
        final(ledger).wf(),
        r is Ok <==> spec_inbound_accepted(
            msg.payload@,
            emitters@,
            old(ledger)@,
            *old(config),
            msg.emitter_chain,
            msg.emitter_address@,
            msg.sequence,
            token_decimals,
            recipient_token_account@,
        ),
        r matches Ok(a) ==> {
            &&& Some(a.credit_amount) == spec_inbound_amount(msg.payload@, token_decimals)
            &&& a.credit_account == *recipient_token_account
            &&& *final(config) == (Config {
                minted_supply: (old(config).minted_supply + a.credit_amount) as u64,
                ..*old(config)
            })
            &&& final(ledger)@ == old(ledger)@.insert(
                (msg.emitter_chain, msg.sequence),
                final(ledger)@[(msg.emitter_chain, msg.sequence)],
            )
            &&& final(ledger)@[(msg.emitter_chain, msg.sequence)].batch_id == msg.batch_id
            &&& final(ledger)@[(msg.emitter_chain, msg.sequence)].wormhole_message_hash
                == msg.vaa_hash
            &&& final(ledger)@[(msg.emitter_chain, msg.sequence)].payload@ == msg.payload@
        },
        r is Err ==> *final(config) == *old(config) && final(ledger)@ == old(ledger)@,
        !spec_is_transfer(msg.payload@) ==> r == Err::<BridgeInAction, ErrorFactory>(
            ErrorFactory::InvalidMessage,
        ),
        spec_is_transfer(msg.payload@) && spec_transfer_dest_chain(msg.payload@)
            != CHAIN_ID_SOLANA ==> r == Err::<BridgeInAction, ErrorFactory>(
            ErrorFactory::InvalidDestinationChain,
        ),
        spec_is_transfer(msg.payload@) && spec_transfer_dest_chain(msg.payload@)
            == CHAIN_ID_SOLANA && spec_transfer_dest_user(msg.payload@)
            != recipient_token_account@ ==> r == Err::<BridgeInAction, ErrorFactory>(
            ErrorFactory::MisMatchdATAAddress,
        ),
        spec_is_transfer(msg.payload@) && spec_transfer_dest_chain(msg.payload@)
            == CHAIN_ID_SOLANA && spec_transfer_dest_user(msg.payload@)
            == recipient_token_account@ && !(emitters@.contains_key(msg.emitter_chain)
            && emitters@[msg.emitter_chain] == msg.emitter_address@) ==> r == Err::<
            BridgeInAction,
            ErrorFactory,
        >(ErrorFactory::InvalidForeignEmitter),
        spec_is_transfer(msg.payload@) && spec_transfer_dest_chain(msg.payload@)
            == CHAIN_ID_SOLANA && spec_transfer_dest_user(msg.payload@)
            == recipient_token_account@ && emitters@.contains_key(msg.emitter_chain)
            && emitters@[msg.emitter_chain] == msg.emitter_address@ && spec_inbound_amount(
            msg.payload@,
            token_decimals,
        ) is None ==> r == Err::<BridgeInAction, ErrorFactory>(ErrorFactory::InvalidAmount),
        spec_is_transfer(msg.payload@) && spec_transfer_dest_chain(msg.payload@)
            == CHAIN_ID_SOLANA && spec_transfer_dest_user(msg.payload@)
            == recipient_token_account@ && emitters@.contains_key(msg.emitter_chain)
            && emitters@[msg.emitter_chain] == msg.emitter_address@ && (spec_inbound_amount(
            msg.payload@,
            token_decimals,
        ) matches Some(n) && old(config).minted_supply + n > old(config).max_supply) ==> r
            == Err::<BridgeInAction, ErrorFactory>(ErrorFactory::IvalidMintAmount),
        spec_is_transfer(msg.payload@) && spec_transfer_dest_chain(msg.payload@)
            == CHAIN_ID_SOLANA && spec_transfer_dest_user(msg.payload@)
            == recipient_token_account@ && emitters@.contains_key(msg.emitter_chain)
            && emitters@[msg.emitter_chain] == msg.emitter_address@ && (spec_inbound_amount(
            msg.payload@,
            token_decimals,
        ) matches Some(n) && old(config).minted_supply + n <= old(config).max_supply) && old(
            ledger,
        )@.contains_key((msg.emitter_chain, msg.sequence)) ==> r == Err::<
            BridgeInAction,
            ErrorFactory,
        >(ErrorFactory::AlreadyProcessed),
{
    let decoded = match CATSOLStructs::deserialize(&msg.payload) {
        Ok(CATSOLStructs::CrossChainPayload { payload }) => payload,
        _ => {
            return Err(ErrorFactory::InvalidMessage);
        },
    };
    let canonical_chain = U256::from_u64(CHAIN_ID_SOLANA as u64);
    if !decoded.dest_token_chain.eq_bytes(&canonical_chain) {
        proof {
            if spec_transfer_dest_chain(msg.payload@) == CHAIN_ID_SOLANA {
                lemma_be_bytes_value_injective(
                    decoded.dest_token_chain.bytes@,
                    canonical_chain.bytes@,
                );
            }
        }
        return Err(ErrorFactory::InvalidDestinationChain);
    }
    if !bytes32_eq(&decoded.dest_user_address, recipient_token_account) {
        return Err(ErrorFactory::MisMatchdATAAddress);
    }
    if !emitters.verify(msg.emitter_chain, &msg.emitter_address) {
        return Err(ErrorFactory::InvalidForeignEmitter);
    }
    let amount_u64 = match decoded.amount.checked_to_u64() {
        Some(a) => a,
        None => {
            return Err(ErrorFactory::InvalidAmount);
        },
    };
    let credit_amount = match normalize_amount(amount_u64, WIRE_DECIMALS, token_decimals) {
        Some(n) => n,
        None => {
            return Err(ErrorFactory::InvalidAmount);
        },
    };
    if config.minted_supply > config.max_supply || credit_amount > config.max_supply
        - config.minted_supply {
        return Err(ErrorFactory::IvalidMintAmount);
    }
    if ledger.contains(msg.emitter_chain, msg.sequence) {
        return Err(ErrorFactory::AlreadyProcessed);
    }
    let raw = read_bytes_range(&msg.payload, 0, msg.payload.len());
    proof {
        assert(msg.payload@.subrange(0, msg.payload@.len() as int) =~= msg.payload@);
    }
    let received = Received {
        batch_id: msg.batch_id,
        wormhole_message_hash: msg.vaa_hash,
        payload: raw,
    };
    config.minted_supply = config.minted_supply + credit_amount;
    match ledger.record(msg.emitter_chain, msg.sequence, received) {
        Ok(()) => Ok(
            BridgeInAction { credit_amount, credit_account: *recipient_token_account },
        ),
        Err(e) => Err(e),
    }
}

} // verus!
