use cat_bridge::bridge::{
    bridge_in, bridge_out, BridgeOutContext, BridgeOutParams, PostedMessage,
};
use cat_bridge::cat_struct::CATSOLStructs;
use cat_bridge::config::initialize;
use cat_bridge::config::Config;
use cat_bridge::error::ErrorFactory;
use cat_bridge::foreign_emitter::EmitterRegistry;
use cat_bridge::nft;
use cat_bridge::received::ReceivedLedger;
use cat_bridge::u256::U256;

fn addr(tag: u8) -> [u8; 32] {
    let mut a = [0u8; 32];
    a[0] = tag;
    a
}

fn test_config(max_supply: u64, minted_supply: u64) -> Config {
    let (mut config, _) =
        initialize(&addr(1), max_supply, 0, &addr(2), &addr(3), &addr(4), &addr(5));
    config.minted_supply = minted_supply;
    config
}

fn registry_with(chain: u16, address: [u8; 32]) -> EmitterRegistry {
    let mut registry = EmitterRegistry::new();
    registry.register_emitter(chain, &address).unwrap();
    registry
}

fn out_ctx(decimals: u8) -> BridgeOutContext {
    BridgeOutContext {
        token_address: addr(11),
        token_decimals: decimals,
        user_address: addr(12),
        dest_token_address: addr(13),
    }
}

#[test]
fn simple_outbound_transfer() {
    // amount 1_000_000 at 6 decimals goes out as 100_000_000 at 8 wire
    // decimals; the encoded payload decodes back to the identical struct
    let config = test_config(u64::MAX, 0);
    let registry = registry_with(2, addr(21));
    let params = BridgeOutParams {
        amount: 1_000_000,
        recipient_chain: 2,
        recipient: addr(14),
    };
    let action = bridge_out(&config, &registry, &out_ctx(6), &params).unwrap();
    assert_eq!(action.burn_amount, 1_000_000);
    assert_eq!(action.payload.amount.to_u64(), 100_000_000);
    assert_eq!(action.payload.token_decimals, 6);
    assert_eq!(action.payload.source_token_chain.to_u64(), 1);
    assert_eq!(action.payload.dest_token_chain.to_u64(), 2);
    assert_eq!(action.payload.dest_user_address, addr(14));
    let back = CATSOLStructs::deserialize(&action.encoded_payload).unwrap();
    assert_eq!(
        back,
        CATSOLStructs::CrossChainPayload { payload: action.payload }
    );
}

#[test]
fn outbound_requires_registered_destination() {
    let config = test_config(u64::MAX, 0);
    let registry = EmitterRegistry::new();
    let params = BridgeOutParams { amount: 5, recipient_chain: 2, recipient: addr(14) };
    assert_eq!(
        bridge_out(&config, &registry, &out_ctx(6), &params),
        Err(ErrorFactory::InvalidForeignEmitter)
    );
}

#[test]
fn outbound_normalization_overflow_is_refused() {
    let config = test_config(u64::MAX, 0);
    let registry = registry_with(2, addr(21));
    let params = BridgeOutParams {
        amount: u64::MAX,
        recipient_chain: 2,
        recipient: addr(14),
    };
    // 6 -> 8 decimals multiplies by 100 and overflows
    assert_eq!(
        bridge_out(&config, &registry, &out_ctx(6), &params),
        Err(ErrorFactory::InvalidAmount)
    );
}

/// An inbound message carrying a fungible transfer of `wire_amount` at
/// wire precision from `chain`, destined for `recipient` on this chain.
fn inbound_message(
    chain: u16,
    emitter: [u8; 32],
    sequence: u64,
    wire_amount: u64,
    recipient: [u8; 32],
) -> PostedMessage {
    let payload = cat_bridge::cat_struct::CrossChainStruct {
        amount: U256::from_u64(wire_amount),
        token_decimals: 6,
        source_token_address: addr(31),
        source_user_address: addr(32),
        source_token_chain: U256::from_u64(chain as u64),
        dest_token_address: addr(33),
        dest_user_address: recipient,
        dest_token_chain: U256::from_u64(1),
    };
    PostedMessage {
        emitter_chain: chain,
        emitter_address: emitter,
        sequence,
        batch_id: 0,
        vaa_hash: addr(40),
        payload: CATSOLStructs::CrossChainPayload { payload }.serialize(),
    }
}

#[test]
fn inbound_transfer_credits_once() {
    let mut config = test_config(u64::MAX, 0);
    let registry = registry_with(2, addr(21));
    let mut ledger = ReceivedLedger::new();
    let msg = inbound_message(2, addr(21), 5, 100_000_000, addr(14));
    let action = bridge_in(&mut config, &registry, &mut ledger, &msg, 6, &addr(14)).unwrap();
    // 100_000_000 at 8 wire decimals is 1_000_000 at the token's 6
    assert_eq!(action.credit_amount, 1_000_000);
    assert_eq!(action.credit_account, addr(14));
    assert_eq!(config.minted_supply, 1_000_000);
    assert!(ledger.contains(2, 5));
}

#[test]
fn inbound_replay_attempt() {
    // process (chain=2, seq=5) once; the replay must fail with the replay
    // error and the supply must not grow a second time
    let mut config = test_config(u64::MAX, 0);
    let registry = registry_with(2, addr(21));
    let mut ledger = ReceivedLedger::new();
    let msg = inbound_message(2, addr(21), 5, 100_000_000, addr(14));
    bridge_in(&mut config, &registry, &mut ledger, &msg, 6, &addr(14)).unwrap();
    let minted_after_first = config.minted_supply;
    assert_eq!(
        bridge_in(&mut config, &registry, &mut ledger, &msg, 6, &addr(14)),
        Err(ErrorFactory::AlreadyProcessed)
    );
    assert_eq!(config.minted_supply, minted_after_first);
}

#[test]
fn inbound_unregistered_emitter_rejected() {
    // chain 7 was never registered: the message fails emitter verification
    // before any credit occurs
    let mut config = test_config(u64::MAX, 0);
    let registry = registry_with(2, addr(21));
    let mut ledger = ReceivedLedger::new();
    let msg = inbound_message(7, addr(21), 1, 100, addr(14));
    assert_eq!(
        bridge_in(&mut config, &registry, &mut ledger, &msg, 6, &addr(14)),
        Err(ErrorFactory::InvalidForeignEmitter)
    );
    assert_eq!(config.minted_supply, 0);
    assert!(!ledger.contains(7, 1));
}

#[test]
fn inbound_wrong_emitter_address_rejected() {
    let mut config = test_config(u64::MAX, 0);
    let registry = registry_with(2, addr(21));
    let mut ledger = ReceivedLedger::new();
    let msg = inbound_message(2, addr(99), 1, 100, addr(14));
    assert_eq!(
        bridge_in(&mut config, &registry, &mut ledger, &msg, 6, &addr(14)),
        Err(ErrorFactory::InvalidForeignEmitter)
    );
}

#[test]
fn inbound_supply_cap() {
    // max_supply 100, minted 100: a transfer of normalized amount 1 must
    // fail; after lowering minted to 99 the same transfer reaches the cap
    let registry = registry_with(2, addr(21));
    // wire amount 100 at 8 wire decimals is 1 at 6 token decimals
    let msg = inbound_message(2, addr(21), 5, 100, addr(14));

    let mut config = test_config(100, 100);
    let mut ledger = ReceivedLedger::new();
    assert_eq!(
        bridge_in(&mut config, &registry, &mut ledger, &msg, 6, &addr(14)),
        Err(ErrorFactory::IvalidMintAmount)
    );
    assert_eq!(config.minted_supply, 100);
    assert!(!ledger.contains(2, 5));

    let mut config = test_config(100, 99);
    let mut ledger = ReceivedLedger::new();
    let action = bridge_in(&mut config, &registry, &mut ledger, &msg, 6, &addr(14)).unwrap();
    assert_eq!(action.credit_amount, 1);
    assert_eq!(config.minted_supply, 100);
}

#[test]
fn inbound_wrong_destination_chain_rejected() {
    let mut config = test_config(u64::MAX, 0);
    let registry = registry_with(2, addr(21));
    let mut ledger = ReceivedLedger::new();
    let mut msg = inbound_message(2, addr(21), 5, 100, addr(14));
    // rewrite the destination chain field (last 32 bytes) to chain 9
    let n = msg.payload.len();
    msg.payload[n - 1] = 9;
    assert_eq!(
        bridge_in(&mut config, &registry, &mut ledger, &msg, 6, &addr(14)),
        Err(ErrorFactory::InvalidDestinationChain)
    );
}

#[test]
fn inbound_wrong_recipient_rejected() {
    let mut config = test_config(u64::MAX, 0);
    let registry = registry_with(2, addr(21));
    let mut ledger = ReceivedLedger::new();
    let msg = inbound_message(2, addr(21), 5, 100, addr(14));
    assert_eq!(
        bridge_in(&mut config, &registry, &mut ledger, &msg, 6, &addr(15)),
        Err(ErrorFactory::MisMatchdATAAddress)
    );
}

#[test]
fn inbound_handshake_is_not_a_transfer() {
    let mut config = test_config(u64::MAX, 0);
    let registry = registry_with(2, addr(21));
    let mut ledger = ReceivedLedger::new();
    let msg = PostedMessage {
        emitter_chain: 2,
        emitter_address: addr(21),
        sequence: 5,
        batch_id: 0,
        vaa_hash: addr(40),
        payload: CATSOLStructs::Alive { program_id: addr(5) }.serialize(),
    };
    assert_eq!(
        bridge_in(&mut config, &registry, &mut ledger, &msg, 6, &addr(14)),
        Err(ErrorFactory::InvalidMessage)
    );
}

#[test]
fn inbound_wire_amount_must_fit_u64() {
    let mut config = test_config(u64::MAX, 0);
    let registry = registry_with(2, addr(21));
    let mut ledger = ReceivedLedger::new();
    let mut msg = inbound_message(2, addr(21), 5, 100, addr(14));
    // set a high byte of the 256-bit amount: the value no longer fits
    msg.payload[0] = 1;
    assert_eq!(
        bridge_in(&mut config, &registry, &mut ledger, &msg, 6, &addr(14)),
        Err(ErrorFactory::InvalidAmount)
    );
}

#[test]
fn nft_outbound_and_inbound() {
    let registry = registry_with(2, addr(21));
    let nft_config = nft::create_collection(&addr(1), 10, b"https://cat.test/".to_vec());
    let params = nft::NftBridgeOutParams {
        token_id: 42,
        recipient_chain: 2,
        recipient: addr(14),
    };
    let action = nft::bridge_out(&nft_config, &registry, &addr(12), &params).unwrap();
    assert_eq!(action.burn_token_id, 42);
    assert_eq!(action.payload.uri, b"https://cat.test/42".to_vec());
    assert_eq!(action.payload.token_id.to_u64(), 42);
    assert_eq!(action.payload.token_chain, 1);
    assert_eq!(action.payload.to_chain, 2);

    // feed the encoded payload back in as an inbound message for this chain
    let mut encoded = action.encoded_payload.clone();
    // outbound messages carry the destination chain id; an inbound one
    // must name this chain (1) to be accepted
    let n = encoded.len();
    encoded[n - 2] = 0;
    encoded[n - 1] = 1;
    let msg = PostedMessage {
        emitter_chain: 2,
        emitter_address: addr(21),
        sequence: 9,
        batch_id: 0,
        vaa_hash: addr(41),
        payload: encoded,
    };
    let mut ledger = ReceivedLedger::new();
    let act = nft::bridge_in(&registry, &mut ledger, &msg, &addr(14)).unwrap();
    assert_eq!(act.token_id.to_u64(), 42);
    assert_eq!(act.uri, b"https://cat.test/42".to_vec());
    assert_eq!(act.credit_account, addr(14));
    // replaying the same message fails
    assert_eq!(
        nft::bridge_in(&registry, &mut ledger, &msg, &addr(14)),
        Err(ErrorFactory::AlreadyProcessed)
    );
}

#[test]
fn nft_outbound_requires_registered_destination() {
    let registry = EmitterRegistry::new();
    let nft_config = nft::create_collection(&addr(1), 10, b"u/".to_vec());
    let params = nft::NftBridgeOutParams { token_id: 1, recipient_chain: 2, recipient: addr(14) };
    assert_eq!(
        nft::bridge_out(&nft_config, &registry, &addr(12), &params),
        Err(ErrorFactory::InvalidForeignEmitter)
    );
}

#[test]
fn nft_mint_supply_cap() {
    let mut config = nft::create_collection(&addr(1), 2, b"u/".to_vec());
    assert_eq!(nft::mint_nft(&mut config, &addr(9)), Err(ErrorFactory::OwnerOnly));
    assert_eq!(nft::mint_nft(&mut config, &addr(1)), Ok(()));
    assert_eq!(nft::mint_nft(&mut config, &addr(1)), Ok(()));
    assert_eq!(config.minted_supply, 2);
    // the cap is reachable, one past it is refused
    assert_eq!(
        nft::mint_nft(&mut config, &addr(1)),
        Err(ErrorFactory::IvalidMintAmount)
    );
    assert_eq!(config.minted_supply, 2);
}

#[test]
fn decimal_digit_rendering() {
    let mut out = Vec::new();
    nft::push_decimal_digits(&mut out, 0);
    assert_eq!(out, b"0".to_vec());
    let mut out = Vec::new();
    nft::push_decimal_digits(&mut out, 9_081_726_354);
    assert_eq!(out, b"9081726354".to_vec());
    let mut out = b"id=".to_vec();
    nft::push_decimal_digits(&mut out, u64::MAX);
    assert_eq!(out, b"id=18446744073709551615".to_vec());
}
