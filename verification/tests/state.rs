use cat_bridge::config::{initialize, mint_tokens, transfer_ownership};
use cat_bridge::error::ErrorFactory;
use cat_bridge::foreign_emitter::{EmitterRegistry, ForeignEmitter, ForeignEmitterCollection};
use cat_bridge::received::{Received, ReceivedLedger, MESSAGE_MAX_LENGTH};
use std::mem::size_of;

fn addr(tag: u8) -> [u8; 32] {
    let mut a = [0u8; 32];
    a[0] = tag;
    a
}

#[test]
fn test_received() {
    assert_eq!(
        Received::MAXIMUM_SIZE,
        size_of::<u64>()
            + size_of::<u32>()
            + size_of::<[u8; 32]>()
            + size_of::<u32>()
            + MESSAGE_MAX_LENGTH
    );
}

fn received(hash: [u8; 32]) -> Received {
    Received {
        batch_id: 0,
        wormhole_message_hash: hash,
        payload: vec![1, 2, 3],
    }
}

#[test]
fn replay_idempotence() {
    // the second record with the same (chain, sequence) fails even with a
    // different hash, and the first stays untouched
    let mut ledger = ReceivedLedger::new();
    assert_eq!(ledger.record(2, 5, received(addr(1))), Ok(()));
    assert_eq!(
        ledger.record(2, 5, received(addr(2))),
        Err(ErrorFactory::AlreadyProcessed)
    );
    assert!(ledger.contains(2, 5));
    // other keys stay independent
    assert!(!ledger.contains(2, 6));
    assert!(!ledger.contains(3, 5));
    assert_eq!(ledger.record(2, 6, received(addr(3))), Ok(()));
    assert_eq!(ledger.record(3, 5, received(addr(4))), Ok(()));
}

#[test]
fn emitter_gating() {
    let mut registry = EmitterRegistry::new();
    let a1 = addr(10);
    let a2 = addr(20);
    // nothing verifies before registration
    assert!(!registry.verify(7, &a1));
    assert_eq!(registry.register_emitter(7, &a1), Ok(()));
    assert!(registry.verify(7, &a1));
    assert!(!registry.verify(7, &a2));
    assert!(!registry.verify(8, &a1));
    // re-registering overwrites: the old address stops verifying
    assert_eq!(registry.register_emitter(7, &a2), Ok(()));
    assert!(registry.verify(7, &a2));
    assert!(!registry.verify(7, &a1));
}

#[test]
fn emitter_registration_rejects_bad_input() {
    let mut registry = EmitterRegistry::new();
    assert_eq!(
        registry.register_emitter(0, &addr(1)),
        Err(ErrorFactory::InvalidForeignEmitter)
    );
    // the host chain's own id is refused
    assert_eq!(
        registry.register_emitter(1, &addr(1)),
        Err(ErrorFactory::InvalidForeignEmitter)
    );
    // the all-zero address is refused
    assert_eq!(
        registry.register_emitter(7, &[0u8; 32]),
        Err(ErrorFactory::InvalidForeignEmitter)
    );
    assert!(!registry.verify(7, &[0u8; 32]));
}

#[test]
fn emitter_collection_membership() {
    let mut collection = ForeignEmitterCollection::new();
    assert!(!collection.verify(&addr(1)));
    collection.add_emitter(ForeignEmitter { chain: 2, address: addr(1) });
    collection.add_emitter(ForeignEmitter { chain: 4, address: addr(2) });
    assert!(collection.verify(&addr(1)));
    assert!(collection.verify(&addr(2)));
    assert!(!collection.verify(&addr(3)));
    let e = ForeignEmitter { chain: 2, address: addr(1) };
    assert!(e.verify(&addr(1)));
    assert!(!e.verify(&addr(9)));
}

#[test]
fn initialize_builds_config_and_handshake() {
    let (config, alive) = initialize(&addr(1), 1_000, 250, &addr(2), &addr(3), &addr(4), &addr(5));
    assert_eq!(config.owner, addr(1));
    assert_eq!(config.max_supply, 1_000);
    assert_eq!(config.minted_supply, 250);
    assert_eq!(config.batch_id, 0);
    assert_eq!(config.wormhole_bridge, addr(2));
    assert_eq!(config.wormhole_fee_collector, addr(3));
    assert_eq!(config.wormhole_sequence, addr(4));
    assert_eq!(alive, addr(5).to_vec());
}

#[test]
fn transfer_ownership_gating() {
    let (mut config, _) = initialize(&addr(1), 1_000, 0, &addr(2), &addr(3), &addr(4), &addr(5));
    // only the owner may transfer
    assert_eq!(
        transfer_ownership(&mut config, &addr(9), &addr(6)),
        Err(ErrorFactory::OwnerOnly)
    );
    assert_eq!(config.owner, addr(1));
    // handing ownership to the current owner is refused
    assert_eq!(
        transfer_ownership(&mut config, &addr(1), &addr(1)),
        Err(ErrorFactory::AlreadyOwner)
    );
    assert_eq!(transfer_ownership(&mut config, &addr(1), &addr(6)), Ok(()));
    assert_eq!(config.owner, addr(6));
    // the old owner has lost the permission
    assert_eq!(
        transfer_ownership(&mut config, &addr(1), &addr(7)),
        Err(ErrorFactory::OwnerOnly)
    );
}

#[test]
fn mint_tokens_supply_cap() {
    let (mut config, _) = initialize(&addr(1), 100, 90, &addr(2), &addr(3), &addr(4), &addr(5));
    assert_eq!(
        mint_tokens(&mut config, &addr(9), 1),
        Err(ErrorFactory::OwnerOnly)
    );
    // the cap itself is reachable
    assert_eq!(mint_tokens(&mut config, &addr(1), 10), Ok(()));
    assert_eq!(config.minted_supply, 100);
    // one past the cap is refused, and nothing changes
    assert_eq!(
        mint_tokens(&mut config, &addr(1), 1),
        Err(ErrorFactory::IvalidMintAmount)
    );
    assert_eq!(config.minted_supply, 100);
    // minting zero at the cap still succeeds
    assert_eq!(mint_tokens(&mut config, &addr(1), 0), Ok(()));
}
