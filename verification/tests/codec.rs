use cat_bridge::cat_struct::{CATSOLStructs, CrossChainStruct, ALIVE_PAYLOAD_LEN, TRANSFER_PAYLOAD_LEN};
use cat_bridge::cat_struct_nft::CATSOLStructs as NftStructs;
use cat_bridge::cat_struct_nft::CrossChainStruct as NftCrossChainStruct;
use cat_bridge::error::ErrorFactory;
use cat_bridge::u256::U256;

fn addr(tag: u8) -> [u8; 32] {
    let mut a = [0u8; 32];
    for i in 0..32 {
        a[i] = tag.wrapping_add(i as u8);
    }
    a
}

fn sample_payload() -> CrossChainStruct {
    CrossChainStruct {
        amount: U256::from_u64(100_000_000),
        token_decimals: 6,
        source_token_address: addr(1),
        source_user_address: addr(2),
        source_token_chain: U256::from_u64(1),
        dest_token_address: addr(3),
        dest_user_address: addr(4),
        dest_token_chain: U256::from_u64(2),
    }
}

#[test]
fn ft_round_trip() {
    let message = CATSOLStructs::CrossChainPayload { payload: sample_payload() };
    let bytes = message.serialize();
    assert_eq!(bytes.len(), TRANSFER_PAYLOAD_LEN);
    let back = CATSOLStructs::deserialize(&bytes).unwrap();
    assert_eq!(back, message);
}

#[test]
fn ft_alive_round_trip() {
    let message = CATSOLStructs::Alive { program_id: addr(9) };
    let bytes = message.serialize();
    assert_eq!(bytes.len(), ALIVE_PAYLOAD_LEN);
    let back = CATSOLStructs::deserialize(&bytes).unwrap();
    assert_eq!(back, message);
}

#[test]
fn length_discrimination_boundary() {
    // a 32-byte buffer always decodes as Alive
    let buf = vec![7u8; 32];
    match CATSOLStructs::deserialize(&buf).unwrap() {
        CATSOLStructs::Alive { program_id } => assert_eq!(program_id.to_vec(), buf),
        _ => panic!("a 32-byte buffer must decode as Alive"),
    }
    // no other length is ever read as Alive
    for len in [0usize, 1, 31, 33, 100, 224, 225, 226, 300] {
        let buf = vec![7u8; len];
        match CATSOLStructs::deserialize(&buf) {
            Ok(CATSOLStructs::Alive { .. }) => panic!("only 32 bytes may decode as Alive"),
            Ok(CATSOLStructs::CrossChainPayload { .. }) => assert!(len >= 225),
            Err(e) => {
                assert_eq!(e, ErrorFactory::InvalidMessage);
                assert!(len < 225);
            }
        }
    }
}

#[test]
fn ft_truncated_input_rejected() {
    let message = CATSOLStructs::CrossChainPayload { payload: sample_payload() };
    let bytes = message.serialize();
    let truncated: Vec<u8> = bytes[..bytes.len() - 1].to_vec();
    assert_eq!(
        CATSOLStructs::deserialize(&truncated),
        Err(ErrorFactory::InvalidMessage)
    );
}

#[test]
fn ft_encoding_deterministic() {
    let a = CATSOLStructs::CrossChainPayload { payload: sample_payload() }.serialize();
    let b = CATSOLStructs::CrossChainPayload { payload: sample_payload() }.serialize();
    assert_eq!(a, b);
}

#[test]
fn ft_wire_layout_big_endian() {
    let payload = sample_payload();
    let bytes = CATSOLStructs::CrossChainPayload { payload }.serialize();
    // amount 100_000_000 = 0x05F5E100, big-endian in the low bytes of the first field
    assert_eq!(&bytes[28..32], &[0x05, 0xF5, 0xE1, 0x00]);
    assert!(bytes[0..28].iter().all(|&b| b == 0));
    assert_eq!(bytes[32], 6); // decimals
    // destination chain id 2 sits in the last 32-byte field
    assert_eq!(bytes[224], 2);
    assert!(bytes[193..224].iter().all(|&b| b == 0));
}

fn sample_nft_payload(uri: &[u8]) -> NftCrossChainStruct {
    NftCrossChainStruct {
        token_address: addr(5),
        token_chain: 1,
        token_id: U256::from_u64(42),
        uri: uri.to_vec(),
        to_address: addr(6),
        to_chain: 2,
    }
}

#[test]
fn nft_round_trip() {
    for uri in [&b""[..], b"u", b"https://example.test/meta/42", &[0xAAu8; 200][..]] {
        let message = NftStructs::CrossChainPayload { payload: sample_nft_payload(uri) };
        let bytes = message.serialize();
        assert_eq!(bytes.len(), 100 + uri.len());
        let back = NftStructs::deserialize(&bytes).unwrap();
        assert_eq!(back, message);
    }
}

#[test]
fn nft_alive_round_trip() {
    let message = NftStructs::Alive { program_id: addr(8) };
    let bytes = message.serialize();
    let back = NftStructs::deserialize(&bytes).unwrap();
    assert_eq!(back, message);
}

#[test]
fn nft_length_discrimination() {
    let buf = vec![3u8; 32];
    assert!(matches!(
        NftStructs::deserialize(&buf),
        Ok(NftStructs::Alive { .. })
    ));
    for len in [0usize, 31, 33, 99] {
        let buf = vec![3u8; len];
        match NftStructs::deserialize(&buf) {
            Ok(NftStructs::Alive { .. }) => assert_eq!(len, 32),
            Ok(_) => panic!("too short for a transfer"),
            Err(e) => assert_eq!(e, ErrorFactory::InvalidMessage),
        }
    }
}

#[test]
fn nft_chain_ids_big_endian() {
    let payload = NftCrossChainStruct {
        token_chain: 0x0102,
        to_chain: 0x0304,
        ..sample_nft_payload(b"x")
    };
    let bytes = NftStructs::CrossChainPayload { payload }.serialize();
    assert_eq!(&bytes[32..34], &[0x01, 0x02]);
    let n = bytes.len();
    assert_eq!(&bytes[n - 2..], &[0x03, 0x04]);
}
