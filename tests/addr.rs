use bridge_core::addr::{Address, BtcAddress, ConversionError, Network, PartialAddress, Payload};

#[test]
fn test_encode_and_decode_payload() {
    let addr = "bcrt1q6v2c7q7uv8vu6xle2k9ryfj3y3fuuy4rqnl50f";
    assert_eq!(
        addr,
        Payload::decode_str(addr).unwrap().encode_str(Network::Regtest).unwrap()
    );
}

#[test]
fn payload_decodes_to_witness_program() {
    let addr = "bcrt1q6v2c7q7uv8vu6xle2k9ryfj3y3fuuy4rqnl50f";
    match Payload::decode_str(addr).unwrap() {
        Payload::WitnessProgram { version, program } => {
            assert_eq!(version, 0);
            assert_eq!(program.len(), 20);
        }
        other => panic!("unexpected payload {:?}", other),
    }
}

#[test]
fn payload_round_trips_on_every_network() {
    let payloads = vec![
        Payload::PubkeyHash([7u8; 20]),
        Payload::ScriptHash([9u8; 20]),
        Payload::WitnessProgram { version: 0, program: vec![3u8; 20] },
        Payload::WitnessProgram { version: 0, program: vec![4u8; 32] },
        Payload::WitnessProgram { version: 1, program: vec![5u8; 32] },
    ];
    for p in payloads {
        for n in [Network::Bitcoin, Network::Testnet, Network::Signet, Network::Regtest] {
            let s = p.encode_str(n).unwrap();
            assert_eq!(Payload::decode_str(&s).unwrap(), p);
        }
    }
}

#[test]
fn network_changes_only_the_prefix() {
    let p = Payload::WitnessProgram { version: 0, program: vec![1u8; 20] };
    let main = p.encode_str(Network::Bitcoin).unwrap();
    let reg = p.encode_str(Network::Regtest).unwrap();
    assert!(main.starts_with("bc1"));
    assert!(reg.starts_with("bcrt1"));
    assert_ne!(main, reg);
}

#[test]
fn compact_address_round_trips() {
    let addrs = vec![
        BtcAddress::P2PKH([0x11u8; 20]),
        BtcAddress::P2SH([0x22u8; 20]),
        BtcAddress::P2WPKHv0([0x33u8; 20]),
    ];
    for a in addrs {
        for n in [Network::Bitcoin, Network::Testnet, Network::Regtest] {
            let s = a.encode_str(n).unwrap();
            assert_eq!(BtcAddress::decode_str(&s).unwrap(), a);
        }
    }
}

#[test]
fn compact_address_builds_the_matching_payload() {
    let a = BtcAddress::P2PKH([0xabu8; 20]).to_address(Network::Bitcoin).unwrap();
    assert_eq!(a, Address { payload: Payload::PubkeyHash([0xabu8; 20]), network: Network::Bitcoin });
    let a = BtcAddress::P2SH([0xcdu8; 20]).to_address(Network::Testnet).unwrap();
    assert_eq!(a.payload, Payload::ScriptHash([0xcdu8; 20]));
    let a = BtcAddress::P2WPKHv0([0x01u8; 20]).to_address(Network::Regtest).unwrap();
    assert_eq!(a.payload, Payload::WitnessProgram { version: 0, program: vec![0x01u8; 20] });
    let a = BtcAddress::P2WSHv0([0x02u8; 32]).to_address(Network::Regtest).unwrap();
    assert_eq!(a.payload, Payload::WitnessProgram { version: 0, program: vec![0x02u8; 32] });
}

#[test]
fn p2pkh_mainnet_address_starts_with_one() {
    let s = BtcAddress::P2PKH([0u8; 20]).encode_str(Network::Bitcoin).unwrap();
    assert_eq!(s, "1111111111111111111114oLvT2");
}

#[test]
fn wide_witness_program_is_not_compact() {
    let s = BtcAddress::P2WSHv0([0x44u8; 32]).encode_str(Network::Bitcoin).unwrap();
    assert_eq!(BtcAddress::decode_str(&s), Err(ConversionError::InvalidPayload));
    let p = Payload::WitnessProgram { version: 0, program: vec![0x44u8; 32] };
    assert_eq!(BtcAddress::from_payload(p), Err(ConversionError::InvalidPayload));
}

#[test]
fn compact_address_drops_witness_version() {
    let p = Payload::WitnessProgram { version: 1, program: vec![0x55u8; 20] };
    assert_eq!(BtcAddress::from_payload(p), Ok(BtcAddress::P2WPKHv0([0x55u8; 20])));
}

#[test]
fn malformed_string_is_a_parse_error() {
    assert_eq!(Payload::decode_str("not an address"), Err(ConversionError::ParseError));
    assert_eq!(BtcAddress::decode_str(""), Err(ConversionError::ParseError));
}

#[test]
fn witness_version_beyond_five_bits_is_invalid() {
    let p = Payload::WitnessProgram { version: 32, program: vec![0u8; 20] };
    assert_eq!(p.encode_str(Network::Bitcoin), Err(ConversionError::InvalidPayload));
    assert_eq!(p.to_address(Network::Bitcoin), Err(ConversionError::InvalidPayload));
}
