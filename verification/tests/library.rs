use para_unlock::account::AccountId;
use para_unlock::chain::{
    check_locked_status, free_balance, plan, AccountRecord, Action, ParaRecord,
};
use para_unlock::config::parse_config;
use para_unlock::error::Error;
use para_unlock::payload::{
    build_unlock_message, encode_remove_lock_call, encode_unlock_payload, to_hex_string,
    unlock_payload_hex, ParaSchema, RelaySchema, DEFAULT_FEE,
};
use para_unlock::scale::compact_u128;
use para_unlock::xcm::{AssetFilter, Instruction, Junction, Junctions, OriginKind, WeightLimit};

fn relay_schema() -> RelaySchema {
    RelaySchema { registrar_pallet: 70, remove_lock_call: 4 }
}

fn para_schema() -> ParaSchema {
    ParaSchema { sudo_pallet: 50, sudo_unchecked_weight_call: 1, polkadot_xcm_pallet: 31, send_call: 0 }
}

#[test]
fn missing_record_reads_unlocked() {
    assert!(!check_locked_status(&None));
}

#[test]
fn absent_flag_reads_unlocked() {
    assert!(!check_locked_status(&Some(ParaRecord { locked: None })));
}

#[test]
fn unset_flag_reads_unlocked() {
    assert!(!check_locked_status(&Some(ParaRecord { locked: Some(false) })));
}

#[test]
fn set_flag_reads_locked() {
    assert!(check_locked_status(&Some(ParaRecord { locked: Some(true) })));
}

#[test]
fn missing_account_has_zero_balance() {
    assert_eq!(free_balance(&None), 0);
}

#[test]
fn present_account_reports_free_balance() {
    assert_eq!(free_balance(&Some(AccountRecord { free: 7 })), 7);
}

#[test]
fn unlocked_slot_skips() {
    assert_eq!(plan(false, 5), Action::SkipNotLocked);
}

#[test]
fn zero_balance_skips_payload() {
    assert_eq!(plan(true, 0), Action::SkipZeroBalance);
}

#[test]
fn locked_funded_slot_builds_payload() {
    assert_eq!(plan(true, 5), Action::BuildPayload);
}

#[test]
fn address_round_trip_is_idempotent() {
    let account = AccountId::from_bytes(vec![0u8; 32]).unwrap();
    let text = account.to_text();
    let parsed = AccountId::parse(&text).expect("canonical text parses");
    assert_eq!(parsed.as_bytes(), &vec![0u8; 32]);
    assert_eq!(parsed.to_text(), text);
}

#[test]
fn known_address_parses_to_known_bytes() {
    // The canonical-prefix address of a well-known public key.
    let expected: Vec<u8> = vec![
        0xd4, 0x35, 0x93, 0xc7, 0x15, 0xfd, 0xd3, 0x1c, 0x61, 0x14, 0x1a, 0xbd, 0x04, 0xa9,
        0x9f, 0xd6, 0x82, 0x2c, 0x85, 0x58, 0x85, 0x4c, 0xcd, 0xe3, 0x9a, 0x56, 0x84, 0xe7,
        0xa5, 0x6d, 0xa2, 0x7d,
    ];
    let parsed = AccountId::parse("5GrwvaEF5zXb26Fz9rcQpDWS57CtERHpNehXCPcNoHGKutQY")
        .expect("valid address parses");
    assert_eq!(parsed.as_bytes(), &expected);
}

#[test]
fn malformed_address_is_invalid_argument() {
    let r = parse_config(1000, "not an address");
    assert!(matches!(r, Err(Error::InvalidArgument)));
}

#[test]
fn truncated_address_is_invalid_argument() {
    let r = parse_config(1000, "5Grwva");
    assert!(matches!(r, Err(Error::InvalidArgument)));
}

#[test]
fn valid_address_is_accepted() {
    let account = AccountId::from_bytes(vec![9u8; 32]).unwrap();
    let text = account.to_text();
    let config = match parse_config(7, &text) {
        Ok(c) => c,
        Err(_) => panic!("valid inputs accepted"),
    };
    assert_eq!(config.para_id, 7);
    assert_eq!(config.refund_account.as_bytes(), &vec![9u8; 32]);
}

#[test]
fn wrong_length_bytes_are_rejected() {
    assert!(AccountId::from_bytes(vec![0u8; 31]).is_none());
    assert!(AccountId::from_bytes(vec![0u8; 33]).is_none());
    assert!(AccountId::from_bytes(vec![0u8; 32]).is_some());
}

#[test]
fn compact_encoding_single_byte_mode() {
    assert_eq!(compact_u128(0), vec![0x00]);
    assert_eq!(compact_u128(1), vec![0x04]);
    assert_eq!(compact_u128(63), vec![0xfc]);
}

#[test]
fn compact_encoding_two_byte_mode() {
    assert_eq!(compact_u128(64), vec![0x01, 0x01]);
    assert_eq!(compact_u128(16383), vec![0xfd, 0xff]);
}

#[test]
fn compact_encoding_four_byte_mode() {
    assert_eq!(compact_u128(16384), vec![0x02, 0x00, 0x01, 0x00]);
    assert_eq!(compact_u128(1000000000), vec![0x02, 0x28, 0x6b, 0xee]);
    assert_eq!(compact_u128(1073741823), vec![0xfe, 0xff, 0xff, 0xff]);
}

#[test]
fn compact_encoding_big_mode() {
    assert_eq!(compact_u128(1073741824), vec![0x03, 0x00, 0x00, 0x00, 0x40]);
    assert_eq!(
        compact_u128(1u128 << 64),
        vec![0x17, 0x00, 0x00, 0x00, 0x00, 0x00, 0x00, 0x00, 0x00, 0x01]
    );
    assert_eq!(
        compact_u128(u128::MAX),
        vec![
            0x33, 0xff, 0xff, 0xff, 0xff, 0xff, 0xff, 0xff, 0xff, 0xff, 0xff, 0xff, 0xff,
            0xff, 0xff, 0xff, 0xff
        ]
    );
}

#[test]
fn remove_lock_call_bytes() {
    // Parachain identifier 1000 as four little-endian bytes after the two
    // call indices.
    let call = encode_remove_lock_call(&relay_schema(), 1000);
    assert_eq!(call, vec![70, 4, 0xe8, 0x03, 0x00, 0x00]);
}

#[test]
fn message_has_five_instructions_in_order() {
    let refund = AccountId::from_bytes(vec![7u8; 32]).unwrap();
    let unlock_call = encode_remove_lock_call(&relay_schema(), 1000);
    let expected_call = unlock_call.clone();
    let message = build_unlock_message(&refund, DEFAULT_FEE, unlock_call);
    assert_eq!(message.len(), 5);
    match &message[0] {
        Instruction::WithdrawAsset(assets) => {
            assert_eq!(assets.len(), 1);
            assert_eq!(assets[0].id.parents, 0);
            assert!(matches!(assets[0].id.interior, Junctions::Here));
            assert_eq!(assets[0].amount, DEFAULT_FEE);
        }
        _ => panic!("first instruction must withdraw the fee"),
    }
    match &message[1] {
        Instruction::BuyExecution { fees, weight_limit } => {
            assert_eq!(fees.amount, DEFAULT_FEE);
            assert!(matches!(weight_limit, WeightLimit::Unlimited));
        }
        _ => panic!("second instruction must buy execution"),
    }
    match &message[2] {
        Instruction::Transact { origin_kind, require_weight_at_most, call } => {
            assert!(matches!(origin_kind, OriginKind::Native));
            assert_eq!(require_weight_at_most.ref_time, 1000000000);
            assert_eq!(require_weight_at_most.proof_size, 100000);
            assert_eq!(call, &expected_call);
        }
        _ => panic!("third instruction must transact the unlock call"),
    }
    assert!(matches!(message[3], Instruction::RefundSurplus));
    match &message[4] {
        Instruction::DepositAsset { assets, beneficiary } => {
            assert!(matches!(assets, AssetFilter::WildAll));
            assert_eq!(beneficiary.parents, 0);
            match &beneficiary.interior {
                Junctions::X1(Junction::AccountId32 { id }) => {
                    assert_eq!(id.as_bytes(), &vec![7u8; 32]);
                }
                _ => panic!("beneficiary must name the refund account"),
            }
        }
        _ => panic!("fifth instruction must deposit the remainder"),
    }
}

#[test]
fn payload_bytes_spelled_out() {
    let refund = AccountId::from_bytes(vec![7u8; 32]).unwrap();
    let payload = encode_unlock_payload(&para_schema(), &relay_schema(), 1000, &refund, DEFAULT_FEE);
    let mut expected: Vec<u8> = Vec::new();
    // Privileged-dispatch and send call indices.
    expected.extend_from_slice(&[50, 1, 31, 0]);
    // Destination: version tag, one hop up, no interior.
    expected.extend_from_slice(&[4, 1, 0]);
    // Program envelope: version tag, five instructions.
    expected.extend_from_slice(&[4, 20]);
    // Withdraw one fungible local asset of the fee amount.
    expected.extend_from_slice(&[0, 4, 0, 0, 0, 0x02, 0x28, 0x6b, 0xee]);
    // Buy execution with the same asset, no weight limit.
    expected.extend_from_slice(&[19, 0, 0, 0, 0x02, 0x28, 0x6b, 0xee, 0]);
    // Transact natively under the fixed weight ceiling; the embedded call is
    // length-prefixed.
    expected.extend_from_slice(&[6, 0, 0x02, 0x28, 0x6b, 0xee, 0x82, 0x1a, 0x06, 0x00, 24]);
    expected.extend_from_slice(&[70, 4, 0xe8, 0x03, 0x00, 0x00]);
    // Refund the surplus.
    expected.extend_from_slice(&[20]);
    // Deposit everything with the refund account.
    expected.extend_from_slice(&[13, 1, 0, 0, 1, 1, 0]);
    expected.extend_from_slice(&[7u8; 32]);
    // The zero weight of the unchecked-weight envelope.
    expected.extend_from_slice(&[0, 0]);
    assert_eq!(payload, expected);
}

#[test]
fn encoding_twice_is_byte_identical() {
    let refund = AccountId::from_bytes(vec![7u8; 32]).unwrap();
    let first = encode_unlock_payload(&para_schema(), &relay_schema(), 1000, &refund, DEFAULT_FEE);
    let second = encode_unlock_payload(&para_schema(), &relay_schema(), 1000, &refund, DEFAULT_FEE);
    assert_eq!(first, second);
    let first_hex = unlock_payload_hex(&para_schema(), &relay_schema(), 1000, &refund, DEFAULT_FEE);
    let second_hex = unlock_payload_hex(&para_schema(), &relay_schema(), 1000, &refund, DEFAULT_FEE);
    assert_eq!(first_hex, second_hex);
}

#[test]
fn hex_text_of_bytes() {
    assert_eq!(to_hex_string(&vec![0x00, 0xff, 0x1a]), "00ff1a");
    assert_eq!(to_hex_string(&vec![]), "");
}

#[test]
fn hex_text_matches_reference_encoder() {
    let refund = AccountId::from_bytes(vec![7u8; 32]).unwrap();
    let payload = encode_unlock_payload(&para_schema(), &relay_schema(), 1000, &refund, DEFAULT_FEE);
    let line = unlock_payload_hex(&para_schema(), &relay_schema(), 1000, &refund, DEFAULT_FEE);
    assert_eq!(line, hex::encode(&payload));
}

#[test]
fn parachain_location_names_the_parachain() {
    let location = para_unlock::xcm::parachain_location(2000);
    assert_eq!(location.parents, 0);
    match location.interior {
        Junctions::X1(Junction::Parachain(id)) => assert_eq!(id, 2000),
        _ => panic!("the location must hold a single parachain junction"),
    }
}

#[test]
fn limited_weight_limit_encoding() {
    let mut out: Vec<u8> = Vec::new();
    para_unlock::xcm::push_weight_limit(
        &mut out,
        &WeightLimit::Limited(para_unlock::xcm::Weight { ref_time: 1, proof_size: 2 }),
    );
    assert_eq!(out, vec![1, 0x04, 0x08]);
}

#[test]
fn definite_asset_filter_encoding() {
    let asset = para_unlock::xcm::Asset {
        id: para_unlock::xcm::Location { parents: 1, interior: Junctions::Here },
        amount: 3,
    };
    let mut out: Vec<u8> = Vec::new();
    para_unlock::xcm::push_asset_filter(&mut out, &AssetFilter::Definite(vec![asset]));
    assert_eq!(out, vec![0, 4, 1, 0, 0, 0x0c]);
}

#[test]
fn origin_kind_encodings() {
    let kinds = [
        (OriginKind::Native, 0u8),
        (OriginKind::SovereignAccount, 1),
        (OriginKind::Superuser, 2),
        (OriginKind::Xcm, 3),
    ];
    for (kind, tag) in kinds {
        let mut out: Vec<u8> = Vec::new();
        para_unlock::xcm::push_origin_kind(&mut out, &kind);
        assert_eq!(out, vec![tag]);
    }
}

#[test]
fn account_junction_encoding() {
    let id = AccountId::from_bytes(vec![5u8; 32]).unwrap();
    let mut out: Vec<u8> = Vec::new();
    para_unlock::xcm::push_junction(&mut out, &Junction::AccountId32 { id });
    let mut expected = vec![1u8, 0];
    expected.extend_from_slice(&[5u8; 32]);
    assert_eq!(out, expected);
}

#[test]
fn parachain_location_wire_form() {
    let mut out: Vec<u8> = Vec::new();
    para_unlock::xcm::push_versioned_location_v4(
        &mut out,
        &para_unlock::xcm::parachain_location(1000),
    );
    assert_eq!(out, vec![4, 0, 1, 0, 0xa1, 0x0f]);
}

#[test]
fn overlong_address_is_rejected_without_panic() {
    // A long enough run of base58 zero digits would underflow the decoder's
    // fixed buffer; the library must reject it before the decoder sees it.
    let ones = "1".repeat(200);
    assert!(AccountId::parse(&ones).is_none());
    assert!(matches!(parse_config(1000, &ones), Err(Error::InvalidArgument)));
}

#[test]
fn long_text_inside_the_bound_is_merely_malformed() {
    let ones = "1".repeat(120);
    assert!(AccountId::parse(&ones).is_none());
    assert!(matches!(parse_config(1000, &ones), Err(Error::InvalidArgument)));
}
