use rwa::instruction::{
    decode_amount, decode_hook_instruction, encode_amount, opens_with_execute_tag, EXECUTE_TAG,
};
use rwa::program::{forwarded_payload, transfer_hook_entry};
use rwa::{
    fallback, initialize_asset, transfer_hook, update_asset_details, Address, AssetDetails,
    Authority, HookInstruction, InitializeAsset, Ledger, RwaError, TransferHook,
    UpdateAssetDetails,
};
use spl_transfer_hook_interface::instruction::TransferHookInstruction;

fn id(fill: u8) -> Address {
    Address::new([fill; 32])
}

fn hook(mint: u8) -> TransferHook {
    TransferHook { source_token: id(20), mint: id(mint), destination_token: id(21), owner: id(22) }
}

fn custodian() -> Authority {
    Authority { key: id(9), is_signer: true }
}

fn ledger_with_asset(mint: u8, compliant: bool) -> Ledger {
    let mut ledger = Ledger::new();
    let ctx = InitializeAsset { custodian: custodian(), mint: id(mint), unix_timestamp: 100, lamports: 1 };
    let created = initialize_asset(
        &mut ledger,
        &ctx,
        String::from("RealEstate"),
        String::from("DEED-1"),
        String::from("CH"),
        1000,
        String::from("uri"),
    );
    assert_eq!(created, Ok(()));
    if !compliant {
        let update = UpdateAssetDetails { custodian: custodian(), mint: id(mint) };
        assert_eq!(update_asset_details(&mut ledger, &update, None, Some(false), None), Ok(()));
    }
    ledger
}

fn execute_payload(amount: u64) -> Vec<u8> {
    TransferHookInstruction::Execute { amount }.pack()
}

#[test]
fn gate_passes_compliant_asset() {
    let ledger = ledger_with_asset(1, true);
    assert_eq!(transfer_hook(&ledger, &hook(1), 500), Ok(()));
}

#[test]
fn gate_ignores_the_amount() {
    let ledger = ledger_with_asset(1, true);
    assert_eq!(transfer_hook(&ledger, &hook(1), 0), Ok(()));
    assert_eq!(transfer_hook(&ledger, &hook(1), u64::MAX), Ok(()));
    let revoked = ledger_with_asset(1, false);
    assert_eq!(transfer_hook(&revoked, &hook(1), 0), Err(RwaError::NonCompliantAsset));
    assert_eq!(transfer_hook(&revoked, &hook(1), u64::MAX), Err(RwaError::NonCompliantAsset));
}

#[test]
fn revoking_compliance_vetoes_transfers_and_keeps_other_fields() {
    let mut ledger = ledger_with_asset(1, true);
    let before = ledger.read(&id(1)).unwrap().clone();
    let update = UpdateAssetDetails { custodian: custodian(), mint: id(1) };
    assert_eq!(update_asset_details(&mut ledger, &update, None, Some(false), None), Ok(()));
    assert_eq!(transfer_hook(&ledger, &hook(1), 500), Err(RwaError::NonCompliantAsset));
    assert_eq!(transfer_hook(&ledger, &hook(1), 1), Err(RwaError::NonCompliantAsset));
    let after = ledger.read(&id(1)).unwrap();
    assert_eq!(after.valuation, before.valuation);
    assert_eq!(after.metadata_uri, before.metadata_uri);
    assert_eq!(after.last_audit_date, before.last_audit_date);
}

#[test]
fn restoring_compliance_reopens_the_gate() {
    let mut ledger = ledger_with_asset(1, false);
    let update = UpdateAssetDetails { custodian: custodian(), mint: id(1) };
    assert_eq!(update_asset_details(&mut ledger, &update, None, Some(true), None), Ok(()));
    assert_eq!(transfer_hook(&ledger, &hook(1), 500), Ok(()));
}

#[test]
fn gate_vetoes_unregistered_asset() {
    let ledger = ledger_with_asset(1, true);
    assert_eq!(transfer_hook(&ledger, &hook(2), 500), Err(RwaError::NonCompliantAsset));
}

#[test]
fn gate_does_not_change_the_record() {
    let ledger = ledger_with_asset(1, true);
    let before = ledger.read(&id(1)).unwrap().clone();
    assert_eq!(transfer_hook(&ledger, &hook(1), 500), Ok(()));
    assert_eq!(ledger.read(&id(1)).unwrap(), &before);
}

#[test]
fn record_level_check_follows_compliance_flag() {
    let mut record = AssetDetails::create(
        String::from("Art"),
        String::from("A-1"),
        String::from("FR"),
        5,
        11,
        id(9),
        String::new(),
    );
    assert_eq!(record.check(500), Ok(()));
    assert_eq!(record.update(&custodian(), None, Some(false), None), Ok(()));
    assert_eq!(record.check(500), Err(RwaError::NonCompliantAsset));
}

#[test]
fn execute_payload_matches_direct_check() {
    let payload = execute_payload(500);
    let compliant = ledger_with_asset(1, true);
    assert_eq!(fallback(&compliant, &hook(1), &payload), Ok(()));
    assert_eq!(fallback(&compliant, &hook(1), &payload), transfer_hook(&compliant, &hook(1), 500));
    let revoked = ledger_with_asset(1, false);
    assert_eq!(fallback(&revoked, &hook(1), &payload), Err(RwaError::NonCompliantAsset));
    assert_eq!(fallback(&revoked, &hook(1), &payload), transfer_hook(&revoked, &hook(1), 500));
}

#[test]
fn execute_payload_is_tag_then_little_endian_amount() {
    let payload = vec![105, 37, 101, 197, 75, 251, 102, 26, 0xf4, 0x01, 0, 0, 0, 0, 0, 0];
    assert_eq!(payload, execute_payload(500));
    assert_eq!(decode_hook_instruction(&payload), Some(HookInstruction::Execute { amount: 500 }));
    let top = vec![105, 37, 101, 197, 75, 251, 102, 26, 1, 2, 3, 4, 5, 6, 7, 8];
    assert_eq!(
        decode_hook_instruction(&top),
        Some(HookInstruction::Execute { amount: 0x0807_0605_0403_0201 })
    );
}

#[test]
fn execute_payload_with_trailing_bytes_is_served() {
    let mut payload = execute_payload(500);
    payload.extend_from_slice(&[1, 2, 3]);
    let ledger = ledger_with_asset(1, true);
    assert_eq!(decode_hook_instruction(&payload), Some(HookInstruction::Execute { amount: 500 }));
    assert_eq!(fallback(&ledger, &hook(1), &payload), Ok(()));
}

#[test]
fn unknown_tag_is_refused() {
    let ledger = ledger_with_asset(1, true);
    let payload = vec![1u8, 2, 3, 4, 5, 6, 7, 8, 0xf4, 0x01, 0, 0, 0, 0, 0, 0];
    assert_eq!(decode_hook_instruction(&payload), None);
    assert_eq!(fallback(&ledger, &hook(1), &payload), Err(RwaError::InvalidCallData));
    let unregistered = Ledger::new();
    assert_eq!(fallback(&unregistered, &hook(1), &payload), Err(RwaError::InvalidCallData));
}

#[test]
fn unknown_tag_is_refused_before_the_record_is_looked_at() {
    let payload = vec![0u8; 16];
    let revoked = ledger_with_asset(1, false);
    assert_eq!(fallback(&revoked, &hook(1), &payload), Err(RwaError::InvalidCallData));
    assert_eq!(fallback(&revoked, &hook(2), &payload), Err(RwaError::InvalidCallData));
}

#[test]
fn short_payloads_are_refused() {
    let ledger = ledger_with_asset(1, true);
    assert_eq!(fallback(&ledger, &hook(1), &[]), Err(RwaError::InvalidCallData));
    assert_eq!(fallback(&ledger, &hook(1), &[105, 37, 101]), Err(RwaError::InvalidCallData));
    let full = execute_payload(500);
    assert_eq!(fallback(&ledger, &hook(1), &full[..8]), Err(RwaError::InvalidCallData));
    assert_eq!(fallback(&ledger, &hook(1), &full[..15]), Err(RwaError::InvalidCallData));
    assert_eq!(decode_hook_instruction(&full[..15]), None);
}

#[test]
fn list_requests_are_refused() {
    let ledger = ledger_with_asset(1, true);
    let init = TransferHookInstruction::InitializeExtraAccountMetaList { extra_account_metas: vec![] }.pack();
    let update = TransferHookInstruction::UpdateExtraAccountMetaList { extra_account_metas: vec![] }.pack();
    assert_eq!(init.len(), 12);
    assert_eq!(decode_hook_instruction(&init), None);
    assert_eq!(decode_hook_instruction(&update), None);
    assert_eq!(fallback(&ledger, &hook(1), &init), Err(RwaError::InvalidCallData));
    assert_eq!(fallback(&ledger, &hook(1), &update), Err(RwaError::InvalidCallData));
}

#[test]
fn list_request_with_overstated_count_is_refused() {
    let ledger = ledger_with_asset(1, true);
    let mut init = TransferHookInstruction::InitializeExtraAccountMetaList { extra_account_metas: vec![] }.pack();
    init[8] = 1;
    assert_eq!(init, vec![43, 34, 13, 49, 167, 88, 235, 235, 1, 0, 0, 0]);
    assert_eq!(decode_hook_instruction(&init), None);
    assert_eq!(forwarded_payload(&init), Err(RwaError::InvalidCallData));
    assert_eq!(fallback(&ledger, &hook(1), &init), Err(RwaError::InvalidCallData));
    let mut update = TransferHookInstruction::UpdateExtraAccountMetaList { extra_account_metas: vec![] }.pack();
    update[8..12].copy_from_slice(&u32::MAX.to_le_bytes());
    assert_eq!(decode_hook_instruction(&update), None);
    assert_eq!(fallback(&ledger, &hook(1), &update), Err(RwaError::InvalidCallData));
    let mut long = init.clone();
    long.extend_from_slice(&[0u8; 35]);
    long[8] = 3;
    assert_eq!(fallback(&ledger, &hook(1), &long), Err(RwaError::InvalidCallData));
}

#[test]
fn execute_tag_is_the_interface_tag() {
    assert_eq!(&execute_payload(0)[..8], &EXECUTE_TAG[..]);
    assert_eq!(EXECUTE_TAG, [105, 37, 101, 197, 75, 251, 102, 26]);
    assert!(opens_with_execute_tag(&execute_payload(7)));
    assert!(opens_with_execute_tag(&EXECUTE_TAG));
    assert!(!opens_with_execute_tag(&EXECUTE_TAG[..7]));
    assert!(!opens_with_execute_tag(&[105, 37, 101, 197, 75, 251, 102, 27, 0, 0]));
    assert!(!opens_with_execute_tag(&[]));
}

#[test]
fn forwarded_payload_is_the_amount_encoded_anew() {
    assert_eq!(forwarded_payload(&execute_payload(500)), Ok(vec![0xf4, 0x01, 0, 0, 0, 0, 0, 0]));
    assert_eq!(forwarded_payload(&execute_payload(u64::MAX)), Ok(vec![0xff; 8]));
    let mut trailing = execute_payload(1);
    trailing.extend_from_slice(&[9, 9]);
    assert_eq!(forwarded_payload(&trailing), Ok(vec![1, 0, 0, 0, 0, 0, 0, 0]));
    assert_eq!(forwarded_payload(&execute_payload(500)[..15]), Err(RwaError::InvalidCallData));
    assert_eq!(forwarded_payload(&[0u8; 16]), Err(RwaError::InvalidCallData));
    assert_eq!(forwarded_payload(&[]), Err(RwaError::InvalidCallData));
}

#[test]
fn native_entry_reads_eight_byte_amount() {
    let ledger = ledger_with_asset(1, true);
    assert_eq!(transfer_hook_entry(&ledger, &hook(1), &500u64.to_le_bytes()), Ok(()));
    assert_eq!(transfer_hook_entry(&ledger, &hook(1), &[1, 2, 3]), Err(RwaError::InvalidCallData));
    assert_eq!(transfer_hook_entry(&ledger, &hook(1), &[]), Err(RwaError::InvalidCallData));
}

#[test]
fn amount_encoding_is_little_endian() {
    assert_eq!(encode_amount(500), vec![0xf4, 0x01, 0, 0, 0, 0, 0, 0]);
    assert_eq!(encode_amount(0), vec![0u8; 8]);
    assert_eq!(encode_amount(u64::MAX), vec![0xffu8; 8]);
    assert_eq!(encode_amount(0x0102_0304_0506_0708), vec![8, 7, 6, 5, 4, 3, 2, 1]);
}

#[test]
fn amount_decoding_reads_first_eight_bytes() {
    assert_eq!(decode_amount(&[0xf4, 0x01, 0, 0, 0, 0, 0, 0]), Some(500));
    assert_eq!(decode_amount(&[8, 7, 6, 5, 4, 3, 2, 1, 99, 99]), Some(0x0102_0304_0506_0708));
    assert_eq!(decode_amount(&[1, 2, 3, 4, 5, 6, 7]), None);
    assert_eq!(decode_amount(&encode_amount(123_456_789)), Some(123_456_789));
}
