use service_provider::decode::{decode_history_body, parse_address};
use service_provider::errors::LedgerError;
use service_provider::history::{last_confirmed_tick, EntryKind};

fn hex_of(byte: u8) -> String {
    format!("{:02x}", byte).repeat(20)
}

#[test]
fn address_parses_to_its_bytes() {
    let a = parse_address("0x0a0b0c0d0e0f101112131415161718191a1b1c1d").unwrap();
    assert_eq!(
        a.0,
        [
            0x0a, 0x0b, 0x0c, 0x0d, 0x0e, 0x0f, 0x10, 0x11, 0x12, 0x13, 0x14, 0x15, 0x16, 0x17,
            0x18, 0x19, 0x1a, 0x1b, 0x1c, 0x1d
        ]
    );
}

#[test]
fn address_parses_without_prefix_and_in_upper_case() {
    let a = parse_address(&hex_of(1)).unwrap();
    assert_eq!(a.0, [1; 20]);
    let b = parse_address("0A0B0C0D0E0F101112131415161718191A1B1C1D").unwrap();
    assert_eq!(b.0[0], 0x0a);
}

#[test]
fn bad_addresses_are_rejected() {
    assert!(parse_address("").is_none());
    assert!(parse_address("0x1234").is_none());
    assert!(parse_address(&"zz".repeat(20)).is_none());
}

#[test]
fn history_body_decodes_and_reconciles() {
    let wallet = hex_of(1);
    let burn = hex_of(2);
    let treasury = hex_of(3);
    let transfer_leg = format!(
        "{{\"txId\":\"TransferFrom\",\"success\":true,\"createdAt\":42,\"tx\":{{\"from\":\"0x{}\",\"to\":\"0x{}\",\"amount\":100,\"nonce\":1,\"toNonce\":5}}}}",
        treasury, wallet
    );
    let burn_leg = format!(
        "{{\"txId\":\"Transfer\",\"success\":true,\"createdAt\":43,\"tx\":{{\"from\":\"0x{}\",\"to\":\"0x{}\",\"amount\":100,\"nonce\":6}}}}",
        wallet, burn
    );
    let body = format!("[{},{}]", transfer_leg, burn_leg);
    let entries = decode_history_body(&body).unwrap();
    assert_eq!(entries.len(), 2);
    assert_eq!(entries[0].kind, EntryKind::TransferFrom);
    assert_eq!(entries[0].to.0, [1; 20]);
    assert_eq!(entries[0].to_nonce, 5);
    assert!(entries[0].succeeded);
    assert_eq!(entries[1].kind, EntryKind::Transfer);
    assert_eq!(entries[1].nonce, 6);
    let burn_address = parse_address(&burn).unwrap();
    assert_eq!(last_confirmed_tick(&entries, &burn_address, 100), Some(42));
}

#[test]
fn failed_leg_is_kept_but_marked() {
    let body = format!(
        "[{{\"txId\":\"Transfer\",\"success\":false,\"createdAt\":7,\"tx\":{{\"from\":\"{}\",\"to\":\"{}\",\"amount\":100,\"nonce\":6}}}}]",
        hex_of(1),
        hex_of(2)
    );
    let entries = decode_history_body(&body).unwrap();
    assert_eq!(entries.len(), 1);
    assert!(!entries[0].succeeded);
}

#[test]
fn missing_success_field_counts_as_pending() {
    let body = format!(
        "[{{\"txId\":\"Transfer\",\"createdAt\":7,\"tx\":{{\"from\":\"{}\",\"to\":\"{}\",\"amount\":100,\"nonce\":6}}}}]",
        hex_of(1),
        hex_of(2)
    );
    let entries = decode_history_body(&body).unwrap();
    assert!(entries[0].succeeded);
}

#[test]
fn unknown_kinds_decode_as_other_without_a_payload() {
    let body = "[{\"txId\":\"ChangePubKey\",\"success\":true,\"createdAt\":9,\"tx\":{}}]";
    let entries = decode_history_body(body).unwrap();
    assert_eq!(entries[0].kind, EntryKind::Other);
    assert_eq!(entries[0].created_at, 9);
}

#[test]
fn malformed_bodies_are_rejected_not_panicked_on() {
    assert!(matches!(
        decode_history_body("not json at all"),
        Err(LedgerError::MalformedLedgerResponse)
    ));
    assert!(matches!(
        decode_history_body("{\"an\":\"object\"}"),
        Err(LedgerError::MalformedLedgerResponse)
    ));
    // A transfer without its required fields poisons the whole response.
    let body = "[{\"txId\":\"Transfer\",\"success\":true,\"createdAt\":7,\"tx\":{}}]";
    assert!(matches!(
        decode_history_body(body),
        Err(LedgerError::MalformedLedgerResponse)
    ));
    // An entry without a createdAt timestamp is malformed too.
    let body = "[{\"txId\":\"ChangePubKey\",\"success\":true,\"tx\":{}}]";
    assert!(matches!(
        decode_history_body(body),
        Err(LedgerError::MalformedLedgerResponse)
    ));
}

#[test]
fn nonce_too_large_for_the_ledger_is_malformed() {
    let body = format!(
        "[{{\"txId\":\"Transfer\",\"success\":true,\"createdAt\":7,\"tx\":{{\"from\":\"{}\",\"to\":\"{}\",\"amount\":100,\"nonce\":4294967296}}}}]",
        hex_of(1),
        hex_of(2)
    );
    assert!(matches!(
        decode_history_body(&body),
        Err(LedgerError::MalformedLedgerResponse)
    ));
}
