use anchor_lang::AnchorSerialize;
use token_sale::layout::{HEAD_LEN, MARK_LEN, TAIL_LEN};
use token_sale::{decode, encode, Address, EscrowAccount};

const MARK: [u8; 8] = [11, 12, 13, 14, 15, 16, 17, 18];

fn record(name: &str) -> EscrowAccount {
    EscrowAccount {
        admin: Address { bytes: [1u8; 32] },
        holding_account: Address { bytes: [3u8; 32] },
        name: name.to_string(),
        rate: 10,
        total_supply: 1000,
        remaining_supply: 950,
        bump: 254,
    }
}

fn stored_sale1() -> Vec<u8> {
    let mut bytes: Vec<u8> = Vec::new();
    bytes.extend_from_slice(&MARK);
    bytes.extend_from_slice(&[1u8; 32]);
    bytes.extend_from_slice(&[3u8; 32]);
    bytes.extend_from_slice(&[5, 0, 0, 0]);
    bytes.extend_from_slice(b"sale1");
    bytes.extend_from_slice(&[10, 0, 0, 0, 0, 0, 0, 0]);
    bytes.extend_from_slice(&[0xE8, 0x03, 0, 0, 0, 0, 0, 0]);
    bytes.extend_from_slice(&[0xB6, 0x03, 0, 0, 0, 0, 0, 0]);
    bytes.push(254);
    bytes
}

#[test]
fn layout_lengths() {
    assert_eq!(MARK_LEN, 8);
    assert_eq!(HEAD_LEN, 8 + 32 + 32 + 4);
    assert_eq!(TAIL_LEN, 8 + 8 + 8 + 1);
    assert_eq!(HEAD_LEN + 128 + TAIL_LEN, EscrowAccount::space());
}

#[test]
fn encode_lays_the_fields_out_in_order() {
    let bytes = encode(&record("sale1"), &MARK).unwrap();
    assert_eq!(bytes, stored_sale1());
    assert_eq!(bytes.len(), record("sale1").stored_len());
}

#[test]
fn encode_agrees_with_the_ledger_serializer() {
    let r = record("sale1");
    let fields = (
        r.admin.bytes,
        r.holding_account.bytes,
        r.name.clone(),
        r.rate,
        r.total_supply,
        r.remaining_supply,
        r.bump,
    );
    let mut expected = MARK.to_vec();
    expected.extend_from_slice(&fields.try_to_vec().unwrap());
    assert_eq!(encode(&r, &MARK).unwrap(), expected);
}

#[test]
fn encode_refuses_a_name_that_does_not_fit() {
    assert!(encode(&record(&"x".repeat(128)), &MARK).is_some());
    assert_eq!(encode(&record(&"x".repeat(128)), &MARK).unwrap().len(), 229);
    assert_eq!(encode(&record(&"x".repeat(129)), &MARK), None);
}

#[test]
fn decode_reads_what_encode_wrote() {
    for name in ["", "sale1", "naïve — sale", &"x".repeat(128)] {
        let r = record(name);
        let bytes = encode(&r, &MARK).unwrap();
        assert_eq!(decode(&bytes, &MARK), Some(r));
    }
}

#[test]
fn decode_reads_the_fields_in_order() {
    assert_eq!(decode(&stored_sale1(), &MARK), Some(record("sale1")));
}

#[test]
fn decode_ignores_what_follows_the_record() {
    let mut bytes = stored_sale1();
    bytes.resize(EscrowAccount::space(), 0);
    assert_eq!(decode(&bytes, &MARK), Some(record("sale1")));
}

#[test]
fn decode_refuses_another_mark() {
    let mut other = MARK;
    other[7] = 0;
    assert_eq!(decode(&stored_sale1(), &other), None);
    let mut bytes = stored_sale1();
    bytes[0] = 0;
    assert_eq!(decode(&bytes, &MARK), None);
}

#[test]
fn decode_refuses_short_bytes() {
    let bytes = stored_sale1();
    assert_eq!(decode(&bytes[..bytes.len() - 1], &MARK), None);
    assert_eq!(decode(&bytes[..100], &MARK), None);
    assert_eq!(decode(&[], &MARK), None);
}

#[test]
fn decode_refuses_a_name_length_beyond_the_limit() {
    let mut bytes = stored_sale1();
    bytes.truncate(76);
    bytes.resize(400, 120);
    bytes[72] = 129;
    assert_eq!(decode(&bytes, &MARK), None);
    bytes[72] = 128;
    let read = decode(&bytes, &MARK).unwrap();
    assert_eq!(read.name, "x".repeat(128));
    assert_eq!(read.bump, 120);
    bytes[72] = 5;
    bytes[75] = 1;
    assert_eq!(decode(&bytes, &MARK), None);
}

#[test]
fn decode_refuses_a_name_that_is_not_text() {
    let mut bytes = stored_sale1();
    bytes[76] = 0xFF;
    assert_eq!(decode(&bytes, &MARK), None);
    // a valid two-byte character in the same place is read
    bytes[76] = 0xC3;
    bytes[77] = 0xA9;
    assert_eq!(decode(&bytes, &MARK).unwrap().name, "éle1");
}
