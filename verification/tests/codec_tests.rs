use vault::codec::derivation_seeds;
use vault::codec::deserialize_record;
use vault::codec::serialize_record;
use vault::codec::RECORD_BYTES;
use vault::escrow::PrivateDeposit;

fn sample_record() -> PrivateDeposit {
    let mut depositor = [0u8; 32];
    let mut claim_hash = [0u8; 32];
    for i in 0..32 {
        depositor[i] = i as u8;
        claim_hash[i] = 0xA0 ^ (i as u8);
    }
    PrivateDeposit {
        depositor,
        claim_hash,
        amount: 0x0102_0304_0506_0708,
        claimed: false,
        bump: 254,
    }
}

#[test]
fn serialized_record_has_documented_layout() {
    let record = sample_record();
    let bytes = serialize_record(&record);
    assert_eq!(bytes.len(), RECORD_BYTES);
    assert_eq!(&bytes[0..32], &record.depositor);
    assert_eq!(&bytes[32..64], &record.claim_hash);
    // The amount is little-endian.
    assert_eq!(
        &bytes[64..72],
        &[0x08, 0x07, 0x06, 0x05, 0x04, 0x03, 0x02, 0x01]
    );
    assert_eq!(bytes[72], 0);
    assert_eq!(bytes[73], 254);
}

#[test]
fn claimed_flag_serializes_as_one() {
    let mut record = sample_record();
    record.claimed = true;
    let bytes = serialize_record(&record);
    assert_eq!(bytes[72], 1);
}

#[test]
fn serialize_then_deserialize_round_trips() {
    let record = sample_record();
    let bytes = serialize_record(&record);
    assert_eq!(deserialize_record(&bytes), Some(record));

    let mut claimed = record;
    claimed.claimed = true;
    let bytes = serialize_record(&claimed);
    assert_eq!(deserialize_record(&bytes), Some(claimed));
}

#[test]
fn deserialize_rejects_wrong_length() {
    let record = sample_record();
    let bytes = serialize_record(&record);
    assert_eq!(deserialize_record(&bytes[..73]), None);
    let mut longer = bytes.clone();
    longer.push(0);
    assert_eq!(deserialize_record(&longer), None);
    assert_eq!(deserialize_record(&[]), None);
}

#[test]
fn deserialize_rejects_non_boolean_claimed_byte() {
    let record = sample_record();
    let mut bytes = serialize_record(&record);
    bytes[72] = 2;
    assert_eq!(deserialize_record(&bytes), None);
    bytes[72] = 255;
    assert_eq!(deserialize_record(&bytes), None);
}

#[test]
fn derivation_seeds_follow_documented_layout() {
    let mut depositor = [0u8; 32];
    for i in 0..32 {
        depositor[i] = 0x10 + i as u8;
    }
    let seeds = derivation_seeds(&depositor, 0x1122_3344_5566_7788);
    assert_eq!(&seeds[0..7], b"deposit");
    assert_eq!(&seeds[7..39], &depositor);
    assert_eq!(
        &seeds[39..47],
        &[0x88, 0x77, 0x66, 0x55, 0x44, 0x33, 0x22, 0x11]
    );
    assert_eq!(seeds.len(), 47);
}

#[test]
fn derivation_seeds_distinguish_deposits() {
    let depositor = [9u8; 32];
    assert_ne!(
        derivation_seeds(&depositor, 1),
        derivation_seeds(&depositor, 2)
    );
    assert_ne!(
        derivation_seeds(&[8u8; 32], 1),
        derivation_seeds(&depositor, 1)
    );
}
