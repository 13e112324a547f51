use timelock_program::account::{TimeLockAccount, ACCOUNT_SPACE, SECRET_LENGTH};
use timelock_program::error::UnlockError;
use timelock_program::processor::initialize_time_lock;

fn stored(timestamp: i64, secret: &[u8]) -> Vec<u8> {
    let mut data = timestamp.to_le_bytes().to_vec();
    data.extend_from_slice(secret);
    data
}

#[test]
fn serialize_is_timestamp_then_secret() {
    let mut secret = [0u8; SECRET_LENGTH];
    for (i, b) in secret.iter_mut().enumerate() {
        *b = i as u8;
    }
    let account = initialize_time_lock(0, 0x0102_0304_0506_0708, secret).unwrap();
    let bytes = account.serialize();
    assert_eq!(bytes.len(), ACCOUNT_SPACE);
    assert_eq!(&bytes[..8], &[0x08, 0x07, 0x06, 0x05, 0x04, 0x03, 0x02, 0x01]);
    assert_eq!(&bytes[8..], &secret[..]);
}

#[test]
fn serialize_has_no_length_prefix() {
    let account = initialize_time_lock(0, 1, [7u8; SECRET_LENGTH]).unwrap();
    let bytes = account.serialize();
    assert_eq!(bytes.len(), 264);
    assert_eq!(bytes, stored(1, &[7u8; SECRET_LENGTH]));
}

#[test]
fn try_from_slice_reads_the_fields() {
    let mut secret = [0u8; SECRET_LENGTH];
    for (i, b) in secret.iter_mut().enumerate() {
        *b = 255 - i as u8;
    }
    let account = TimeLockAccount::try_from_slice(&stored(-42, &secret)).unwrap();
    assert_eq!(account.timestamp(), -42);
    assert_eq!(account.secret(), secret);
}

#[test]
fn try_from_slice_does_not_ask_for_text() {
    let account = TimeLockAccount::try_from_slice(&stored(3, &[0xFFu8; SECRET_LENGTH])).unwrap();
    assert_eq!(account.timestamp(), 3);
    assert_eq!(account.secret(), [0xFFu8; SECRET_LENGTH]);
}

#[test]
fn try_from_slice_of_wrong_length_fails() {
    let full = stored(9, &[1u8; SECRET_LENGTH]);
    for n in [0usize, 1, 7, 8, 9, 263] {
        assert_eq!(
            TimeLockAccount::try_from_slice(&full[..n]).unwrap_err(),
            UnlockError::DeserializationFailure
        );
    }
    let mut long = full.clone();
    long.push(0);
    assert_eq!(
        TimeLockAccount::try_from_slice(&long).unwrap_err(),
        UnlockError::DeserializationFailure
    );
    assert!(TimeLockAccount::try_from_slice(&full).is_ok());
}

#[test]
fn serialize_then_try_from_slice_gives_the_record_back() {
    let mut secret = [0u8; SECRET_LENGTH];
    for (i, b) in secret.iter_mut().enumerate() {
        *b = (i * 7 % 251) as u8;
    }
    for t in [1i64, -1, i64::MAX, i64::MIN + 1, 1_700_000_000] {
        let account = initialize_time_lock(i64::MIN, t, secret).unwrap();
        let back = TimeLockAccount::try_from_slice(&account.serialize()).unwrap();
        assert_eq!(back.timestamp(), t);
        assert_eq!(back.secret(), secret);
    }
}

#[test]
fn try_from_slice_then_serialize_gives_the_bytes_back() {
    let mut data = vec![0u8; ACCOUNT_SPACE];
    for (i, b) in data.iter_mut().enumerate() {
        *b = (i * 13 % 256) as u8;
    }
    let account = TimeLockAccount::try_from_slice(&data).unwrap();
    assert_eq!(account.serialize(), data);
}

#[test]
fn getters_return_the_created_fields() {
    let secret = [b's'; SECRET_LENGTH];
    let account = initialize_time_lock(10, 11, secret).unwrap();
    assert_eq!(account.timestamp(), 11);
    assert_eq!(account.secret(), secret);
}
