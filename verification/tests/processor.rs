use timelock_program::processor::KEY_LENGTH;
use timelock_program::{
    initialize_time_lock, open_account, try_unlock, CreateError, TimeLockAccount,
    TimeLockInstruction, UnlockError, UnlockOutcome, SECRET_LENGTH,
};

fn now() -> i64 {
    std::time::SystemTime::now().duration_since(std::time::UNIX_EPOCH).unwrap().as_secs() as i64
}

fn disclosed(outcome: UnlockOutcome) -> [u8; SECRET_LENGTH] {
    match outcome {
        UnlockOutcome::Disclosed(secret) => secret,
        other => panic!("expected the secret, got {:?}", other),
    }
}

fn still_locked(outcome: UnlockOutcome) -> i64 {
    match outcome {
        UnlockOutcome::StillLocked(timestamp) => timestamp,
        other => panic!("expected a locked lock, got {:?}", other),
    }
}

#[test]
fn test_timelock_program() {
    let program_id = [3u8; KEY_LENGTH];
    let timestamp: i64 = now() + 5;
    let secret = [65; SECRET_LENGTH];

    let mut init_instruction_data = vec![0];
    init_instruction_data.extend_from_slice(&timestamp.to_le_bytes());
    init_instruction_data.extend_from_slice(&secret);

    let account_data = match TimeLockInstruction::unpack(&init_instruction_data).unwrap() {
        TimeLockInstruction::InitializeTimeLock { timestamp, secret } => {
            initialize_time_lock(now(), timestamp, secret).unwrap().serialize()
        }
        TimeLockInstruction::TryUnlock => panic!("decoded the wrong instruction"),
    };

    let timelock = TimeLockAccount::try_from_slice(&account_data)
        .expect("Failed to deserialize timelock data");
    assert_eq!(timelock.timestamp(), timestamp);

    assert!(matches!(TimeLockInstruction::unpack(&[1]).unwrap(), TimeLockInstruction::TryUnlock));
    let opened = open_account(&program_id, &program_id, &account_data).unwrap();
    assert_eq!(still_locked(try_unlock(&opened, now())), timestamp);

    let timelock = TimeLockAccount::try_from_slice(&account_data)
        .expect("Failed to deserialize timelock data");
    assert_eq!(timelock.secret(), secret);
    assert_eq!(std::str::from_utf8(&timelock.secret()).unwrap().len(), 256);
}

#[test]
fn create_in_the_future_keeps_the_fields() {
    let mut secret = [0u8; SECRET_LENGTH];
    for (i, b) in secret.iter_mut().enumerate() {
        *b = i as u8;
    }
    let account = initialize_time_lock(100, 101, secret).unwrap();
    assert_eq!(account.timestamp(), 101);
    assert_eq!(account.secret(), secret);
}

#[test]
fn create_at_the_current_time_is_rejected() {
    let r = initialize_time_lock(100, 100, [65u8; SECRET_LENGTH]);
    assert_eq!(r.unwrap_err(), CreateError::TimestampNotInFuture);
}

#[test]
fn create_in_the_past_is_rejected() {
    for (now, timestamp) in [(100i64, 99i64), (0, -1), (i64::MAX, i64::MIN), (i64::MAX, i64::MAX)]
    {
        let r = initialize_time_lock(now, timestamp, [65u8; SECRET_LENGTH]);
        assert_eq!(r.unwrap_err(), CreateError::TimestampNotInFuture);
    }
}

#[test]
fn create_succeeds_at_the_ends_of_the_range() {
    assert!(initialize_time_lock(i64::MIN, i64::MIN + 1, [1u8; SECRET_LENGTH]).is_ok());
    assert!(initialize_time_lock(i64::MAX - 1, i64::MAX, [1u8; SECRET_LENGTH]).is_ok());
    assert!(initialize_time_lock(i64::MIN, i64::MAX, [1u8; SECRET_LENGTH]).is_ok());
    assert!(initialize_time_lock(-5, -4, [1u8; SECRET_LENGTH]).is_ok());
}

#[test]
fn create_does_not_ask_for_text() {
    let account = initialize_time_lock(0, 1, [0xFFu8; SECRET_LENGTH]).unwrap();
    assert_eq!(account.secret(), [0xFFu8; SECRET_LENGTH]);
}

#[test]
fn gate_opens_exactly_at_the_timestamp() {
    let secret = [b'g'; SECRET_LENGTH];
    let account = initialize_time_lock(0, 1000, secret).unwrap();
    assert_eq!(still_locked(try_unlock(&account, i64::MIN)), 1000);
    assert_eq!(still_locked(try_unlock(&account, 0)), 1000);
    assert_eq!(still_locked(try_unlock(&account, 999)), 1000);
    assert_eq!(disclosed(try_unlock(&account, 1000)), secret);
    assert_eq!(disclosed(try_unlock(&account, 1001)), secret);
    assert_eq!(disclosed(try_unlock(&account, i64::MAX)), secret);
}

#[test]
fn attempts_do_not_change_the_lock() {
    let secret = [b'h'; SECRET_LENGTH];
    let account = initialize_time_lock(0, 10, secret).unwrap();
    let before = account.serialize();
    let _ = try_unlock(&account, 5);
    let _ = try_unlock(&account, 15);
    assert_eq!(account.serialize(), before);
    assert_eq!(still_locked(try_unlock(&account, 5)), 10);
}

#[test]
fn scenario_create_then_unlock_after_five_seconds() {
    let now = now();
    let secret = [b'A'; SECRET_LENGTH];
    let account = initialize_time_lock(now, now + 5, secret).unwrap();
    assert_eq!(still_locked(try_unlock(&account, now)), now + 5);
    let got = disclosed(try_unlock(&account, now + 5));
    assert_eq!(got, [b'A'; SECRET_LENGTH]);
    assert_eq!(got.len(), 256);
}

#[test]
fn scenario_create_one_second_in_the_past_fails() {
    let now = now();
    let r = initialize_time_lock(now, now - 1, [b'A'; SECRET_LENGTH]);
    assert!(matches!(r, Err(CreateError::TimestampNotInFuture)));
    assert!(r.is_err());
}

#[test]
fn open_account_reads_the_stored_record() {
    let key = [9u8; KEY_LENGTH];
    let secret = [b'o'; SECRET_LENGTH];
    let data = initialize_time_lock(1, 2, secret).unwrap().serialize();
    let account = open_account(&key, &key, &data).unwrap();
    assert_eq!(account.timestamp(), 2);
    assert_eq!(account.secret(), secret);
}

#[test]
fn open_account_of_another_owner_is_refused() {
    let program_id = [9u8; KEY_LENGTH];
    let data = initialize_time_lock(1, 2, [b'o'; SECRET_LENGTH]).unwrap().serialize();
    for i in [0usize, 15, 31] {
        let mut owner = program_id;
        owner[i] ^= 1;
        assert_eq!(
            open_account(&program_id, &owner, &data).unwrap_err(),
            UnlockError::IncorrectOwner
        );
    }
}

#[test]
fn open_account_looks_at_the_owner_first() {
    let program_id = [9u8; KEY_LENGTH];
    let owner = [8u8; KEY_LENGTH];
    assert_eq!(open_account(&program_id, &owner, &[]).unwrap_err(), UnlockError::IncorrectOwner);
}

#[test]
fn open_account_of_bad_bytes_fails() {
    let key = [9u8; KEY_LENGTH];
    assert_eq!(open_account(&key, &key, &[]).unwrap_err(), UnlockError::DeserializationFailure);
    assert_eq!(
        open_account(&key, &key, &[0u8; 263]).unwrap_err(),
        UnlockError::DeserializationFailure
    );
    assert_eq!(
        open_account(&key, &key, &[0u8; 265]).unwrap_err(),
        UnlockError::DeserializationFailure
    );
    assert!(open_account(&key, &key, &[0u8; 264]).is_ok());
}

#[test]
fn whole_flow_through_the_wire_and_the_store() {
    let key = [1u8; KEY_LENGTH];
    let secret = [b'w'; SECRET_LENGTH];
    let sent = TimeLockInstruction::InitializeTimeLock { timestamp: 500, secret }.pack();
    let stored = match TimeLockInstruction::unpack(&sent).unwrap() {
        TimeLockInstruction::InitializeTimeLock { timestamp, secret } => {
            initialize_time_lock(100, timestamp, secret).unwrap().serialize()
        }
        TimeLockInstruction::TryUnlock => panic!("decoded the wrong instruction"),
    };
    assert_eq!(&stored[..], &sent[1..]);
    let account = open_account(&key, &key, &stored).unwrap();
    assert_eq!(still_locked(try_unlock(&account, 499)), 500);
    assert_eq!(disclosed(try_unlock(&account, 500)), secret);
}
