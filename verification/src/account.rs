//! The persisted lock record and its serialized form.

use crate::error::UnlockError;
use crate::wire::{i64_from_le_bytes, i64_le_bytes, lemma_i64_read_write, lemma_i64_write_read};
use vstd::prelude::*;

verus! {

/// Number of bytes in a secret.
pub const SECRET_LENGTH: usize = 256;

/// Number of bytes in a serialized lock record: the timestamp, then the secret.
pub const ACCOUNT_SPACE: usize = 8 + SECRET_LENGTH;

/// What a lock record holds: the time from which the secret is disclosed, in
/// seconds since the epoch, and the secret.
pub struct LockView {
    pub timestamp: i64,
    pub secret: Seq<u8>,
}

/// The serialized form of a lock record: the timestamp as eight little-endian
/// bytes, followed by the secret.
pub open spec fn account_bytes(lock: LockView) -> Seq<u8> {
    i64_le_bytes(lock.timestamp) + lock.secret
}

/// The lock record that `data` is the serialized form of, if it is one.
pub open spec fn parse_account(data: Seq<u8>) -> Option<LockView> {
    if data.len() == ACCOUNT_SPACE {
        Some(
            LockView {
                timestamp: i64_from_le_bytes(data.subrange(0, 8)),
                secret: data.subrange(8, ACCOUNT_SPACE as int),
            },
        )
    } else {
        None
    }
}

/// A serialized record is read back as the record that was serialized.
pub proof fn lemma_serialize_then_parse(lock: LockView)
    requires
        lock.secret.len() == SECRET_LENGTH,
    ensures
        account_bytes(lock).len() == ACCOUNT_SPACE,
        parse_account(account_bytes(lock)) == Some(lock),
{
    lemma_i64_write_read(lock.timestamp);
    let data = account_bytes(lock);
    assert(data.subrange(0, 8) =~= i64_le_bytes(lock.timestamp));
    assert(data.subrange(8, ACCOUNT_SPACE as int) =~= lock.secret);
}

/// Stored bytes that are read as a record are the serialized form of that
/// record, so no two byte strings hold the same record.
pub proof fn lemma_parse_then_serialize(data: Seq<u8>)
    requires
        data.len() == ACCOUNT_SPACE,
    ensures
        parse_account(data) matches Some(lock) && account_bytes(lock) == data
            && lock.secret.len() == SECRET_LENGTH,
{
    lemma_i64_read_write(data.subrange(0, 8));
    let lock = parse_account(data)->Some_0;
    assert(account_bytes(lock) =~= data);
}

/// The persisted state of one lock. A record is made by creating a lock or by
/// reading stored bytes, and is never changed afterwards.
#[derive(Debug)]
pub struct TimeLockAccount {
    timestamp: i64,
    secret: [u8; SECRET_LENGTH],
}

impl View for TimeLockAccount {
    type V = LockView;

    closed spec fn view(&self) -> LockView {
        LockView { timestamp: self.timestamp, secret: self.secret@ }
    }
}

/// `std::io::Error`, the error of the serialization calls, of which nothing
/// is read.
#[verifier::external_type_specification]
#[verifier::external_body]
pub struct ExIoError(std::io::Error);

/// `borsh::to_vec` on a pair of a 64-bit signed integer and a 256-byte array.
/// It writes into a fresh vector, which cannot fail, the integer as eight
/// little-endian bytes and then the bytes of the array, with no length prefix.
#[verifier::external_body]
fn borsh_to_vec(timestamp: i64, secret: &[u8; SECRET_LENGTH]) -> (r: Result<
    Vec<u8>,
    std::io::Error,
>)
    ensures
        r is Ok,
        r matches Ok(bytes) ==> bytes@ == i64_le_bytes(timestamp) + secret@,
{
    borsh::to_vec(&(timestamp, *secret))
}

/// `borsh::BorshDeserialize::try_from_slice` for a pair of a 64-bit signed
/// integer and a 256-byte array. It reads eight little-endian bytes, then 256
/// bytes, and fails unless the input ends exactly there.
#[verifier::external_body]
fn borsh_try_from_slice(data: &[u8]) -> (r: Result<(i64, [u8; SECRET_LENGTH]), std::io::Error>)
    ensures
        r is Ok <==> data@.len() == 264,
        r matches Ok(pair) ==> pair.0 == i64_from_le_bytes(data@.subrange(0, 8)) && pair.1@
            == data@.subrange(8, 264),
{
    borsh::BorshDeserialize::try_from_slice(data)
}

impl TimeLockAccount {
    /// A record with the given fields.
    pub(crate) fn new(timestamp: i64, secret: [u8; SECRET_LENGTH]) -> (account: Self)
        ensures
            account@ == (LockView { timestamp, secret: secret@ }),
    {
        TimeLockAccount { timestamp, secret }
    }

    /// The secret of a record is `SECRET_LENGTH` bytes long.
    pub proof fn lemma_secret_length(&self)
        ensures
            self@.secret.len() == SECRET_LENGTH,
    {
    }

    /// The time from which the secret is disclosed, in seconds since the epoch.
    pub fn timestamp(&self) -> (timestamp: i64)
        ensures
            timestamp == self@.timestamp,
    {
        self.timestamp
    }

    /// The secret.
    pub fn secret(&self) -> (secret: [u8; SECRET_LENGTH])
        ensures
            secret@ == self@.secret,
    {
        self.secret
    }

    /// The serialized form of the record, `ACCOUNT_SPACE` bytes long.
    pub fn serialize(&self) -> (bytes: Vec<u8>)
        ensures
            bytes@ == account_bytes(self@),
            bytes@.len() == ACCOUNT_SPACE,
    {
        match borsh_to_vec(self.timestamp, &self.secret) {
            Ok(bytes) => bytes,
            Err(_) => vstd::pervasive::unreached(),
        }
    }

    /// Reads a record from its serialized form. Bytes of any other length than
    /// `ACCOUNT_SPACE` are no record.
    pub fn try_from_slice(data: &[u8]) -> (r: Result<Self, UnlockError>)
        ensures
            match r {
                Ok(account) => parse_account(data@) == Some(account@),
                Err(e) => parse_account(data@) is None && e == UnlockError::DeserializationFailure,
            },
    {
        match borsh_try_from_slice(data) {
            Ok(pair) => Ok(TimeLockAccount { timestamp: pair.0, secret: pair.1 }),
            Err(_) => Err(UnlockError::DeserializationFailure),
        }
    }
}

} // verus!
