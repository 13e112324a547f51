//! Instructions and their wire format.
//!
//! The first byte of an instruction buffer is a tag. Tag 0 creates a lock and
//! is followed by the serialized form of the lock record to create: the
//! timestamp as eight little-endian bytes and the 256 bytes of the secret,
//! which must be UTF-8 text. Tag 1 attempts an unlock and takes no payload.

use crate::account::{
    account_bytes, lemma_parse_then_serialize, lemma_serialize_then_parse, parse_account, LockView,
    ACCOUNT_SPACE, SECRET_LENGTH,
};
use crate::error::{DecodeError, MalformedKind};
use crate::text::is_utf8;
use crate::wire::{i64_le_bytes, read_i64_le, write_i64_le};
use vstd::prelude::*;
use vstd::slice::slice_subrange;
use vstd::utf8::valid_utf8;

verus! {

/// Tag of the instruction that creates a lock.
pub const INITIALIZE_TAG: u8 = 0;

/// Tag of the instruction that attempts an unlock.
pub const TRY_UNLOCK_TAG: u8 = 1;

/// An operation on a time lock, as decoded from an instruction buffer.
#[derive(Debug)]
pub enum TimeLockInstruction {
    /// Create a lock that discloses `secret` from `timestamp` on.
    InitializeTimeLock { timestamp: i64, secret: [u8; SECRET_LENGTH] },
    /// Ask for the secret of an existing lock.
    TryUnlock,
}

/// What an instruction holds.
pub enum InstructionView {
    InitializeTimeLock(LockView),
    TryUnlock,
}

impl View for TimeLockInstruction {
    type V = InstructionView;

    open spec fn view(&self) -> InstructionView {
        match *self {
            TimeLockInstruction::InitializeTimeLock { timestamp, secret } => {
                InstructionView::InitializeTimeLock(LockView { timestamp, secret: secret@ })
            },
            TimeLockInstruction::TryUnlock => InstructionView::TryUnlock,
        }
    }
}

/// The instruction that a buffer holds, or what is wrong with the buffer.
pub open spec fn decode(input: Seq<u8>) -> Result<InstructionView, DecodeError> {
    if input.len() == 0 {
        Err(DecodeError::Malformed(MalformedKind::InstructionData))
    } else if input[0] == TRY_UNLOCK_TAG {
        Ok(InstructionView::TryUnlock)
    } else if input[0] == INITIALIZE_TAG {
        match parse_account(input.skip(1)) {
            None => Err(DecodeError::Malformed(MalformedKind::InstructionData)),
            Some(lock) => if valid_utf8(lock.secret) {
                Ok(InstructionView::InitializeTimeLock(lock))
            } else {
                Err(DecodeError::Malformed(MalformedKind::SecretNotUtf8))
            },
        }
    } else {
        Err(DecodeError::Malformed(MalformedKind::InstructionData))
    }
}

/// The buffer that holds an instruction.
pub open spec fn encode(instruction: InstructionView) -> Seq<u8> {
    match instruction {
        InstructionView::InitializeTimeLock(lock) => seq![INITIALIZE_TAG] + account_bytes(lock),
        InstructionView::TryUnlock => seq![TRY_UNLOCK_TAG],
    }
}

/// Whether `input` has the wire format of the instruction that creates a
/// lock: 265 bytes, of which the first is the tag 0 and the last 256 are
/// UTF-8 text.
pub open spec fn is_initialize_buffer(input: Seq<u8>) -> bool {
    &&& input.len() == 1 + ACCOUNT_SPACE
    &&& input[0] == INITIALIZE_TAG
    &&& valid_utf8(input.subrange(9, 1 + ACCOUNT_SPACE))
}

/// A buffer in the wire format of the creating instruction decodes, and the
/// decoded instruction encodes to the same buffer, so that the 264 bytes of
/// payload come back unchanged.
pub proof fn lemma_decode_then_encode(input: Seq<u8>)
    requires
        is_initialize_buffer(input),
    ensures
        decode(input) matches Ok(instruction) && instruction is InitializeTimeLock && encode(
            instruction,
        ) == input,
        decode(input) matches Ok(InstructionView::InitializeTimeLock(lock)) && account_bytes(lock)
            == input.skip(1),
{
    let payload = input.skip(1);
    lemma_parse_then_serialize(payload);
    assert(payload.subrange(8, ACCOUNT_SPACE as int) =~= input.subrange(9, 1 + ACCOUNT_SPACE));
    let lock = parse_account(payload)->Some_0;
    assert(seq![INITIALIZE_TAG] + account_bytes(lock) =~= input);
}

/// An encoded instruction decodes to the instruction that was encoded,
/// provided that it is one that decoding can give: a creating instruction
/// whose secret is 256 bytes of UTF-8 text, or an unlock attempt.
pub proof fn lemma_encode_then_decode(instruction: InstructionView)
    requires
        instruction matches InstructionView::InitializeTimeLock(lock) ==> lock.secret.len()
            == SECRET_LENGTH && valid_utf8(lock.secret),
    ensures
        decode(encode(instruction)) == Ok::<InstructionView, DecodeError>(instruction),
{
    match instruction {
        InstructionView::InitializeTimeLock(lock) => {
            lemma_serialize_then_parse(lock);
            assert(encode(instruction).skip(1) =~= account_bytes(lock));
        },
        InstructionView::TryUnlock => {},
    }
}

/// Only the buffers in the wire format of the creating instruction decode to
/// a creating instruction, and only the buffers that start with the tag 1
/// decode to an unlock attempt. Every other buffer is malformed.
pub proof fn lemma_decode_succeeds_iff(input: Seq<u8>)
    ensures
        decode(input) matches Ok(InstructionView::InitializeTimeLock(_)) <==> is_initialize_buffer(
            input,
        ),
        decode(input) matches Ok(InstructionView::TryUnlock) <==> input.len() > 0 && input[0]
            == TRY_UNLOCK_TAG,
        decode(input) is Err <==> !is_initialize_buffer(input) && !(input.len() > 0 && input[0]
            == TRY_UNLOCK_TAG),
{
    if input.len() == 1 + ACCOUNT_SPACE {
        assert(input.skip(1).subrange(8, ACCOUNT_SPACE as int) =~= input.subrange(
            9,
            1 + ACCOUNT_SPACE,
        ));
    }
}

/// A buffer with a tag other than 0 and 1 is malformed, whatever follows.
pub proof fn lemma_unknown_tag_is_malformed(input: Seq<u8>)
    requires
        input.len() > 0,
        input[0] != INITIALIZE_TAG,
        input[0] != TRY_UNLOCK_TAG,
    ensures
        decode(input) == Err::<InstructionView, DecodeError>(
            DecodeError::Malformed(MalformedKind::InstructionData),
        ),
{
}

/// A buffer with the tag 0 and a length other than 265 is malformed.
pub proof fn lemma_wrong_length_is_malformed(input: Seq<u8>)
    requires
        input.len() > 0,
        input[0] == INITIALIZE_TAG,
        input.len() != 1 + ACCOUNT_SPACE,
    ensures
        decode(input) == Err::<InstructionView, DecodeError>(
            DecodeError::Malformed(MalformedKind::InstructionData),
        ),
{
}

/// A buffer with the tag 0 and the right length whose secret is not UTF-8
/// text is malformed.
pub proof fn lemma_secret_not_utf8_is_malformed(input: Seq<u8>)
    requires
        input.len() == 1 + ACCOUNT_SPACE,
        input[0] == INITIALIZE_TAG,
        !valid_utf8(input.subrange(9, 1 + ACCOUNT_SPACE)),
    ensures
        decode(input) == Err::<InstructionView, DecodeError>(
            DecodeError::Malformed(MalformedKind::SecretNotUtf8),
        ),
{
    assert(input.skip(1).subrange(8, ACCOUNT_SPACE as int) =~= input.subrange(
        9,
        1 + ACCOUNT_SPACE,
    ));
}

/// Copies the 256 bytes of a secret out of a buffer.
fn secret_from_slice(bytes: &[u8]) -> (secret: [u8; SECRET_LENGTH])
    requires
        bytes@.len() == SECRET_LENGTH,
    ensures
        secret@ == bytes@,
{
    let mut secret: [u8; SECRET_LENGTH] = [0u8;SECRET_LENGTH];
    let mut i: usize = 0;
    while i < SECRET_LENGTH
        invariant
            i <= SECRET_LENGTH,
            bytes@.len() == SECRET_LENGTH,
            forall|j: int| 0 <= j < i ==> secret@[j] == bytes@[j],
        decreases SECRET_LENGTH - i,
    {
        secret[i] = bytes[i];
        i += 1;
    }
    assert(secret@ =~= bytes@);
    secret
}

impl TimeLockInstruction {
    /// Decodes an instruction buffer.
    pub fn unpack(input: &[u8]) -> (r: Result<Self, DecodeError>)
        ensures
            match r {
                Ok(instruction) => decode(input@) == Ok::<InstructionView, DecodeError>(
                    instruction@,
                ),
                Err(e) => decode(input@) == Err::<InstructionView, DecodeError>(e),
            },
    {
        if input.len() == 0 {
            return Err(DecodeError::Malformed(MalformedKind::InstructionData));
        }
        let tag: u8 = input[0];
        if tag == TRY_UNLOCK_TAG {
            return Ok(TimeLockInstruction::TryUnlock);
        }
        if tag != INITIALIZE_TAG || input.len() != 1 + ACCOUNT_SPACE {
            return Err(DecodeError::Malformed(MalformedKind::InstructionData));
        }
        let timestamp: i64 = read_i64_le(slice_subrange(input, 1, 9));
        let secret = secret_from_slice(slice_subrange(input, 9, 1 + ACCOUNT_SPACE));
        proof {
            let rest = input@.skip(1);
            assert(rest.subrange(0, 8) =~= input@.subrange(1, 9));
            assert(rest.subrange(8, ACCOUNT_SPACE as int) =~= input@.subrange(9, 265));
        }
        if !is_utf8(secret.as_slice()) {
            return Err(DecodeError::Malformed(MalformedKind::SecretNotUtf8));
        }
        Ok(TimeLockInstruction::InitializeTimeLock { timestamp, secret })
    }

    /// Encodes the instruction as an instruction buffer.
    pub fn pack(&self) -> (bytes: Vec<u8>)
        ensures
            bytes@ == encode(self@),
    {
        match self {
            TimeLockInstruction::InitializeTimeLock { timestamp, secret } => {
                let mut bytes: Vec<u8> = Vec::new();
                bytes.push(INITIALIZE_TAG);
                let mut stamp = write_i64_le(*timestamp);
                bytes.append(&mut stamp);
                let mut i: usize = 0;
                while i < SECRET_LENGTH
                    invariant
                        i <= SECRET_LENGTH,
                        bytes@ == seq![INITIALIZE_TAG] + i64_le_bytes(*timestamp)
                            + secret@.subrange(0, i as int),
                    decreases SECRET_LENGTH - i,
                {
                    bytes.push(secret[i]);
                    i += 1;
                }
                assert(secret@.subrange(0, SECRET_LENGTH as int) =~= secret@);
                assert(bytes@ =~= encode(self@));
                bytes
            },
            TimeLockInstruction::TryUnlock => {
                let mut bytes: Vec<u8> = Vec::new();
                bytes.push(TRY_UNLOCK_TAG);
                bytes
            },
        }
    }
}

} // verus!
