//! A time-locked secret store: a secret is committed together with an unlock
//! timestamp and is disclosed only once the clock has reached that timestamp.
//!
//! [`instruction`] decodes the tagged instruction buffers, [`processor`]
//! holds the lock state machine, and [`account`] the persisted record with
//! its serialized form.

pub mod account;
pub mod error;
pub mod instruction;
pub mod processor;
pub mod text;
pub mod wire;

pub use account::{TimeLockAccount, ACCOUNT_SPACE, SECRET_LENGTH};
pub use error::{CreateError, DecodeError, MalformedKind, UnlockError};
pub use instruction::TimeLockInstruction;
pub use processor::{initialize_time_lock, open_account, try_unlock, UnlockOutcome};
