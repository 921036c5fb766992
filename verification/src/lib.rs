//! Rules of a time-locked, password-gated escrow for encrypted messages.
//!
//! A sender deposits an opaque ciphertext with an unlock time, a hash naming
//! the recipient and a hash of the unlock password, and pays a fee to a
//! treasury. Once the unlock time has come, whoever presents the password hash
//! may read the ciphertext and mark the capsule as claimed.
//!
//! Every function here is a pure decision on plain values: the ledger that
//! stores records, moves lamports, tells the time and publishes events is the
//! caller's business. A function that needs the ledger to act says so in what
//! it returns.

pub mod capsule;
pub mod config;
pub mod creation;
pub mod error;
pub mod events;
pub mod keys;
pub mod laws;

pub use anchor_lang::prelude::Pubkey;
pub use capsule::{
    capsule_space, get_capsule_info, get_user_capsules, mark_as_claimed, retrieve_message,
    CapsuleInfo, TimeCapsule, UserCapsuleInfo,
};
pub use config::{initialize_config, update_price, Config};
pub use creation::{create_time_capsule, FeeTransfer, PendingCapsule};
pub use error::TimeCapsuleError;
pub use events::{TimeCapsuleClaimed, TimeCapsuleCreated};
