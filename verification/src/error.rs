//! Why an operation was refused.

use vstd::prelude::*;

verus! {

/// The reason an operation was refused. A refused operation changes nothing.
#[derive(Debug, Clone, Copy, PartialEq, Eq, Structural)]
pub enum TimeCapsuleError {
    /// The unlock time is not after the time of creation.
    InvalidUnlockTime,
    /// The encrypted message is longer than [`crate::capsule::MAX_MESSAGE_LEN`] bytes.
    MessageTooLong,
    /// The password hint is longer than [`crate::capsule::MAX_HINT_LEN`] bytes.
    HintTooLong,
    /// The title is longer than [`crate::capsule::MAX_TITLE_LEN`] bytes.
    TitleTooLong,
    /// The unlock time has not come yet.
    StillLocked,
    /// The password hash is not the one stored in the capsule.
    InvalidPassword,
    /// The treasury named in the call is not the configured one.
    InvalidTreasury,
    /// The caller is not the authority of the configuration.
    UnauthorizedAccess,
    /// The recipient hash is not [`crate::capsule::HASH_LEN`] bytes long.
    InvalidEmailHash,
    /// The password hash is not [`crate::capsule::HASH_LEN`] bytes long.
    InvalidPasswordHash,
    /// A configuration exists already.
    AlreadyInitialized,
}

} // verus!
