//! Creating a capsule: the rules that a request must keep, and the fee that
//! must be paid before the capsule exists.

use crate::capsule::{
    byte_len, TimeCapsule, TimeCapsuleView, CAPSULE_FIXED_SPACE, HASH_LEN, MAX_HINT_LEN,
    MAX_MESSAGE_LEN, MAX_TITLE_LEN,
};
use crate::config::Config;
use crate::error::TimeCapsuleError;
use crate::events::TimeCapsuleCreated;
use crate::keys::same_key;
use anchor_lang::prelude::Pubkey;
use vstd::prelude::*;

verus! {

/// A payment that the ledger is to make, whole or not at all.
#[derive(Debug, Clone, PartialEq, Eq)]
pub struct FeeTransfer {
    /// Who pays.
    pub from: Pubkey,
    /// Who is paid.
    pub to: Pubkey,
    /// How much.
    pub lamports: u64,
}

/// A capsule that has passed every rule and waits for its fee. Nothing of it
/// exists on the ledger yet: the ledger makes the payment `fee` first and
/// reports how that went to [`PendingCapsule::settle`], which alone gives the
/// record to store and the event to publish.
#[derive(Debug, Clone, PartialEq, Eq)]
pub struct PendingCapsule {
    /// The payment to make before anything is stored.
    pub fee: FeeTransfer,
    /// Bytes to set aside for the record.
    pub space: usize,
    /// The record to store once the fee is paid.
    pub time_capsule: TimeCapsule,
    /// The event to publish once the record is stored.
    pub event: TimeCapsuleCreated,
}

/// The capsule that a request asks for, as it would be stored at time `now`.
pub open spec fn requested_capsule(
    encrypted_message: Seq<char>,
    unlock_timestamp: i64,
    recipient_email_hash: Seq<char>,
    password_hash: Seq<char>,
    password_hint: Seq<char>,
    message_title: Seq<char>,
    sender: Pubkey,
    now: i64,
) -> TimeCapsuleView {
    TimeCapsuleView {
        sender,
        encrypted_message,
        unlock_timestamp,
        recipient_email_hash,
        password_hash,
        password_hint,
        message_title,
        created_at: now,
        is_claimed: false,
    }
}

/// Why the request for the capsule `requested`, with its fee going to
/// `treasury`, is refused under `config`, or `None` if it is granted. The
/// rules of the capsule's shape come first, in their order; the treasury is
/// tested last.
pub open spec fn creation_error(
    requested: TimeCapsuleView,
    treasury: Pubkey,
    config: Config,
) -> Option<TimeCapsuleError> {
    match requested.first_violation() {
        Some(error) => Some(error),
        None => if treasury != config.treasury {
            Some(TimeCapsuleError::InvalidTreasury)
        } else {
            None
        },
    }
}

/// The fee for one capsule under `config`, paid by `sender`.
pub open spec fn creation_fee(sender: Pubkey, config: Config) -> FeeTransfer {
    FeeTransfer { from: sender, to: config.treasury, lamports: config.price }
}

/// Decides on the request of `sender`, made at time `now`, for a capsule that
/// the ledger would store under `capsule_id`.
///
/// The request is refused with the first rule it breaks: the unlock time must
/// be after `now`; message, hint and title must keep to their lengths; both
/// hashes must have the length of a digest; `treasury` must be the configured
/// one. A request that breaks none is granted: the result names the fee, which
/// is the configured price at this moment, from the sender to the treasury,
/// and holds the capsule, unclaimed and made at `now`, for when the fee is
/// paid.
pub fn create_time_capsule(
    encrypted_message: String,
    unlock_timestamp: i64,
    recipient_email_hash: String,
    password_hash: String,
    password_hint: String,
    message_title: String,
    sender: Pubkey,
    treasury: Pubkey,
    capsule_id: Pubkey,
    config: &Config,
    now: i64,
) -> (decision: Result<PendingCapsule, TimeCapsuleError>)
    ensures
        ({
            let requested = requested_capsule(
                encrypted_message@,
                unlock_timestamp,
                recipient_email_hash@,
                password_hash@,
                password_hint@,
                message_title@,
                sender,
                now,
            );
            match creation_error(requested, treasury, *config) {
                Some(error) => decision == Err::<PendingCapsule, TimeCapsuleError>(error),
                None => {
                    &&& decision matches Ok(pending)
                    &&& pending.fee == creation_fee(sender, *config)
                    &&& pending.space == requested.space()
                    &&& pending.time_capsule@ == requested
                    &&& pending.time_capsule@.well_formed()
                    &&& pending.event == (TimeCapsuleCreated {
                        capsule_id,
                        sender,
                        unlock_timestamp,
                        created_at: now,
                    })
                },
            }
        }),
{
    if unlock_timestamp <= now {
        return Err(TimeCapsuleError::InvalidUnlockTime);
    }
    let message_len = byte_len(&encrypted_message);
    if message_len > MAX_MESSAGE_LEN {
        return Err(TimeCapsuleError::MessageTooLong);
    }
    let hint_len = byte_len(&password_hint);
    if hint_len > MAX_HINT_LEN {
        return Err(TimeCapsuleError::HintTooLong);
    }
    let title_len = byte_len(&message_title);
    if title_len > MAX_TITLE_LEN {
        return Err(TimeCapsuleError::TitleTooLong);
    }
    if byte_len(&recipient_email_hash) != HASH_LEN {
        return Err(TimeCapsuleError::InvalidEmailHash);
    }
    if byte_len(&password_hash) != HASH_LEN {
        return Err(TimeCapsuleError::InvalidPasswordHash);
    }
    if !same_key(&treasury, &config.treasury) {
        return Err(TimeCapsuleError::InvalidTreasury);
    }
    let space = CAPSULE_FIXED_SPACE + message_len + hint_len + title_len;
    Ok(
        PendingCapsule {
            fee: FeeTransfer { from: sender, to: treasury, lamports: config.price },
            space,
            time_capsule: TimeCapsule {
                sender,
                encrypted_message,
                unlock_timestamp,
                recipient_email_hash,
                password_hash,
                password_hint,
                message_title,
                created_at: now,
                is_claimed: false,
            },
            event: TimeCapsuleCreated { capsule_id, sender, unlock_timestamp, created_at: now },
        },
    )
}

impl PendingCapsule {
    /// Concludes the creation once the ledger has tried to make the payment
    /// `fee`. If the payment was made, the capsule is to be stored and the
    /// event published. If it failed, the creation fails with the ledger's
    /// own error and nothing is to be stored.
    pub fn settle<E>(self, payment: Result<(), E>) -> (created: Result<
        (TimeCapsule, TimeCapsuleCreated),
        E,
    >)
        ensures
            (match payment {
                Ok(_) => created == Ok::<(TimeCapsule, TimeCapsuleCreated), E>(
                    (self.time_capsule, self.event),
                ),
                Err(failure) => created == Err::<(TimeCapsule, TimeCapsuleCreated), E>(failure),
            }),
    {
        match payment {
            Ok(_) => Ok((self.time_capsule, self.event)),
            Err(failure) => Err(failure),
        }
    }
}

} // verus!
