//! The capsule record, its public projection, and the operations on a stored
//! capsule: reading the message, marking it as claimed, describing it.
//!
//! Every limit on a text is on its length in bytes in UTF-8: that is what the
//! record stores and what the ledger charges for. For a digest written in
//! hexadecimal, bytes and characters are one.

use crate::error::TimeCapsuleError;
use crate::events::TimeCapsuleClaimed;
use anchor_lang::prelude::Pubkey;
use vstd::prelude::*;
use vstd::utf8::encode_utf8;

verus! {

/// Most bytes an encrypted message may have.
pub const MAX_MESSAGE_LEN: usize = 5000;

/// Most bytes a password hint may have.
pub const MAX_HINT_LEN: usize = 500;

/// Most bytes a title may have.
pub const MAX_TITLE_LEN: usize = 200;

/// Bytes of a SHA-256 digest written in hexadecimal.
pub const HASH_LEN: usize = 64;

/// Bytes in front of every stored record that tell its kind.
pub const DISCRIMINATOR_SPACE: usize = 8;

/// Bytes a stored key takes.
pub const PUBKEY_SPACE: usize = 32;

/// Bytes a stored timestamp takes.
pub const TIMESTAMP_SPACE: usize = 8;

/// Bytes in front of every stored string that tell its length.
pub const STRING_PREFIX_SPACE: usize = 4;

/// Bytes a stored flag takes.
pub const FLAG_SPACE: usize = 1;

/// Length in bytes of a text in UTF-8, the measure of every limit here.
pub open spec fn utf8_len(text: Seq<char>) -> nat {
    encode_utf8(text).len()
}

/// Bytes that the record of a capsule takes whatever its texts hold: the
/// discriminator, the sender, two timestamps, the flag, the length prefix of
/// each of the five texts, and both hashes at their fixed length.
pub const CAPSULE_FIXED_SPACE: usize = DISCRIMINATOR_SPACE + PUBKEY_SPACE + STRING_PREFIX_SPACE
    + TIMESTAMP_SPACE + STRING_PREFIX_SPACE + HASH_LEN + STRING_PREFIX_SPACE + HASH_LEN
    + STRING_PREFIX_SPACE + STRING_PREFIX_SPACE + TIMESTAMP_SPACE + FLAG_SPACE;

/// Bytes that the record of a capsule takes, given the lengths in bytes of its
/// message, its hint and its title.
pub open spec fn capsule_space_of(message_len: nat, hint_len: nat, title_len: nat) -> nat {
    CAPSULE_FIXED_SPACE as nat + message_len + hint_len + title_len
}

/// An escrowed message with its time lock and its password gate.
#[derive(Debug, Clone, PartialEq, Eq)]
pub struct TimeCapsule {
    pub sender: Pubkey,
    pub encrypted_message: String,
    pub unlock_timestamp: i64,
    pub recipient_email_hash: String,
    pub password_hash: String,
    pub password_hint: String,
    pub message_title: String,
    pub created_at: i64,
    pub is_claimed: bool,
}

/// A capsule as a mathematical value.
pub struct TimeCapsuleView {
    pub sender: Pubkey,
    pub encrypted_message: Seq<char>,
    pub unlock_timestamp: i64,
    pub recipient_email_hash: Seq<char>,
    pub password_hash: Seq<char>,
    pub password_hint: Seq<char>,
    pub message_title: Seq<char>,
    pub created_at: i64,
    pub is_claimed: bool,
}

impl View for TimeCapsule {
    type V = TimeCapsuleView;

    open spec fn view(&self) -> TimeCapsuleView {
        TimeCapsuleView {
            sender: self.sender,
            encrypted_message: self.encrypted_message@,
            unlock_timestamp: self.unlock_timestamp,
            recipient_email_hash: self.recipient_email_hash@,
            password_hash: self.password_hash@,
            password_hint: self.password_hint@,
            message_title: self.message_title@,
            created_at: self.created_at,
            is_claimed: self.is_claimed,
        }
    }
}

impl TimeCapsuleView {
    /// The first rule of a capsule's shape that this one breaks, in the order
    /// in which creation tests them, or `None` if it breaks none.
    pub open spec fn first_violation(self) -> Option<TimeCapsuleError> {
        if self.unlock_timestamp <= self.created_at {
            Some(TimeCapsuleError::InvalidUnlockTime)
        } else if utf8_len(self.encrypted_message) > MAX_MESSAGE_LEN {
            Some(TimeCapsuleError::MessageTooLong)
        } else if utf8_len(self.password_hint) > MAX_HINT_LEN {
            Some(TimeCapsuleError::HintTooLong)
        } else if utf8_len(self.message_title) > MAX_TITLE_LEN {
            Some(TimeCapsuleError::TitleTooLong)
        } else if utf8_len(self.recipient_email_hash) != HASH_LEN {
            Some(TimeCapsuleError::InvalidEmailHash)
        } else if utf8_len(self.password_hash) != HASH_LEN {
            Some(TimeCapsuleError::InvalidPasswordHash)
        } else {
            None
        }
    }

    /// What holds of every capsule that creation has made: it unlocks after it
    /// was made, and each text keeps to its length.
    pub open spec fn well_formed(self) -> bool {
        &&& self.unlock_timestamp > self.created_at
        &&& utf8_len(self.encrypted_message) <= MAX_MESSAGE_LEN
        &&& utf8_len(self.password_hint) <= MAX_HINT_LEN
        &&& utf8_len(self.message_title) <= MAX_TITLE_LEN
        &&& utf8_len(self.recipient_email_hash) == HASH_LEN
        &&& utf8_len(self.password_hash) == HASH_LEN
    }

    /// Bytes that the record of this capsule takes.
    pub open spec fn space(self) -> nat {
        capsule_space_of(
            utf8_len(self.encrypted_message),
            utf8_len(self.password_hint),
            utf8_len(self.message_title),
        )
    }

    /// Why the message is withheld from whoever presents `password_hash` at
    /// time `now`, or `None` if it is released. The lock is tested before the
    /// password, so that a wrong password learns nothing from a locked capsule.
    pub open spec fn refusal(self, password_hash: Seq<char>, now: i64) -> Option<TimeCapsuleError> {
        if now < self.unlock_timestamp {
            Some(TimeCapsuleError::StillLocked)
        } else if password_hash != self.password_hash {
            Some(TimeCapsuleError::InvalidPassword)
        } else {
            None
        }
    }

    /// The capsule once it has been marked as claimed.
    pub open spec fn claimed(self) -> TimeCapsuleView {
        TimeCapsuleView { is_claimed: true, ..self }
    }

    /// The capsule after an attempt to mark it as claimed.
    pub open spec fn after_claim(self, password_hash: Seq<char>, now: i64) -> TimeCapsuleView {
        if self.refusal(password_hash, now) is None {
            self.claimed()
        } else {
            self
        }
    }

    /// What anyone may know of the capsule, locked or not.
    pub open spec fn info(self) -> CapsuleInfoView {
        CapsuleInfoView {
            sender: self.sender,
            unlock_timestamp: self.unlock_timestamp,
            password_hint: self.password_hint,
            message_title: self.message_title,
            created_at: self.created_at,
            is_claimed: self.is_claimed,
        }
    }
}

/// The public description of a capsule. It holds neither the message nor
/// either hash.
#[derive(Debug, Clone, PartialEq, Eq)]
pub struct CapsuleInfo {
    pub sender: Pubkey,
    pub unlock_timestamp: i64,
    pub password_hint: String,
    pub message_title: String,
    pub created_at: i64,
    pub is_claimed: bool,
}

/// A public description as a mathematical value.
pub struct CapsuleInfoView {
    pub sender: Pubkey,
    pub unlock_timestamp: i64,
    pub password_hint: Seq<char>,
    pub message_title: Seq<char>,
    pub created_at: i64,
    pub is_claimed: bool,
}

impl View for CapsuleInfo {
    type V = CapsuleInfoView;

    open spec fn view(&self) -> CapsuleInfoView {
        CapsuleInfoView {
            sender: self.sender,
            unlock_timestamp: self.unlock_timestamp,
            password_hint: self.password_hint@,
            message_title: self.message_title@,
            created_at: self.created_at,
            is_claimed: self.is_claimed,
        }
    }
}

/// One line of a sender's list of capsules.
#[derive(Debug, Clone, PartialEq, Eq)]
pub struct UserCapsuleInfo {
    pub capsule_id: Pubkey,
    pub unlock_timestamp: i64,
    pub message_title: String,
    pub is_claimed: bool,
}

/// Length of a text in bytes.
pub(crate) fn byte_len(text: &String) -> (len: usize)
    ensures
        len == utf8_len(text@),
{
    text.as_str().as_bytes().len()
}

/// Bytes to set aside for the record of a capsule whose message, hint and
/// title have the given lengths in bytes. `None` where the sum is beyond
/// `usize`.
pub fn capsule_space(message_len: usize, hint_len: usize, title_len: usize) -> (space: Option<
    usize,
>)
    ensures
        capsule_space_of(message_len as nat, hint_len as nat, title_len as nat) <= usize::MAX
            ==> space == Some(
            capsule_space_of(message_len as nat, hint_len as nat, title_len as nat) as usize,
        ),
        capsule_space_of(message_len as nat, hint_len as nat, title_len as nat) > usize::MAX
            ==> space is None,
{
    match CAPSULE_FIXED_SPACE.checked_add(message_len) {
        None => None,
        Some(with_message) => match with_message.checked_add(hint_len) {
            None => None,
            Some(with_hint) => with_hint.checked_add(title_len),
        },
    }
}

/// Hands out the encrypted message to whoever presents the password hash once
/// the unlock time has come. Reads only: it may be called any number of times,
/// claimed or not.
pub fn retrieve_message(
    password_hash: String,
    time_capsule: &TimeCapsule,
    now: i64,
) -> (message: Result<String, TimeCapsuleError>)
    ensures
        (match time_capsule@.refusal(password_hash@, now) {
            Some(error) => message == Err::<String, TimeCapsuleError>(error),
            None => message matches Ok(text) && text@ == time_capsule@.encrypted_message,
        }),
{
    if now < time_capsule.unlock_timestamp {
        return Err(TimeCapsuleError::StillLocked);
    }
    if password_hash != time_capsule.password_hash {
        return Err(TimeCapsuleError::InvalidPassword);
    }
    Ok(time_capsule.encrypted_message.clone())
}

/// Marks the capsule `capsule_id` as claimed for whoever presents the password
/// hash once the unlock time has come, and returns the event to publish. It
/// does not ask whether the capsule was claimed before: a second claim
/// succeeds as the first did and leaves the capsule claimed.
pub fn mark_as_claimed(
    password_hash: String,
    time_capsule: &mut TimeCapsule,
    capsule_id: Pubkey,
    now: i64,
) -> (claim: Result<TimeCapsuleClaimed, TimeCapsuleError>)
    ensures
        final(time_capsule)@ == old(time_capsule)@.after_claim(password_hash@, now),
        old(time_capsule)@.well_formed() ==> final(time_capsule)@.well_formed(),
        (match old(time_capsule)@.refusal(password_hash@, now) {
            Some(error) => claim == Err::<TimeCapsuleClaimed, TimeCapsuleError>(error),
            None => claim == Ok::<TimeCapsuleClaimed, TimeCapsuleError>(
                (TimeCapsuleClaimed { capsule_id, claimed_at: now }),
            ),
        }),
{
    if now < time_capsule.unlock_timestamp {
        return Err(TimeCapsuleError::StillLocked);
    }
    if password_hash != time_capsule.password_hash {
        return Err(TimeCapsuleError::InvalidPassword);
    }
    time_capsule.is_claimed = true;
    Ok(TimeCapsuleClaimed { capsule_id, claimed_at: now })
}

/// Describes the capsule to anyone, locked or not. Never fails.
pub fn get_capsule_info(time_capsule: &TimeCapsule) -> (info: Result<
    CapsuleInfo,
    TimeCapsuleError,
>)
    ensures
        info matches Ok(public) && public@ == time_capsule@.info(),
{
    Ok(
        CapsuleInfo {
            sender: time_capsule.sender,
            unlock_timestamp: time_capsule.unlock_timestamp,
            password_hint: time_capsule.password_hint.clone(),
            message_title: time_capsule.message_title.clone(),
            created_at: time_capsule.created_at,
            is_claimed: time_capsule.is_claimed,
        },
    )
}

/// Lists the capsules of a user. No index of capsules by sender is kept, so
/// the list is empty for every user.
pub fn get_user_capsules(_user: Pubkey) -> (capsules: Result<
    Vec<UserCapsuleInfo>,
    TimeCapsuleError,
>)
    ensures
        capsules matches Ok(list) && list@ == Seq::<UserCapsuleInfo>::empty(),
{
    Ok(Vec::new())
}

} // verus!
