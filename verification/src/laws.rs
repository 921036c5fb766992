//! What holds of the rules as a whole, proved from the definitions that the
//! contracts of the operations are stated in.

use crate::capsule::{
    utf8_len, TimeCapsuleView, HASH_LEN, MAX_HINT_LEN, MAX_MESSAGE_LEN, MAX_TITLE_LEN,
};
use crate::config::Config;
use crate::creation::{creation_error, creation_fee, requested_capsule};
use crate::error::TimeCapsuleError;
use anchor_lang::prelude::Pubkey;
use vstd::prelude::*;

verus! {

/// One call on a stored capsule.
pub enum CapsuleCall {
    /// The message is asked for.
    Retrieve { password_hash: Seq<char>, now: i64 },
    /// The capsule is to be marked as claimed.
    Claim { password_hash: Seq<char>, now: i64 },
    /// The public description is asked for.
    Describe,
}

impl CapsuleCall {
    /// Whether this call is a claim that `capsule` grants.
    pub open spec fn is_granted_claim(self, capsule: TimeCapsuleView) -> bool {
        self matches CapsuleCall::Claim { password_hash, now } && capsule.refusal(
            password_hash,
            now,
        ) is None
    }
}

/// The capsule after one call: only a claim can change it.
pub open spec fn after_call(capsule: TimeCapsuleView, call: CapsuleCall) -> TimeCapsuleView {
    match call {
        CapsuleCall::Claim { password_hash, now } => capsule.after_claim(password_hash, now),
        _ => capsule,
    }
}

/// The capsule after a history of calls, the earliest first.
pub open spec fn after_calls(capsule: TimeCapsuleView, calls: Seq<CapsuleCall>) -> TimeCapsuleView
    decreases calls.len(),
{
    if calls.len() == 0 {
        capsule
    } else {
        after_call(after_calls(capsule, calls.drop_last()), calls.last())
    }
}

/// Whether some call of the history is a claim that `capsule` grants.
pub open spec fn some_claim_granted(capsule: TimeCapsuleView, calls: Seq<CapsuleCall>) -> bool {
    exists|i: int| 0 <= i < calls.len() && (#[trigger] calls[i]).is_granted_claim(capsule)
}

/// The claim flag is a latch. After any history of calls a capsule is what it
/// was, but for the flag; the flag is set exactly if it was set before or some
/// claim of the history was granted. So a new capsule stays unclaimed until a
/// first claim succeeds, and no call ever clears the flag.
pub proof fn law_claim_is_a_latch(capsule: TimeCapsuleView, calls: Seq<CapsuleCall>)
    ensures
        after_calls(capsule, calls) == (TimeCapsuleView {
            is_claimed: capsule.is_claimed || some_claim_granted(capsule, calls),
            ..capsule
        }),
        !capsule.is_claimed ==> (after_calls(capsule, calls).is_claimed <==> some_claim_granted(
            capsule,
            calls,
        )),
        capsule.well_formed() ==> after_calls(capsule, calls).well_formed(),
    decreases calls.len(),
{
    if calls.len() > 0 {
        let earlier = calls.drop_last();
        law_claim_is_a_latch(capsule, earlier);
        // A granted claim among the earlier calls is one among all of them,
        // and one among all of them is the last call or an earlier one.
        assert(forall|i: int| 0 <= i < earlier.len() ==> earlier[i] == calls[i]);
    }
}

/// A claimed capsule is claimed after every longer history: the flag never
/// goes back.
pub proof fn law_claimed_stays_claimed(capsule: TimeCapsuleView, calls: Seq<CapsuleCall>, n: int)
    requires
        0 <= n <= calls.len(),
        after_calls(capsule, calls.take(n)).is_claimed,
    ensures
        after_calls(capsule, calls).is_claimed,
{
    let earlier = calls.take(n);
    law_claim_is_a_latch(capsule, earlier);
    law_claim_is_a_latch(capsule, calls);
    assert(forall|i: int| 0 <= i < earlier.len() ==> earlier[i] == calls[i]);
}

/// Before its unlock time a capsule withholds the message and refuses the
/// claim, whatever the password hash, and the claim leaves it as it was.
pub proof fn law_locked_capsule_refuses(
    capsule: TimeCapsuleView,
    password_hash: Seq<char>,
    now: i64,
)
    requires
        now < capsule.unlock_timestamp,
    ensures
        capsule.refusal(password_hash, now) == Some(TimeCapsuleError::StillLocked),
        capsule.after_claim(password_hash, now) == capsule,
{
}

/// From its unlock time on a capsule withholds the message and refuses the
/// claim for every password hash but the stored one, be it longer, shorter or
/// different in a single character, and the claim leaves it as it was.
pub proof fn law_wrong_password_refuses(
    capsule: TimeCapsuleView,
    password_hash: Seq<char>,
    now: i64,
)
    requires
        now >= capsule.unlock_timestamp,
        password_hash.len() != capsule.password_hash.len() || exists|i: int|
            0 <= i < password_hash.len() && password_hash[i] != capsule.password_hash[i],
    ensures
        capsule.refusal(password_hash, now) == Some(TimeCapsuleError::InvalidPassword),
        capsule.after_claim(password_hash, now) == capsule,
{
}

/// A request is granted exactly if the capsule it asks for is well formed and
/// it names the configured treasury; a granted request is unclaimed.
pub proof fn law_granted_iff_well_formed(
    requested: TimeCapsuleView,
    treasury: Pubkey,
    config: Config,
)
    ensures
        creation_error(requested, treasury, config) is None <==> requested.well_formed()
            && treasury == config.treasury,
{
}

/// A request whose unlock time is not in the future, or one of whose texts is
/// beyond its length, is refused, whatever else it holds; a request whose
/// unlock time is not in the future is refused for that.
pub proof fn law_bad_request_is_refused(
    encrypted_message: Seq<char>,
    unlock_timestamp: i64,
    recipient_email_hash: Seq<char>,
    password_hash: Seq<char>,
    password_hint: Seq<char>,
    message_title: Seq<char>,
    sender: Pubkey,
    treasury: Pubkey,
    config: Config,
    now: i64,
)
    requires
        unlock_timestamp <= now || utf8_len(encrypted_message) > MAX_MESSAGE_LEN || utf8_len(
            password_hint,
        ) > MAX_HINT_LEN || utf8_len(message_title) > MAX_TITLE_LEN || utf8_len(
            recipient_email_hash,
        ) != HASH_LEN || utf8_len(password_hash) != HASH_LEN,
    ensures
        ({
            let error = creation_error(
                requested_capsule(
                    encrypted_message,
                    unlock_timestamp,
                    recipient_email_hash,
                    password_hash,
                    password_hint,
                    message_title,
                    sender,
                    now,
                ),
                treasury,
                config,
            );
            &&& error is Some
            &&& error != Some(TimeCapsuleError::InvalidTreasury)
            &&& unlock_timestamp <= now ==> error == Some(TimeCapsuleError::InvalidUnlockTime)
        }),
{
}

/// The public description says nothing of the message or of either hash: two
/// capsules that differ in nothing else are described alike.
pub proof fn law_info_hides_secrets(one: TimeCapsuleView, other: TimeCapsuleView)
    requires
        one.sender == other.sender,
        one.unlock_timestamp == other.unlock_timestamp,
        one.password_hint == other.password_hint,
        one.message_title == other.message_title,
        one.created_at == other.created_at,
        one.is_claimed == other.is_claimed,
    ensures
        one.info() == other.info(),
{
}

/// Only the authority changes the price, and the price it sets is the fee of
/// every capsule created from then on; authority and treasury stay.
pub proof fn law_price_update_governs_fee(
    config: Config,
    caller: Pubkey,
    new_price: u64,
    sender: Pubkey,
)
    ensures
        caller != config.authority ==> config.after_update(caller, new_price) == config,
        caller == config.authority ==> creation_fee(
            sender,
            config.after_update(caller, new_price),
        ).lamports == new_price,
        config.after_update(caller, new_price).authority == config.authority,
        config.after_update(caller, new_price).treasury == config.treasury,
        creation_fee(sender, config.after_update(caller, new_price)).to == config.treasury,
{
}

} // verus!
