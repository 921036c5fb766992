//! The configuration of a deployment: what a capsule costs, who may change
//! that, and who is paid.

use crate::capsule::{DISCRIMINATOR_SPACE, PUBKEY_SPACE};
use crate::error::TimeCapsuleError;
use crate::keys::same_key;
use anchor_lang::prelude::Pubkey;
use vstd::prelude::*;

verus! {

/// Bytes a stored amount of lamports takes.
pub const AMOUNT_SPACE: usize = 8;

/// Bytes that the record of a configuration takes.
pub const CONFIG_SPACE: usize = DISCRIMINATOR_SPACE + AMOUNT_SPACE + PUBKEY_SPACE + PUBKEY_SPACE;

/// The one configuration of a deployment. It is made once, before any
/// capsule, and only its price ever changes.
#[derive(Debug, Clone, PartialEq, Eq)]
pub struct Config {
    /// Lamports charged for the creation of one capsule.
    pub price: u64,
    /// Who may change the price.
    pub authority: Pubkey,
    /// Who receives the fees.
    pub treasury: Pubkey,
}

impl Config {
    /// This configuration with another price.
    pub open spec fn with_price(self, price: u64) -> Config {
        Config { price, ..self }
    }

    /// The configuration after `caller` has asked for the price `new_price`.
    pub open spec fn after_update(self, caller: Pubkey, new_price: u64) -> Config {
        if caller == self.authority {
            self.with_price(new_price)
        } else {
            self
        }
    }
}

/// Makes the configuration of a deployment, with the caller as its authority.
/// `existing` is the configuration that the deployment has already, if any:
/// a second one is refused. Neither the price nor the treasury is examined.
pub fn initialize_config(
    existing: Option<&Config>,
    price: u64,
    treasury: Pubkey,
    caller: Pubkey,
) -> (made: Result<Config, TimeCapsuleError>)
    ensures
        existing is Some ==> made == Err::<Config, TimeCapsuleError>(
            TimeCapsuleError::AlreadyInitialized,
        ),
        existing is None ==> made == Ok::<Config, TimeCapsuleError>(
            (Config { price, authority: caller, treasury }),
        ),
{
    match existing {
        Some(_) => Err(TimeCapsuleError::AlreadyInitialized),
        None => Ok(Config { price, authority: caller, treasury }),
    }
}

/// Sets the price to `new_price`, any amount, zero too, if `caller` is the
/// authority; refuses and changes nothing if not.
pub fn update_price(config: &mut Config, caller: Pubkey, new_price: u64) -> (updated: Result<
    (),
    TimeCapsuleError,
>)
    ensures
        *final(config) == old(config).after_update(caller, new_price),
        caller == old(config).authority ==> updated == Ok::<(), TimeCapsuleError>(()),
        caller != old(config).authority ==> updated == Err::<(), TimeCapsuleError>(
            TimeCapsuleError::UnauthorizedAccess,
        ),
{
    if !same_key(&caller, &config.authority) {
        return Err(TimeCapsuleError::UnauthorizedAccess);
    }
    config.price = new_price;
    Ok(())
}

} // verus!
