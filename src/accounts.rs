//! Balance and payer decisions around resizing and closing accounts.
use vstd::prelude::*;

use crate::address::Address;
use crate::error::MplCoreError;
use crate::state::{key_at, read_key, Key};

verus! {

/// Reads the one-byte key at `offset` of an account's bytes.
pub fn load_key(data: &Vec<u8>, offset: usize) -> (r: Result<Key, MplCoreError>)
    ensures
        match key_at(data@, offset as int) {
            Some(k) => r == Ok::<Key, MplCoreError>(k),
            None => r == Err::<Key, _>(MplCoreError::DeserializationError),
        },
{
    match read_key(data, offset) {
        Some(k) => Ok(k),
        None => Err(MplCoreError::DeserializationError),
    }
}

/// How the deposit of an account moves when the account is resized.
#[derive(Clone, Copy, Debug, PartialEq, Eq, Structural)]
pub enum RentAdjustment {
    /// The funding account pays this much into the resized account.
    Fund(u64),
    /// The resized account returns this much to the funding account.
    Refund(u64),
}

/// The deposit move for a resize, given the minimum balances for the
/// current and the new size: the funder pays any increase, and gets back
/// any decrease.
pub fn resize_or_reallocate_account(current_minimum_balance: u64, new_minimum_balance: u64) -> (r:
    RentAdjustment)
    ensures
        new_minimum_balance >= current_minimum_balance ==> r == RentAdjustment::Fund(
            (new_minimum_balance - current_minimum_balance) as u64,
        ),
        new_minimum_balance < current_minimum_balance ==> r == RentAdjustment::Refund(
            (current_minimum_balance - new_minimum_balance) as u64,
        ),
{
    if new_minimum_balance >= current_minimum_balance {
        RentAdjustment::Fund(new_minimum_balance - current_minimum_balance)
    } else {
        RentAdjustment::Refund(current_minimum_balance - new_minimum_balance)
    }
}

/// The balances after closing an account down to one byte: all of its
/// deposit but what one byte needs goes to the destination. Returns the
/// new balances of the closed account and of the destination.
pub fn close_program_account(
    account_rent: u64,
    one_byte_rent: u64,
    account_lamports: u64,
    destination_lamports: u64,
) -> (r: Result<(u64, u64), MplCoreError>)
    ensures
        account_rent >= one_byte_rent && destination_lamports + (account_rent - one_byte_rent)
            <= u64::MAX && account_lamports >= account_rent - one_byte_rent ==> r == Ok::<
            (u64, u64),
            MplCoreError,
        >(
            (
                (account_lamports - (account_rent - one_byte_rent)) as u64,
                (destination_lamports + (account_rent - one_byte_rent)) as u64,
            ),
        ),
        !(account_rent >= one_byte_rent && destination_lamports + (account_rent - one_byte_rent)
            <= u64::MAX && account_lamports >= account_rent - one_byte_rent) ==> r == Err::<
            (u64, u64),
            _,
        >(MplCoreError::NumericalOverflowError),
{
    let amount_to_return = match account_rent.checked_sub(one_byte_rent) {
        Some(a) => a,
        None => return Err(MplCoreError::NumericalOverflowError),
    };
    let destination = match destination_lamports.checked_add(amount_to_return) {
        Some(d) => d,
        None => return Err(MplCoreError::NumericalOverflowError),
    };
    let account = match account_lamports.checked_sub(amount_to_return) {
        Some(a) => a,
        None => return Err(MplCoreError::NumericalOverflowError),
    };
    Ok((account, destination))
}

/// The account that pays: the payer where one is given, else the authority.
/// A payer must have signed.
pub fn resolve_payer(authority: Address, payer: Option<Address>, payer_signed: bool) -> (r:
    Address)
    requires
        payer.is_some() ==> payer_signed,
    ensures
        r == match payer {
            Some(p) => p,
            None => authority,
        },
{
    match payer {
        Some(p) => p,
        None => authority,
    }
}

} // verus!
