//! The life of a storage account: created on the first upsert, then topped
//! up, refunded or left as it is so that its balance always equals the
//! minimum reserve for the payload it holds.

use vstd::prelude::*;
use vstd::slice::slice_to_vec;

use crate::account::{Account, AccountModel, UpsertError};
use crate::address::{DerivedAddress, derive_storage_address, same_address, storage_address};

verus! {

/// The one balance action an upsert asks of the ledger.
#[derive(Clone, Copy, Debug, PartialEq, Eq)]
pub enum Funding {
    /// Create the storage account at `address`, funded by the payer with
    /// `lamports`, sized to `space` bytes and owned by the program.
    Create { address: DerivedAddress, lamports: u64, space: u64 },
    /// Move `lamports` from the payer to the storage account.
    TopUp { lamports: u64 },
    /// Credit `lamports` of surplus from the storage account to the payer.
    Refund { lamports: u64 },
    /// The balance already matches: no balance action.
    Keep,
}

/// The value of an optional derived address.
pub open spec fn derived_view(d: Option<DerivedAddress>) -> Option<(Seq<u8>, u8)> {
    match d {
        Some(d) => Some((d.address@, d.bump)),
        None => None,
    }
}

/// Whether `a` holds a balance, that is, whether it has been created.
pub open spec fn is_created(a: AccountModel) -> bool {
    a.lamports > 0
}

/// The error an upsert reports, if any, checked in this order: the roles of
/// the accounts, the storage address, the storage owner, then the funds.
pub open spec fn upsert_error(
    payer: AccountModel,
    storage: AccountModel,
    program_id: Seq<u8>,
    derived: Option<(Seq<u8>, u8)>,
    required: nat,
) -> Option<UpsertError> {
    if !payer.is_signer || !payer.is_writable || !storage.is_writable {
        Some(UpsertError::MalformedAccountList)
    } else if !(derived matches Some((a, _)) && a == storage.key) {
        Some(UpsertError::AddressMismatch)
    } else if is_created(storage) && storage.owner != program_id {
        Some(UpsertError::MalformedAccountList)
    } else if payer.lamports + storage.lamports < required {
        Some(UpsertError::InsufficientPayerFunds)
    } else if payer.lamports + storage.lamports - required > u64::MAX {
        Some(UpsertError::ArithmeticFault)
    } else {
        None
    }
}

/// The balance action that takes a storage account holding `balance` to
/// `required` for a payload of `space` bytes.
pub open spec fn funding_for(
    f: Funding,
    balance: nat,
    required: nat,
    space: nat,
    derived: (Seq<u8>, u8),
) -> bool {
    if balance == 0 {
        f matches Funding::Create { address, lamports, space: s } && address.address@ == derived.0
            && address.bump == derived.1 && lamports == required && s == space
    } else if required > balance {
        f == Funding::TopUp { lamports: (required - balance) as u64 }
    } else if required < balance {
        f == Funding::Refund { lamports: (balance - required) as u64 }
    } else {
        f == Funding::Keep
    }
}

/// The payer after a successful upsert: it has paid whatever the storage
/// balance rose by, or received whatever it fell by.
pub open spec fn payer_after(payer: AccountModel, storage: AccountModel, required: nat) -> AccountModel {
    AccountModel { lamports: (payer.lamports + storage.lamports - required) as nat, ..payer }
}

/// The storage account after a successful upsert: it holds the payload and
/// exactly the required reserve, and belongs to the program.
pub open spec fn storage_after(
    storage: AccountModel,
    program_id: Seq<u8>,
    payload: Seq<u8>,
    required: nat,
) -> AccountModel {
    AccountModel { lamports: required, owner: program_id, data: payload, ..storage }
}

/// What an upsert of `payload` with reserve `required` does to the payer
/// and the storage account, and what it returns, when the storage address
/// was derived as `derived`.
pub open spec fn upsert_outcome(
    payer: AccountModel,
    storage: AccountModel,
    program_id: Seq<u8>,
    derived: Option<(Seq<u8>, u8)>,
    payload: Seq<u8>,
    required: nat,
    r: Result<Funding, UpsertError>,
    payer_final: AccountModel,
    storage_final: AccountModel,
) -> bool {
    match r {
        Err(e) => {
            &&& upsert_error(payer, storage, program_id, derived, required) == Some(e)
            &&& payer_final == payer
            &&& storage_final == storage
        },
        Ok(f) => {
            &&& upsert_error(payer, storage, program_id, derived, required) is None
            &&& derived matches Some(d) && funding_for(
                f,
                storage.lamports,
                required,
                payload.len(),
                d,
            )
            &&& payer_final == payer_after(payer, storage, required)
            &&& storage_final == storage_after(storage, program_id, payload, required)
        },
    }
}

/// Stores `payload` in `storage`, whose address was derived as `derived`,
/// so that its balance becomes `required`, the minimum reserve for the
/// payload's length. The payer funds a rise and takes a fall. On an error
/// neither account changes.
pub fn upsert_at(
    payer: &mut Account,
    storage: &mut Account,
    program_id: &[u8; 32],
    derived: Option<DerivedAddress>,
    payload: &[u8],
    required: u64,
) -> (r: Result<Funding, UpsertError>)
    ensures
        upsert_outcome(
            old(payer)@,
            old(storage)@,
            program_id@,
            derived_view(derived),
            payload@,
            required as nat,
            r,
            final(payer)@,
            final(storage)@,
        ),
{
    if !payer.is_signer || !payer.is_writable || !storage.is_writable {
        return Err(UpsertError::MalformedAccountList);
    }
    let address = match derived {
        Some(d) => d,
        None => return Err(UpsertError::AddressMismatch),
    };
    if !same_address(&address.address, &storage.key) {
        return Err(UpsertError::AddressMismatch);
    }
    let balance = storage.lamports;
    if balance > 0 && !same_address(&storage.owner, program_id) {
        return Err(UpsertError::MalformedAccountList);
    }
    let funding = if balance == 0 {
        if payer.lamports < required {
            return Err(UpsertError::InsufficientPayerFunds);
        }
        payer.lamports = payer.lamports - required;
        storage.owner = *program_id;
        Funding::Create { address, lamports: required, space: payload.len() as u64 }
    } else if required > balance {
        let delta = required - balance;
        if payer.lamports < delta {
            return Err(UpsertError::InsufficientPayerFunds);
        }
        payer.lamports = payer.lamports - delta;
        Funding::TopUp { lamports: delta }
    } else if required < balance {
        let surplus = balance - required;
        if payer.lamports > u64::MAX - surplus {
            return Err(UpsertError::ArithmeticFault);
        }
        payer.lamports = payer.lamports + surplus;
        Funding::Refund { lamports: surplus }
    } else {
        Funding::Keep
    };
    storage.lamports = required;
    storage.data = slice_to_vec(payload);
    proof {
        assert(storage@.owner =~= program_id@);
    }
    Ok(funding)
}

/// Stores `payload` in the storage account of the payer under
/// `program_id`, whose balance must become `required`, the minimum reserve
/// for the payload's length. The storage address is derived from the
/// payer's key.
pub fn upsert(
    payer: &mut Account,
    storage: &mut Account,
    program_id: &[u8; 32],
    payload: &[u8],
    required: u64,
) -> (r: Result<Funding, UpsertError>)
    ensures
        upsert_outcome(
            old(payer)@,
            old(storage)@,
            program_id@,
            storage_address(old(payer)@.key, program_id@),
            payload@,
            required as nat,
            r,
            final(payer)@,
            final(storage)@,
        ),
{
    let derived = derive_storage_address(&payer.key, program_id);
    upsert_at(payer, storage, program_id, derived, payload, required)
}

} // verus!
