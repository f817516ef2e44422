//! The accounts an upsert works on, held as plain values.

use vstd::prelude::*;

verus! {

/// Why an upsert was refused. The host reverts every effect of the call.
#[derive(Clone, Copy, Debug, PartialEq, Eq)]
pub enum UpsertError {
    /// Fewer than four accounts, or an account that cannot play its role.
    MalformedAccountList,
    /// The storage account is not at the address derived from the payer.
    AddressMismatch,
    /// The payer cannot fund the reserve the payload needs.
    InsufficientPayerFunds,
    /// The host declined to resize the storage account.
    ResizeRejected,
    /// A balance computation left the range of the ledger's integers.
    ArithmeticFault,
}

/// An account as the ledger shows it to one call.
#[derive(Clone, Debug)]
pub struct Account {
    pub key: [u8; 32],
    pub owner: [u8; 32],
    pub lamports: u64,
    pub data: Vec<u8>,
    pub is_signer: bool,
    pub is_writable: bool,
}

/// The mathematical value of an [`Account`].
pub struct AccountModel {
    pub key: Seq<u8>,
    pub owner: Seq<u8>,
    pub lamports: nat,
    pub data: Seq<u8>,
    pub is_signer: bool,
    pub is_writable: bool,
}

impl View for Account {
    type V = AccountModel;

    open spec fn view(&self) -> AccountModel {
        AccountModel {
            key: self.key@,
            owner: self.owner@,
            lamports: self.lamports as nat,
            data: self.data@,
            is_signer: self.is_signer,
            is_writable: self.is_writable,
        }
    }
}

/// The four accounts of an upsert, in the order the caller supplies them.
pub struct AccountList<T> {
    /// Signs the call, funds growth and takes refunds.
    pub payer: T,
    /// The account that holds the payload.
    pub storage: T,
    /// The service that creates accounts and moves balances.
    pub ledger_service: T,
    /// The service that gives the minimum reserve for a length.
    pub reserve_service: T,
}

/// Takes the four accounts of an upsert from the front of `accounts`; any
/// further accounts are ignored.
pub fn split_accounts<T>(accounts: &[T]) -> (r: Result<AccountList<&T>, UpsertError>)
    ensures
        r is Ok <==> accounts@.len() >= 4,
        r matches Err(e) ==> e == UpsertError::MalformedAccountList,
        r matches Ok(l) ==> {
            &&& *l.payer == accounts@[0]
            &&& *l.storage == accounts@[1]
            &&& *l.ledger_service == accounts@[2]
            &&& *l.reserve_service == accounts@[3]
        },
{
    if accounts.len() < 4 {
        return Err(UpsertError::MalformedAccountList);
    }
    Ok(
        AccountList {
            payer: &accounts[0],
            storage: &accounts[1],
            ledger_service: &accounts[2],
            reserve_service: &accounts[3],
        },
    )
}

} // verus!
