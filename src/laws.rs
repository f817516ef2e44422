//! Laws of the upsert, stated over the outcome its contract describes.

use vstd::prelude::*;

use crate::account::{AccountModel, UpsertError};
use crate::address::storage_address;
use crate::upsert::{Funding, is_created, upsert_error, upsert_outcome};

verus! {

/// The first upsert for an owner creates the storage account with exactly
/// the required reserve and the payload as its bytes, and the payer pays
/// exactly that reserve.
pub proof fn lemma_first_upsert_creates(
    payer: AccountModel,
    storage: AccountModel,
    program_id: Seq<u8>,
    derived: Option<(Seq<u8>, u8)>,
    payload: Seq<u8>,
    required: nat,
    r: Result<Funding, UpsertError>,
    payer_final: AccountModel,
    storage_final: AccountModel,
)
    requires
        !is_created(storage),
        upsert_error(payer, storage, program_id, derived, required) is None,
        upsert_outcome(
            payer,
            storage,
            program_id,
            derived,
            payload,
            required,
            r,
            payer_final,
            storage_final,
        ),
    ensures
        r matches Ok(Funding::Create { lamports, space, .. }) && lamports == required && space
            == payload.len(),
        storage_final.lamports == required,
        storage_final.data == payload,
        storage_final.owner == program_id,
        payer_final.lamports == payer.lamports - required,
{
}

/// Two upserts of the same payload in a row leave the accounts as the first
/// one left them: the second charges nothing and rewrites the same bytes.
pub proof fn lemma_upsert_idempotent(
    payer: AccountModel,
    storage: AccountModel,
    program_id: Seq<u8>,
    payload: Seq<u8>,
    required: nat,
    r1: Result<Funding, UpsertError>,
    payer1: AccountModel,
    storage1: AccountModel,
    r2: Result<Funding, UpsertError>,
    payer2: AccountModel,
    storage2: AccountModel,
)
    requires
        upsert_outcome(
            payer,
            storage,
            program_id,
            storage_address(payer.key, program_id),
            payload,
            required,
            r1,
            payer1,
            storage1,
        ),
        upsert_outcome(
            payer1,
            storage1,
            program_id,
            storage_address(payer1.key, program_id),
            payload,
            required,
            r2,
            payer2,
            storage2,
        ),
        r1 is Ok,
    ensures
        r2 is Ok,
        payer2 == payer1,
        storage2 == storage1,
{
}

/// When the payload needs more than the storage account holds, the payer
/// transfers exactly the difference, and the account ends with the required
/// reserve and the payload.
pub proof fn lemma_growth_charges_delta(
    payer: AccountModel,
    storage: AccountModel,
    program_id: Seq<u8>,
    derived: Option<(Seq<u8>, u8)>,
    payload: Seq<u8>,
    required: nat,
    r: Result<Funding, UpsertError>,
    payer_final: AccountModel,
    storage_final: AccountModel,
)
    requires
        is_created(storage),
        required > storage.lamports,
        r is Ok,
        upsert_outcome(
            payer,
            storage,
            program_id,
            derived,
            payload,
            required,
            r,
            payer_final,
            storage_final,
        ),
    ensures
        r == Ok::<Funding, UpsertError>(
            Funding::TopUp { lamports: (required - storage.lamports) as u64 },
        ),
        payer_final.lamports == payer.lamports - (required - storage.lamports),
        storage_final.lamports == required,
        storage_final.data == payload,
{
}

/// When the payload needs less than the storage account holds, the payer
/// gets exactly the surplus back, the account keeps the required reserve,
/// and the two balances together are unchanged.
pub proof fn lemma_shrink_refunds_delta(
    payer: AccountModel,
    storage: AccountModel,
    program_id: Seq<u8>,
    derived: Option<(Seq<u8>, u8)>,
    payload: Seq<u8>,
    required: nat,
    r: Result<Funding, UpsertError>,
    payer_final: AccountModel,
    storage_final: AccountModel,
)
    requires
        required < storage.lamports,
        r is Ok,
        upsert_outcome(
            payer,
            storage,
            program_id,
            derived,
            payload,
            required,
            r,
            payer_final,
            storage_final,
        ),
    ensures
        r == Ok::<Funding, UpsertError>(
            Funding::Refund { lamports: (storage.lamports - required) as u64 },
        ),
        payer_final.lamports == payer.lamports + (storage.lamports - required),
        storage_final.lamports == required,
        payer_final.lamports + storage_final.lamports == payer.lamports + storage.lamports,
{
}

/// When the storage account already holds the required reserve, no balance
/// moves either way and only the bytes are replaced.
pub proof fn lemma_unchanged_reserve_keeps_balances(
    payer: AccountModel,
    storage: AccountModel,
    program_id: Seq<u8>,
    derived: Option<(Seq<u8>, u8)>,
    payload: Seq<u8>,
    required: nat,
    r: Result<Funding, UpsertError>,
    payer_final: AccountModel,
    storage_final: AccountModel,
)
    requires
        is_created(storage),
        required == storage.lamports,
        r is Ok,
        upsert_outcome(
            payer,
            storage,
            program_id,
            derived,
            payload,
            required,
            r,
            payer_final,
            storage_final,
        ),
    ensures
        r == Ok::<Funding, UpsertError>(Funding::Keep),
        payer_final == payer,
        storage_final == (AccountModel { data: payload, ..storage }),
{
}

/// The storage address depends on the owner and the program alone.
pub proof fn lemma_address_deterministic(
    owner1: Seq<u8>,
    program1: Seq<u8>,
    owner2: Seq<u8>,
    program2: Seq<u8>,
)
    requires
        owner1 == owner2,
        program1 == program2,
    ensures
        storage_address(owner1, program1) == storage_address(owner2, program2),
{
}

/// An empty payload is stored like any other: on accounts that an upsert
/// accepts it succeeds, leaving no bytes and the reserve for no bytes.
pub proof fn lemma_empty_payload(
    payer: AccountModel,
    storage: AccountModel,
    program_id: Seq<u8>,
    derived: Option<(Seq<u8>, u8)>,
    required: nat,
    r: Result<Funding, UpsertError>,
    payer_final: AccountModel,
    storage_final: AccountModel,
)
    requires
        upsert_error(payer, storage, program_id, derived, required) is None,
        upsert_outcome(
            payer,
            storage,
            program_id,
            derived,
            Seq::empty(),
            required,
            r,
            payer_final,
            storage_final,
        ),
    ensures
        r is Ok,
        storage_final.data.len() == 0,
        storage_final.lamports == required,
{
}

} // verus!
