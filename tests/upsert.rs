use pxsol_ss::account::{split_accounts, Account, UpsertError};
use pxsol_ss::address::{derive_storage_address, same_address, DerivedAddress};
use pxsol_ss::upsert::{upsert, upsert_at, Funding};

const PROGRAM: [u8; 32] = [3u8; 32];
const OWNER: [u8; 32] = [5u8; 32];

fn payer(lamports: u64) -> Account {
    Account {
        key: OWNER,
        owner: [0u8; 32],
        lamports,
        data: Vec::new(),
        is_signer: true,
        is_writable: true,
    }
}

fn fresh_storage() -> Account {
    let derived = derive_storage_address(&OWNER, &PROGRAM).unwrap();
    Account {
        key: derived.address,
        owner: [0u8; 32],
        lamports: 0,
        data: Vec::new(),
        is_signer: false,
        is_writable: true,
    }
}

#[test]
fn first_upsert_creates_account() {
    let mut p = payer(1_000);
    let mut s = fresh_storage();
    let derived = derive_storage_address(&OWNER, &PROGRAM).unwrap();
    let r = upsert(&mut p, &mut s, &PROGRAM, &[1, 2, 3], 300);
    assert_eq!(
        r,
        Ok(Funding::Create { address: derived, lamports: 300, space: 3 })
    );
    assert_eq!(s.lamports, 300);
    assert_eq!(s.data, vec![1, 2, 3]);
    assert_eq!(s.owner, PROGRAM);
    assert_eq!(p.lamports, 700);
}

#[test]
fn second_identical_upsert_changes_nothing() {
    let mut p = payer(1_000);
    let mut s = fresh_storage();
    upsert(&mut p, &mut s, &PROGRAM, &[9, 8, 7, 6], 400).unwrap();
    let (p1, s1) = (p.clone(), s.clone());
    let r = upsert(&mut p, &mut s, &PROGRAM, &[9, 8, 7, 6], 400);
    assert_eq!(r, Ok(Funding::Keep));
    assert_eq!(p.lamports, p1.lamports);
    assert_eq!(s.lamports, s1.lamports);
    assert_eq!(s.data, s1.data);
    assert_eq!(s.owner, s1.owner);
}

#[test]
fn growth_charges_exactly_the_difference() {
    let mut p = payer(1_000);
    let mut s = fresh_storage();
    upsert(&mut p, &mut s, &PROGRAM, &[1], 100).unwrap();
    let r = upsert(&mut p, &mut s, &PROGRAM, &[1, 2, 3, 4, 5], 250);
    assert_eq!(r, Ok(Funding::TopUp { lamports: 150 }));
    assert_eq!(p.lamports, 750);
    assert_eq!(s.lamports, 250);
    assert_eq!(s.data, vec![1, 2, 3, 4, 5]);
}

#[test]
fn shrink_refunds_and_conserves_total() {
    let mut p = payer(1_000);
    let mut s = fresh_storage();
    upsert(&mut p, &mut s, &PROGRAM, &[1, 2, 3, 4, 5, 6], 500).unwrap();
    let before = p.lamports + s.lamports;
    let r = upsert(&mut p, &mut s, &PROGRAM, &[7], 120);
    assert_eq!(r, Ok(Funding::Refund { lamports: 380 }));
    assert_eq!(p.lamports, 880);
    assert_eq!(s.lamports, 120);
    assert_eq!(s.data, vec![7]);
    assert_eq!(p.lamports + s.lamports, before);
}

#[test]
fn same_reserve_only_replaces_bytes() {
    let mut p = payer(1_000);
    let mut s = fresh_storage();
    upsert(&mut p, &mut s, &PROGRAM, &[1, 2], 200).unwrap();
    let r = upsert(&mut p, &mut s, &PROGRAM, &[3, 4], 200);
    assert_eq!(r, Ok(Funding::Keep));
    assert_eq!(p.lamports, 800);
    assert_eq!(s.lamports, 200);
    assert_eq!(s.data, vec![3, 4]);
}

#[test]
fn address_is_deterministic() {
    let a = derive_storage_address(&OWNER, &PROGRAM).unwrap();
    let b = derive_storage_address(&OWNER, &PROGRAM).unwrap();
    assert_eq!(a, b);
    assert_ne!(a.address, OWNER);
    assert_ne!(a.address, PROGRAM);
    let other = derive_storage_address(&[6u8; 32], &PROGRAM).unwrap();
    assert_ne!(a.address, other.address);
}

#[test]
fn address_matches_host_search() {
    let program = solana_program::pubkey::Pubkey::new_from_array(PROGRAM);
    let (key, bump) =
        solana_program::pubkey::Pubkey::find_program_address(&[&OWNER[..]], &program);
    let a = derive_storage_address(&OWNER, &PROGRAM).unwrap();
    assert_eq!(a, DerivedAddress { address: key.to_bytes(), bump });
}

#[test]
fn empty_payload_is_stored() {
    let mut p = payer(1_000);
    let mut s = fresh_storage();
    let r = upsert(&mut p, &mut s, &PROGRAM, &[], 90);
    assert!(matches!(r, Ok(Funding::Create { lamports: 90, space: 0, .. })));
    assert_eq!(s.data.len(), 0);
    assert_eq!(s.lamports, 90);
    let r = upsert(&mut p, &mut s, &PROGRAM, &[], 90);
    assert_eq!(r, Ok(Funding::Keep));
    assert_eq!(p.lamports, 910);
}

#[test]
fn shrinking_to_empty_refunds() {
    let mut p = payer(1_000);
    let mut s = fresh_storage();
    upsert(&mut p, &mut s, &PROGRAM, &[1, 2, 3], 300).unwrap();
    let r = upsert(&mut p, &mut s, &PROGRAM, &[], 90);
    assert_eq!(r, Ok(Funding::Refund { lamports: 210 }));
    assert_eq!(s.data.len(), 0);
    assert_eq!(p.lamports, 910);
}

#[test]
fn fewer_than_four_accounts_are_refused() {
    let three = [1u8, 2, 3];
    assert_eq!(
        split_accounts(&three).err(),
        Some(UpsertError::MalformedAccountList)
    );
    let five = [1u8, 2, 3, 4, 5];
    let list = split_accounts(&five).unwrap();
    assert_eq!(
        (*list.payer, *list.storage, *list.ledger_service, *list.reserve_service),
        (1, 2, 3, 4)
    );
}

#[test]
fn unsigned_payer_is_refused() {
    let mut p = payer(1_000);
    p.is_signer = false;
    let mut s = fresh_storage();
    let r = upsert(&mut p, &mut s, &PROGRAM, &[1], 100);
    assert_eq!(r, Err(UpsertError::MalformedAccountList));
    assert_eq!(p.lamports, 1_000);
    assert_eq!(s.lamports, 0);
}

#[test]
fn readonly_storage_is_refused() {
    let mut p = payer(1_000);
    let mut s = fresh_storage();
    s.is_writable = false;
    let r = upsert(&mut p, &mut s, &PROGRAM, &[1], 100);
    assert_eq!(r, Err(UpsertError::MalformedAccountList));
}

#[test]
fn storage_of_another_program_is_refused() {
    let mut p = payer(1_000);
    let mut s = fresh_storage();
    s.lamports = 50;
    s.owner = [8u8; 32];
    let r = upsert(&mut p, &mut s, &PROGRAM, &[1], 100);
    assert_eq!(r, Err(UpsertError::MalformedAccountList));
    assert_eq!(s.lamports, 50);
}

#[test]
fn wrong_storage_address_is_refused() {
    let mut p = payer(1_000);
    let mut s = fresh_storage();
    s.key = [4u8; 32];
    let r = upsert(&mut p, &mut s, &PROGRAM, &[1], 100);
    assert_eq!(r, Err(UpsertError::AddressMismatch));
    let mut s = fresh_storage();
    let r = upsert_at(&mut p, &mut s, &PROGRAM, None, &[1], 100);
    assert_eq!(r, Err(UpsertError::AddressMismatch));
}

#[test]
fn poor_payer_cannot_create() {
    let mut p = payer(99);
    let mut s = fresh_storage();
    let r = upsert(&mut p, &mut s, &PROGRAM, &[1], 100);
    assert_eq!(r, Err(UpsertError::InsufficientPayerFunds));
    assert_eq!(p.lamports, 99);
    assert!(s.data.is_empty());
}

#[test]
fn poor_payer_cannot_grow() {
    let mut p = payer(150);
    let mut s = fresh_storage();
    upsert(&mut p, &mut s, &PROGRAM, &[1], 100).unwrap();
    let r = upsert(&mut p, &mut s, &PROGRAM, &[1, 2], 151);
    assert_eq!(r, Err(UpsertError::InsufficientPayerFunds));
    assert_eq!(p.lamports, 50);
    assert_eq!(s.lamports, 100);
    assert_eq!(s.data, vec![1]);
    let r = upsert(&mut p, &mut s, &PROGRAM, &[1, 2], 150);
    assert_eq!(r, Ok(Funding::TopUp { lamports: 50 }));
    assert_eq!(p.lamports, 0);
}

#[test]
fn refund_past_the_largest_balance_is_a_fault() {
    let mut p = payer(u64::MAX);
    let mut s = fresh_storage();
    s.lamports = 10;
    s.owner = PROGRAM;
    let r = upsert(&mut p, &mut s, &PROGRAM, &[], 5);
    assert_eq!(r, Err(UpsertError::ArithmeticFault));
    assert_eq!(p.lamports, u64::MAX);
    assert_eq!(s.lamports, 10);
}

#[test]
fn addresses_compare_by_bytes() {
    let mut a = [1u8; 32];
    assert!(same_address(&a, &[1u8; 32]));
    a[31] = 2;
    assert!(!same_address(&a, &[1u8; 32]));
}
