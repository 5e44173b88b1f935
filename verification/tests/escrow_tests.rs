use rental_escrow::addr::Address;
use rental_escrow::authority::derive_authority;
use rental_escrow::error::EscrowError;
use rental_escrow::escrow::{
    check_release_guard, initialize, release_payment, EscrowLedger, InitializeEscrow,
    ReleasePayment,
};
use rental_escrow::token::{transfer, Authorization, TokenAccount};

fn addr(tag: u8) -> Address {
    Address { bytes: [tag; 32] }
}

fn token(owner: Address, mint: Address, amount: u64) -> TokenAccount {
    TokenAccount { owner, mint, amount }
}

fn custody_of(guest: Address, apartment_id: u64) -> Address {
    derive_authority(&guest, apartment_id).unwrap().0
}

fn create_ctx(guest: Address, owner: Address, mint: Address, apartment_id: u64, guest_funds: u64) -> InitializeEscrow {
    InitializeEscrow {
        escrow_token_account: token(custody_of(guest, apartment_id), mint, 0),
        guest_token_account: token(guest, mint, guest_funds),
        guest,
        guest_signed: true,
        usdc_mint: mint,
        owner,
    }
}

#[test]
fn scenario_full_lifecycle() {
    let guest = addr(7);
    let owner = addr(9);
    let mint = addr(3);
    let rent_time: u64 = 10_000;

    let mut ledger = EscrowLedger::new();
    let mut ictx = create_ctx(guest, owner, mint, 42, 5_000);

    let handle = initialize(&mut ledger, &mut ictx, 42, 1_000, rent_time).unwrap();
    assert_eq!(handle, 0);
    assert_eq!(ictx.guest_token_account.amount, 4_000);
    assert_eq!(ictx.escrow_token_account.amount, 1_000);
    assert!(!ledger.records[0].rent_started);
    assert!(!ledger.records[0].rent_ended);
    assert_eq!(ledger.records[0].amount, 1_000);
    assert_eq!(ledger.records[0].apartment_id, 42);

    let mut rctx = ReleasePayment {
        escrow_token_account: ictx.escrow_token_account,
        owner_token_account: token(owner, mint, 0),
        usdc_mint: mint,
    };

    // one tick before the check-in time: refused, nothing moves
    let early = release_payment(&mut ledger, handle, &mut rctx, rent_time - 1);
    assert_eq!(early, Err(EscrowError::TooEarly));
    assert_eq!(rctx.escrow_token_account.amount, 1_000);
    assert_eq!(rctx.owner_token_account.amount, 0);
    assert!(!ledger.records[0].rent_ended);

    // exactly at the check-in time: the guard is inclusive
    let on_time = release_payment(&mut ledger, handle, &mut rctx, rent_time);
    assert_eq!(on_time, Ok(()));
    assert_eq!(rctx.escrow_token_account.amount, 0);
    assert_eq!(rctx.owner_token_account.amount, 1_000);
    assert!(ledger.records[0].rent_started);
    assert!(ledger.records[0].rent_ended);

    // a second release is refused and changes nothing
    let again = release_payment(&mut ledger, handle, &mut rctx, rent_time + 50);
    assert_eq!(again, Err(EscrowError::AlreadyReleased));
    assert_eq!(rctx.escrow_token_account.amount, 0);
    assert_eq!(rctx.owner_token_account.amount, 1_000);
}

#[test]
fn duplicate_creation_rejected() {
    let guest = addr(7);
    let owner = addr(9);
    let mint = addr(3);

    let mut ledger = EscrowLedger::new();
    let mut first = create_ctx(guest, owner, mint, 42, 5_000);
    assert!(initialize(&mut ledger, &mut first, 42, 1_000, 100).is_ok());

    let mut second = create_ctx(guest, owner, mint, 42, 5_000);
    let r = initialize(&mut ledger, &mut second, 42, 500, 200);
    assert_eq!(r, Err(EscrowError::DuplicateEscrow));
    assert_eq!(second.guest_token_account.amount, 5_000);
    assert_eq!(ledger.records.len(), 1);

    // the same guest may escrow a different apartment
    let mut other = create_ctx(guest, owner, mint, 43, 5_000);
    assert_eq!(initialize(&mut ledger, &mut other, 43, 500, 200), Ok(1));
}

#[test]
fn unsigned_creation_rejected() {
    let guest = addr(7);
    let mut ledger = EscrowLedger::new();
    let mut ctx = create_ctx(guest, addr(9), addr(3), 42, 5_000);
    ctx.guest_signed = false;
    let r = initialize(&mut ledger, &mut ctx, 42, 1_000, 100);
    assert_eq!(r, Err(EscrowError::UnauthorizedSigner));
    assert_eq!(ledger.records.len(), 0);
}

#[test]
fn foreign_token_account_rejected() {
    let guest = addr(7);
    let mut ledger = EscrowLedger::new();
    let mut ctx = create_ctx(guest, addr(9), addr(3), 42, 5_000);
    ctx.guest_token_account.owner = addr(8);
    let r = initialize(&mut ledger, &mut ctx, 42, 1_000, 100);
    assert_eq!(r, Err(EscrowError::UnauthorizedSigner));
}

#[test]
fn mint_mismatch_rejected() {
    let guest = addr(7);
    let mut ledger = EscrowLedger::new();
    let mut ctx = create_ctx(guest, addr(9), addr(3), 42, 5_000);
    ctx.guest_token_account.mint = addr(4);
    let r = initialize(&mut ledger, &mut ctx, 42, 1_000, 100);
    assert_eq!(r, Err(EscrowError::TransferFailed));
}

#[test]
fn custody_not_bound_rejected() {
    let guest = addr(7);
    let mut ledger = EscrowLedger::new();
    let mut ctx = create_ctx(guest, addr(9), addr(3), 42, 5_000);
    // a custody account owned by the guest rather than the derived
    // authority must be refused
    ctx.escrow_token_account.owner = guest;
    let r = initialize(&mut ledger, &mut ctx, 42, 1_000, 100);
    assert_eq!(r, Err(EscrowError::AuthorityMismatch));
}

#[test]
fn insufficient_balance_rejected() {
    let guest = addr(7);
    let mut ledger = EscrowLedger::new();
    let mut ctx = create_ctx(guest, addr(9), addr(3), 42, 500);
    let r = initialize(&mut ledger, &mut ctx, 42, 1_000, 100);
    assert_eq!(r, Err(EscrowError::TransferFailed));
    assert_eq!(ctx.guest_token_account.amount, 500);
}

#[test]
fn custody_credit_overflow_rejected() {
    let guest = addr(7);
    let mut ledger = EscrowLedger::new();
    let mut ctx = create_ctx(guest, addr(9), addr(3), 42, 5_000);
    ctx.escrow_token_account.amount = u64::MAX;
    let r = initialize(&mut ledger, &mut ctx, 42, 1_000, 100);
    assert_eq!(r, Err(EscrowError::TransferFailed));
}

#[test]
fn derivation_is_deterministic_and_input_sensitive() {
    let guest = addr(7);
    let (a1, b1) = derive_authority(&guest, 42).unwrap();
    let (a2, b2) = derive_authority(&guest, 42).unwrap();
    assert_eq!(a1, a2);
    assert_eq!(b1, b2);

    // changing either input changes the derived authority
    let (a3, _) = derive_authority(&addr(8), 42).unwrap();
    let (a4, _) = derive_authority(&guest, 43).unwrap();
    assert_ne!(a1, a3);
    assert_ne!(a1, a4);

    // the derivation really mixes its inputs: it does not hand the guest back
    assert_ne!(a1, guest);
}

#[test]
fn release_after_create_for_second_apartment() {
    let guest = addr(7);
    let owner = addr(9);
    let mint = addr(3);
    let mut ledger = EscrowLedger::new();

    let mut c1 = create_ctx(guest, owner, mint, 1, 900);
    let h1 = initialize(&mut ledger, &mut c1, 1, 300, 50).unwrap();
    let mut c2 = create_ctx(guest, owner, mint, 2, 600);
    let h2 = initialize(&mut ledger, &mut c2, 2, 200, 60).unwrap();
    assert_eq!((h1, h2), (0, 1));

    assert_eq!(ledger.find_record(&guest, 1), Some(0));
    assert_eq!(ledger.find_record(&guest, 2), Some(1));
    assert_eq!(ledger.find_record(&guest, 3), None);
    assert_eq!(ledger.find_record(&addr(8), 1), None);

    // releasing the second escrow leaves the first untouched
    let mut rctx = ReleasePayment {
        escrow_token_account: c2.escrow_token_account,
        owner_token_account: token(owner, mint, 10),
        usdc_mint: mint,
    };
    assert_eq!(release_payment(&mut ledger, h2, &mut rctx, 60), Ok(()));
    assert_eq!(rctx.owner_token_account.amount, 210);
    assert!(ledger.records[1].rent_ended);
    assert!(!ledger.records[0].rent_ended);
}

#[test]
fn release_payout_account_checks() {
    let guest = addr(7);
    let owner = addr(9);
    let mint = addr(3);
    let mut ledger = EscrowLedger::new();
    let mut ictx = create_ctx(guest, owner, mint, 42, 2_000);
    let handle = initialize(&mut ledger, &mut ictx, 42, 1_000, 100).unwrap();

    // payout account owned by someone other than the recorded owner
    let mut wrong_owner = ReleasePayment {
        escrow_token_account: ictx.escrow_token_account,
        owner_token_account: token(addr(8), mint, 0),
        usdc_mint: mint,
    };
    assert_eq!(release_payment(&mut ledger, handle, &mut wrong_owner, 100), Err(EscrowError::TransferFailed));
    assert!(!ledger.records[0].rent_ended);

    // custody account no longer bound to the derived authority
    let mut unbound = ReleasePayment {
        escrow_token_account: token(guest, mint, 1_000),
        owner_token_account: token(owner, mint, 0),
        usdc_mint: mint,
    };
    assert_eq!(release_payment(&mut ledger, handle, &mut unbound, 100), Err(EscrowError::AuthorityMismatch));
    assert!(!ledger.records[0].rent_ended);
}

#[test]
fn guard_is_inclusive_at_rent_time() {
    let guest = addr(7);
    let mut ledger = EscrowLedger::new();
    let mut ctx = create_ctx(guest, addr(9), addr(3), 42, 2_000);
    initialize(&mut ledger, &mut ctx, 42, 1_000, 500).unwrap();

    let record = ledger.records[0];
    assert_eq!(check_release_guard(&record, 499), Err(EscrowError::TooEarly));
    assert_eq!(check_release_guard(&record, 500), Ok(()));
    assert_eq!(check_release_guard(&record, 501), Ok(()));
}

#[test]
fn transfer_moves_funds_and_checks_authority() {
    let alice = addr(1);
    let bob = addr(2);
    let mint = addr(3);
    let mut from = token(alice, mint, 700);
    let mut to = token(bob, mint, 50);

    // the owner's own signature moves funds and conserves the sum
    let ok = transfer(&mut from, &mut to, &Authorization::Signed { signer: alice }, 200);
    assert_eq!(ok, Ok(()));
    assert_eq!((from.amount, to.amount), (500, 250));

    // a stranger's signature moves nothing
    let bad = transfer(&mut from, &mut to, &Authorization::Signed { signer: bob }, 200);
    assert_eq!(bad, Err(EscrowError::TransferFailed));
    assert_eq!((from.amount, to.amount), (500, 250));

    // a derived authority that is not the account's owner moves nothing
    let unbound = transfer(
        &mut from,
        &mut to,
        &Authorization::Derived { address: bob, bump: 255 },
        200,
    );
    assert_eq!(unbound, Err(EscrowError::TransferFailed));
    assert_eq!((from.amount, to.amount), (500, 250));
}
