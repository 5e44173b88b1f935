use vstd::prelude::*;

use crate::addr::{addr_eq, Address};
use crate::authority::{custody_key_of, derive_authority};
use crate::error::EscrowError;
use crate::token::{credited, debited, transfer, Authorization, TokenAccount};

verus! {

/// One persisted escrow record: the terms of a rental deposit and its
/// lifecycle flags. Created once, mutated exactly once by release.
#[derive(Clone, Copy, Debug)]
pub struct EscrowAccount {
    pub apartment_id: u64,
    pub amount: u64,
    pub owner_address: Address,
    pub guest_address: Address,
    pub rent_time: u64,
    pub rent_started: bool,
    pub rent_ended: bool,
}

/// The record a creation request persists: the given terms, with both
/// lifecycle flags still down.
pub open spec fn fresh_record(apartment_id: u64, amount: u64, rent_time: u64, guest: Address, owner: Address) -> EscrowAccount {
    EscrowAccount {
        apartment_id: apartment_id,
        amount: amount,
        owner_address: owner,
        guest_address: guest,
        rent_time: rent_time,
        rent_started: false,
        rent_ended: false,
    }
}

/// `record` after its one release: both lifecycle flags up, every term
/// unchanged.
pub open spec fn released(record: EscrowAccount) -> EscrowAccount {
    EscrowAccount { rent_started: true, rent_ended: true, ..record }
}

/// Build the record a creation request persists: the given terms, with
/// both lifecycle flags still down.
pub fn make_fresh_record(apartment_id: u64, amount: u64, rent_time: u64, guest: Address, owner: Address) -> (r: EscrowAccount)
    ensures
        r == fresh_record(apartment_id, amount, rent_time, guest, owner),
{
    EscrowAccount {
        apartment_id: apartment_id,
        amount: amount,
        owner_address: owner,
        guest_address: guest,
        rent_time: rent_time,
        rent_started: false,
        rent_ended: false,
    }
}

/// Two records claim the same (guest, apartment) key.
pub open spec fn same_key(a: EscrowAccount, b: EscrowAccount) -> bool {
    a.guest_address@ == b.guest_address@ && a.apartment_id == b.apartment_id
}

/// Some record in `records` holds the (guest, apartment) key.
pub open spec fn has_record_for(records: Seq<EscrowAccount>, guest: Seq<u8>, apartment_id: u64) -> bool {
    exists|i: int|
        0 <= i < records.len() && records[i].guest_address@ == guest
            && records[i].apartment_id == apartment_id
}

/// The accounts and proofs accompanying a creation request: the custody
/// token account the deposit lands in, the guest's token account it
/// leaves, the two counterparties, the expected mint, and whether the
/// guest signed the request.
pub struct InitializeEscrow {
    pub escrow_token_account: TokenAccount,
    pub guest_token_account: TokenAccount,
    pub guest: Address,
    pub guest_signed: bool,
    pub usdc_mint: Address,
    pub owner: Address,
}

/// The accounts accompanying a release request: the custody token account
/// the funds leave, the owner's token account they land in, and the
/// expected mint. No caller identity: release is permissionless.
pub struct ReleasePayment {
    pub escrow_token_account: TokenAccount,
    pub owner_token_account: TokenAccount,
    pub usdc_mint: Address,
}

/// The records this escrow program has persisted, one per
/// (guest, apartment) pair.
pub struct EscrowLedger {
    pub records: Vec<EscrowAccount>,
}

impl EscrowLedger {
    /// At most one record exists per (guest, apartment) key.
    pub open spec fn wf(self) -> bool {
        forall|i: int, j: int|
            0 <= i < j < self.records@.len() ==> !same_key(self.records@[i], self.records@[j])
    }

    /// An empty ledger.
    pub fn new() -> (r: EscrowLedger)
        ensures
            r.records@ == Seq::<EscrowAccount>::empty(),
            r.wf(),
    {
        let r = EscrowLedger { records: Vec::new() };
        proof {
            assert(r.records@ =~= Seq::<EscrowAccount>::empty());
        }
        r
    }

    /// The index of the record for (guest, apartment), if one exists.
    pub fn find_record(&self, guest: &Address, apartment_id: u64) -> (r: Option<usize>)
        ensures
            match r {
                Some(i) => {
                    &&& i < self.records@.len()
                    &&& self.records@[i as int].guest_address@ == guest@
                    &&& self.records@[i as int].apartment_id == apartment_id
                },
                None => !has_record_for(self.records@, guest@, apartment_id),
            },
    {
        let mut i: usize = 0;
        while i < self.records.len()
            invariant
                i <= self.records@.len(),
                forall|j: int|
                    0 <= j < i ==> !(self.records@[j].guest_address@ == guest@
                        && self.records@[j].apartment_id == apartment_id),
            decreases self.records@.len() - i,
        {
            let candidate = &self.records[i];
            if candidate.apartment_id == apartment_id && addr_eq(&candidate.guest_address, guest) {
                return Some(i);
            }
            i += 1;
        }
        None
    }
}

/// The first reason a creation request fails, or None when it succeeds:
/// a record already at the key, a missing guest signature, a guest token
/// account the guest does not own, a mint mismatch, a custody account not
/// bound to the derived authority, or an infeasible deposit transfer.
pub open spec fn initialize_error(records: Seq<EscrowAccount>, ctx: InitializeEscrow, apartment_id: u64, amount: u64) -> Option<EscrowError> {
    if has_record_for(records, ctx.guest@, apartment_id) {
        Some(EscrowError::DuplicateEscrow)
    } else if !ctx.guest_signed {
        Some(EscrowError::UnauthorizedSigner)
    } else if ctx.guest_token_account.owner@ != ctx.guest@ {
        Some(EscrowError::UnauthorizedSigner)
    } else if ctx.guest_token_account.mint@ != ctx.usdc_mint@
        || ctx.escrow_token_account.mint@ != ctx.usdc_mint@ {
        Some(EscrowError::TransferFailed)
    } else if custody_key_of(ctx.guest@, apartment_id) is None
        || ctx.escrow_token_account.owner@ != custody_key_of(ctx.guest@, apartment_id).unwrap().0 {
        Some(EscrowError::AuthorityMismatch)
    } else if amount > ctx.guest_token_account.amount
        || ctx.escrow_token_account.amount + amount > u64::MAX {
        Some(EscrowError::TransferFailed)
    } else {
        None
    }
}

/// Create an escrow for (guest, apartment): persist a fresh record with
/// the given terms and move `amount` from the guest's token account into
/// the custody account owned by the derived authority. All-or-nothing:
/// on any error, ledger and balances are unchanged.
pub fn initialize(ledger: &mut EscrowLedger, ctx: &mut InitializeEscrow, apartment_id: u64, amount: u64, rent_time: u64) -> (r: Result<usize, EscrowError>)
    requires
        old(ledger).wf(),
    ensures
        final(ledger).wf(),
        final(ctx).guest == old(ctx).guest,
        final(ctx).guest_signed == old(ctx).guest_signed,
        final(ctx).usdc_mint == old(ctx).usdc_mint,
        final(ctx).owner == old(ctx).owner,
        match r {
            Ok(handle) => {
                &&& initialize_error(old(ledger).records@, *old(ctx), apartment_id, amount) is None
                &&& handle == old(ledger).records@.len()
                &&& final(ledger).records@ == old(ledger).records@.push(
                    fresh_record(apartment_id, amount, rent_time, old(ctx).guest, old(ctx).owner))
                &&& final(ctx).guest_token_account == debited(old(ctx).guest_token_account, amount)
                &&& final(ctx).escrow_token_account == credited(old(ctx).escrow_token_account, amount)
            },
            Err(e) => {
                &&& Some(e) == initialize_error(old(ledger).records@, *old(ctx), apartment_id, amount)
                &&& final(ledger).records@ == old(ledger).records@
                &&& final(ctx).guest_token_account == old(ctx).guest_token_account
                &&& final(ctx).escrow_token_account == old(ctx).escrow_token_account
            },
        },
{
    if ledger.find_record(&ctx.guest, apartment_id).is_some() {
        return Err(EscrowError::DuplicateEscrow);
    }
    if !ctx.guest_signed {
        return Err(EscrowError::UnauthorizedSigner);
    }
    if !addr_eq(&ctx.guest_token_account.owner, &ctx.guest) {
        return Err(EscrowError::UnauthorizedSigner);
    }
    if !addr_eq(&ctx.guest_token_account.mint, &ctx.usdc_mint)
        || !addr_eq(&ctx.escrow_token_account.mint, &ctx.usdc_mint) {
        return Err(EscrowError::TransferFailed);
    }
    let custody = match derive_authority(&ctx.guest, apartment_id) {
        Some(pair) => pair.0,
        None => {
            return Err(EscrowError::AuthorityMismatch);
        },
    };
    if !addr_eq(&ctx.escrow_token_account.owner, &custody) {
        return Err(EscrowError::AuthorityMismatch);
    }
    if amount > ctx.guest_token_account.amount
        || ctx.escrow_token_account.amount > u64::MAX - amount {
        return Err(EscrowError::TransferFailed);
    }
    let auth = Authorization::Signed { signer: ctx.guest };
    let moved = transfer(&mut ctx.guest_token_account, &mut ctx.escrow_token_account, &auth, amount);
    if moved.is_err() {
        // the checks above establish every transfer_ok condition, so the
        // deposit cannot fail
        proof {
            assert(false);
        }
        return Err(EscrowError::TransferFailed);
    }
    let record = EscrowAccount {
        apartment_id: apartment_id,
        amount: amount,
        owner_address: ctx.owner,
        guest_address: ctx.guest,
        rent_time: rent_time,
        rent_started: false,
        rent_ended: false,
    };
    let handle = ledger.records.len();
    ledger.records.push(record);
    proof {
        let recs = ledger.records@;
        assert forall|i: int, j: int| 0 <= i < j < recs.len() implies !same_key(recs[i], recs[j]) by {
            if j == recs.len() - 1 {
                assert(!has_record_for(old(ledger).records@, old(ctx).guest@, apartment_id));
                assert(recs[i] == old(ledger).records@[i]);
            }
        }
    }
    Ok(handle)
}

/// The first reason a release request against `records[handle]` fails, or
/// None when it succeeds: the record already released, the rent time not
/// yet reached, a custody account not bound to the re-derived authority,
/// a mint or owner mismatch, or an infeasible payout transfer.
pub open spec fn release_error(records: Seq<EscrowAccount>, handle: int, ctx: ReleasePayment, now: u64) -> Option<EscrowError> {
    let record = records[handle];
    if record.rent_ended {
        Some(EscrowError::AlreadyReleased)
    } else if now < record.rent_time {
        Some(EscrowError::TooEarly)
    } else if custody_key_of(record.guest_address@, record.apartment_id) is None
        || ctx.escrow_token_account.owner@ != custody_key_of(record.guest_address@, record.apartment_id).unwrap().0 {
        Some(EscrowError::AuthorityMismatch)
    } else if ctx.escrow_token_account.mint@ != ctx.usdc_mint@
        || ctx.owner_token_account.mint@ != ctx.usdc_mint@
        || ctx.owner_token_account.owner@ != record.owner_address@ {
        Some(EscrowError::TransferFailed)
    } else if record.amount > ctx.escrow_token_account.amount
        || ctx.owner_token_account.amount + record.amount > u64::MAX {
        Some(EscrowError::TransferFailed)
    } else {
        None
    }
}

/// The time-gated release guard alone: permitted exactly when the record
/// is not yet released and ledger time has reached its rent time. The
/// guard at the boundary is inclusive: `now == rent_time` passes.
pub fn check_release_guard(record: &EscrowAccount, now: u64) -> (r: Result<(), EscrowError>)
    ensures
        r == Ok::<(), EscrowError>(()) <==> (!record.rent_ended && now >= record.rent_time),
        record.rent_ended ==> r == Err::<(), EscrowError>(EscrowError::AlreadyReleased),
        (!record.rent_ended && now < record.rent_time) ==> r == Err::<(), EscrowError>(EscrowError::TooEarly),
{
    if record.rent_ended {
        Err(EscrowError::AlreadyReleased)
    } else if now < record.rent_time {
        Err(EscrowError::TooEarly)
    } else {
        Ok(())
    }
}

/// Release the escrowed funds of `records[handle]` to the owner. Any
/// caller may request it; authorization comes from the re-derived custody
/// authority, which signs the payout out of the custody account. One-shot
/// and all-or-nothing: a successful release flips both lifecycle flags
/// exactly once, and on any error, ledger and balances are unchanged.
pub fn release_payment(ledger: &mut EscrowLedger, handle: usize, ctx: &mut ReleasePayment, now: u64) -> (r: Result<(), EscrowError>)
    requires
        old(ledger).wf(),
        handle < old(ledger).records@.len(),
    ensures
        final(ledger).wf(),
        final(ledger).records@.len() == old(ledger).records@.len(),
        final(ctx).usdc_mint == old(ctx).usdc_mint,
        match r {
            Ok(()) => {
                &&& release_error(old(ledger).records@, handle as int, *old(ctx), now) is None
                &&& final(ledger).records@ == old(ledger).records@.update(
                    handle as int, released(old(ledger).records@[handle as int]))
                &&& final(ctx).escrow_token_account == debited(
                    old(ctx).escrow_token_account, old(ledger).records@[handle as int].amount)
                &&& final(ctx).owner_token_account == credited(
                    old(ctx).owner_token_account, old(ledger).records@[handle as int].amount)
            },
            Err(e) => {
                &&& Some(e) == release_error(old(ledger).records@, handle as int, *old(ctx), now)
                &&& final(ledger).records@ == old(ledger).records@
                &&& final(ctx).escrow_token_account == old(ctx).escrow_token_account
                &&& final(ctx).owner_token_account == old(ctx).owner_token_account
            },
        },
{
    let record = ledger.records[handle];
    let guard = check_release_guard(&record, now);
    if let Err(e) = guard {
        return Err(e);
    }
    let (custody, bump) = match derive_authority(&record.guest_address, record.apartment_id) {
        Some(pair) => pair,
        None => {
            return Err(EscrowError::AuthorityMismatch);
        },
    };
    if !addr_eq(&ctx.escrow_token_account.owner, &custody) {
        return Err(EscrowError::AuthorityMismatch);
    }
    if !addr_eq(&ctx.escrow_token_account.mint, &ctx.usdc_mint)
        || !addr_eq(&ctx.owner_token_account.mint, &ctx.usdc_mint)
        || !addr_eq(&ctx.owner_token_account.owner, &record.owner_address) {
        return Err(EscrowError::TransferFailed);
    }
    if record.amount > ctx.escrow_token_account.amount
        || ctx.owner_token_account.amount > u64::MAX - record.amount {
        return Err(EscrowError::TransferFailed);
    }
    let auth = Authorization::Derived { address: custody, bump: bump };
    let moved = transfer(&mut ctx.escrow_token_account, &mut ctx.owner_token_account, &auth, record.amount);
    if moved.is_err() {
        // the checks above establish every transfer_ok condition, so the
        // payout cannot fail
        proof {
            assert(false);
        }
        return Err(EscrowError::TransferFailed);
    }
    let updated = EscrowAccount { rent_started: true, rent_ended: true, ..record };
    ledger.records[handle] = updated;
    proof {
        let recs = ledger.records@;
        let olds = old(ledger).records@;
        assert forall|i: int, j: int| 0 <= i < j < recs.len() implies !same_key(recs[i], recs[j]) by {
            assert(!same_key(olds[i], olds[j]));
            if i == handle {
                assert(same_key(recs[i], olds[i]));
                assert(recs[j] == olds[j]);
            } else if j == handle {
                assert(same_key(recs[j], olds[j]));
                assert(recs[i] == olds[i]);
            } else {
                assert(recs[i] == olds[i]);
                assert(recs[j] == olds[j]);
            }
        }
    }
    Ok(())
}

} // verus!
