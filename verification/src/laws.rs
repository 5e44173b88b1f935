use vstd::prelude::*;

use crate::error::EscrowError;
use crate::escrow::{fresh_record, has_record_for, initialize_error, release_error, released, EscrowAccount, InitializeEscrow, ReleasePayment};
use crate::token::{credited, debited, TokenAccount};

verus! {

/// Law (one-shot release): when a release of `records[handle]` succeeds
/// against a custody account holding exactly the record's amount, the
/// custody account is left empty, and a second release of the same record
/// fails with AlreadyReleased, whatever time it is attempted at; and an
/// erring release changes nothing, so the custody account stays empty.
pub proof fn lemma_one_shot_release(records: Seq<EscrowAccount>, handle: int, ctx: ReleasePayment, now1: u64, now2: u64)
    requires
        0 <= handle < records.len(),
        release_error(records, handle, ctx, now1) is None,
        ctx.escrow_token_account.amount == records[handle].amount,
    ensures
        ({
            let record = records[handle];
            let records_after = records.update(handle, released(record));
            let ctx_after = (ReleasePayment {
                escrow_token_account: debited(ctx.escrow_token_account, record.amount),
                owner_token_account: credited(ctx.owner_token_account, record.amount),
                usdc_mint: ctx.usdc_mint,
            });
            &&& debited(ctx.escrow_token_account, record.amount).amount == 0
            &&& release_error(records_after, handle, ctx_after, now2)
                == Some(EscrowError::AlreadyReleased)
        }),
{
}

/// Law (time guard, refusal): a release of a not-yet-released record
/// before its rent time fails with TooEarly, whatever the accounts hold;
/// an erring release leaves record and balances unchanged.
pub proof fn lemma_time_guard_too_early(records: Seq<EscrowAccount>, handle: int, ctx: ReleasePayment, now: u64)
    requires
        0 <= handle < records.len(),
        !records[handle].rent_ended,
        now < records[handle].rent_time,
    ensures
        release_error(records, handle, ctx, now) == Some(EscrowError::TooEarly),
{
}

/// Law (time guard, boundary): the guard is inclusive. If a release of a
/// record would succeed at some time, it also succeeds at exactly the
/// record's rent time.
pub proof fn lemma_time_guard_boundary(records: Seq<EscrowAccount>, handle: int, ctx: ReleasePayment, some_time: u64, now: u64)
    requires
        0 <= handle < records.len(),
        release_error(records, handle, ctx, some_time) is None,
        now == records[handle].rent_time,
    ensures
        release_error(records, handle, ctx, now) is None,
{
}

/// Law (balance conservation): across a successful creation and the
/// subsequent successful release, the sum of the guest, custody and owner
/// balances is invariant; the release leaves the custody account empty
/// and pays the owner exactly the escrowed amount.
pub proof fn lemma_balance_conservation(records: Seq<EscrowAccount>, ictx: InitializeEscrow, owner_token: TokenAccount, apartment_id: u64, amount: u64, rent_time: u64, now: u64)
    requires
        initialize_error(records, ictx, apartment_id, amount) is None,
        ictx.escrow_token_account.amount == 0,
        ({
            let rctx = (ReleasePayment {
                escrow_token_account: credited(ictx.escrow_token_account, amount),
                owner_token_account: owner_token,
                usdc_mint: ictx.usdc_mint,
            });
            release_error(
                records.push(fresh_record(apartment_id, amount, rent_time, ictx.guest, ictx.owner)),
                records.len() as int,
                rctx,
                now,
            ) is None
        }),
    ensures
        ({
            let guest_after = debited(ictx.guest_token_account, amount);
            let custody_mid = credited(ictx.escrow_token_account, amount);
            let custody_after = debited(custody_mid, amount);
            let owner_after = credited(owner_token, amount);
            &&& guest_after.amount + custody_mid.amount + owner_token.amount
                == ictx.guest_token_account.amount + ictx.escrow_token_account.amount
                    + owner_token.amount
            &&& guest_after.amount + custody_after.amount + owner_after.amount
                == ictx.guest_token_account.amount + ictx.escrow_token_account.amount
                    + owner_token.amount
            &&& custody_after.amount == 0
            &&& owner_after.amount == owner_token.amount + amount
        }),
{
}

/// Law (no duplicate records): a creation request for a (guest,
/// apartment) pair that already has a record fails with DuplicateEscrow.
pub proof fn lemma_no_duplicate(records: Seq<EscrowAccount>, ctx: InitializeEscrow, apartment_id: u64, amount: u64)
    requires
        has_record_for(records, ctx.guest@, apartment_id),
    ensures
        initialize_error(records, ctx, apartment_id, amount) == Some(EscrowError::DuplicateEscrow),
{
}

/// Law (no duplicate records, composed): right after a creation for a
/// (guest, apartment) pair succeeds, a second creation for the same pair
/// fails with DuplicateEscrow, whatever its other inputs.
pub proof fn lemma_create_then_duplicate(records: Seq<EscrowAccount>, ctx: InitializeEscrow, ctx2: InitializeEscrow, apartment_id: u64, amount: u64, rent_time: u64, amount2: u64)
    requires
        initialize_error(records, ctx, apartment_id, amount) is None,
        ctx2.guest@ == ctx.guest@,
    ensures
        initialize_error(
            records.push(fresh_record(apartment_id, amount, rent_time, ctx.guest, ctx.owner)),
            ctx2,
            apartment_id,
            amount2,
        ) == Some(EscrowError::DuplicateEscrow),
{
    let record = fresh_record(apartment_id, amount, rent_time, ctx.guest, ctx.owner);
    let grown = records.push(record);
    assert(grown[records.len() as int] == record);
    assert(has_record_for(grown, ctx2.guest@, apartment_id));
}

} // verus!
