use vstd::prelude::*;

use crate::addr::{addr_eq, Address};
use crate::error::EscrowError;

verus! {

/// The state of one fungible-token account: who may spend it, which mint
/// its units belong to, and how many units it holds.
#[derive(Clone, Copy, Debug)]
pub struct TokenAccount {
    pub owner: Address,
    pub mint: Address,
    pub amount: u64,
}

/// What authorizes a transfer out of an account: a conventional signature
/// by the holder of a key, or the program-derived custody authority
/// together with the bump disambiguator that completes its seeds.
#[derive(Clone, Copy, Debug)]
pub enum Authorization {
    Signed { signer: Address },
    Derived { address: Address, bump: u8 },
}

/// The identity that an authorization signs as.
pub open spec fn authorizing_address(auth: Authorization) -> Seq<u8> {
    match auth {
        Authorization::Signed { signer } => signer@,
        Authorization::Derived { address, bump } => address@,
    }
}

/// When a transfer of `amount` from `from` to `to` under `auth` completes:
/// the authorization signs as the source account's owner, the mints agree,
/// the source balance suffices, and the credit does not overflow.
pub open spec fn transfer_ok(from: TokenAccount, to: TokenAccount, auth: Authorization, amount: u64) -> bool {
    &&& authorizing_address(auth) == from.owner@
    &&& from.mint@ == to.mint@
    &&& amount <= from.amount
    &&& to.amount + amount <= u64::MAX
}

/// `account` with `amount` units taken out.
pub open spec fn debited(account: TokenAccount, amount: u64) -> TokenAccount {
    TokenAccount { amount: (account.amount - amount) as u64, ..account }
}

/// `account` with `amount` units added.
pub open spec fn credited(account: TokenAccount, amount: u64) -> TokenAccount {
    TokenAccount { amount: (account.amount + amount) as u64, ..account }
}

/// The modeled token-transfer collaborator: moves `amount` from `from` to
/// `to` when `transfer_ok` holds, and otherwise fails without touching
/// either account. The movement is atomic and conserves the two balances.
pub fn transfer(from: &mut TokenAccount, to: &mut TokenAccount, authority: &Authorization, amount: u64) -> (r: Result<(), EscrowError>)
    ensures
        transfer_ok(*old(from), *old(to), *authority, amount) ==> {
            &&& r == Ok::<(), EscrowError>(())
            &&& *final(from) == debited(*old(from), amount)
            &&& *final(to) == credited(*old(to), amount)
        },
        !transfer_ok(*old(from), *old(to), *authority, amount) ==> {
            &&& r == Err::<(), EscrowError>(EscrowError::TransferFailed)
            &&& *final(from) == *old(from)
            &&& *final(to) == *old(to)
        },
{
    let authorized = match authority {
        Authorization::Signed { signer } => addr_eq(signer, &from.owner),
        Authorization::Derived { address, bump: _ } => addr_eq(address, &from.owner),
    };
    if !authorized || !addr_eq(&from.mint, &to.mint) || amount > from.amount
        || to.amount > u64::MAX - amount {
        return Err(EscrowError::TransferFailed);
    }
    from.amount = from.amount - amount;
    to.amount = to.amount + amount;
    Ok(())
}

} // verus!
