use vstd::prelude::*;
use crate::account_key::AccountKey;
use crate::error::ErrorCode;

verus! {

/// A counter that only its authority may change.
#[derive(Clone, Copy, Debug, PartialEq, Eq)]
pub struct Counter {
    pub count: u64,
    pub authority: AccountKey,
}

impl Counter {
    /// Bytes that the stored record takes.
    pub const SIZE: usize = 8 + 32;
}

/// A per-user record of deposited lamports, stored at an address derived
/// from the owner's key with the bump seed `bump`.
#[derive(Clone, Copy, Debug, PartialEq, Eq)]
pub struct UserAccount {
    pub owner: AccountKey,
    pub bump: u8,
    pub balance: u64,
}

impl UserAccount {
    /// Bytes that the stored record takes.
    pub const SIZE: usize = 32 + 1 + 8;
}

/// A record of the tokens deposited into one owner's vault.
#[derive(Clone, Copy, Debug, PartialEq, Eq)]
pub struct Vault {
    pub owner: AccountKey,
    pub token_account: AccountKey,
    pub amount: u64,
}

impl Vault {
    /// Bytes that the stored record takes.
    pub const SIZE: usize = 32 + 32 + 8;
}

/// The signer that creates a counter.
#[derive(Clone, Copy, Debug, PartialEq, Eq)]
pub struct InitializeCounter {
    pub user: AccountKey,
}

/// The signer that changes a counter.
#[derive(Clone, Copy, Debug, PartialEq, Eq)]
pub struct UpdateCounter {
    pub user: AccountKey,
}

/// The signer whose deposit record is created.
#[derive(Clone, Copy, Debug, PartialEq, Eq)]
pub struct InitializePda {
    pub user: AccountKey,
}

/// The signer that deposits into its record.
#[derive(Clone, Copy, Debug, PartialEq, Eq)]
pub struct DepositWithdraw {
    pub user: AccountKey,
}

/// The signer whose vault is created, and its token account.
#[derive(Clone, Copy, Debug, PartialEq, Eq)]
pub struct InitializeVault {
    pub user: AccountKey,
    pub user_token_account: AccountKey,
}

/// A counter at zero owned by the signer.
pub fn initialize_counter(ctx: &InitializeCounter) -> (r: Counter)
    ensures
        r == (Counter { count: 0, authority: ctx.user }),
{
    Counter { count: 0, authority: ctx.user }
}

/// Adds one to the counter, for its authority only.
pub fn increment(counter: &mut Counter, ctx: &UpdateCounter) -> (r: Result<(), ErrorCode>)
    ensures
        ctx.user != old(counter).authority ==> r == Err::<(), ErrorCode>(ErrorCode::Unauthorized),
        ctx.user == old(counter).authority && old(counter).count == u64::MAX ==> r == Err::<
            (),
            ErrorCode,
        >(ErrorCode::Overflow),
        r is Err ==> *final(counter) == *old(counter),
        r is Ok <==> ctx.user == old(counter).authority && old(counter).count < u64::MAX,
        r is Ok ==> *final(counter) == (Counter {
            count: (old(counter).count + 1) as u64,
            ..*old(counter)
        }),
{
    if !(counter.authority == ctx.user) {
        return Err(ErrorCode::Unauthorized);
    }
    if counter.count == u64::MAX {
        return Err(ErrorCode::Overflow);
    }
    counter.count = counter.count + 1;
    Ok(())
}

/// Takes one from the counter, for its authority only, never below zero.
pub fn decrement(counter: &mut Counter, ctx: &UpdateCounter) -> (r: Result<(), ErrorCode>)
    ensures
        ctx.user != old(counter).authority ==> r == Err::<(), ErrorCode>(ErrorCode::Unauthorized),
        ctx.user == old(counter).authority && old(counter).count == 0 ==> r == Err::<
            (),
            ErrorCode,
        >(ErrorCode::Underflow),
        r is Err ==> *final(counter) == *old(counter),
        r is Ok <==> ctx.user == old(counter).authority && old(counter).count > 0,
        r is Ok ==> *final(counter) == (Counter {
            count: (old(counter).count - 1) as u64,
            ..*old(counter)
        }),
{
    if !(counter.authority == ctx.user) {
        return Err(ErrorCode::Unauthorized);
    }
    if counter.count == 0 {
        return Err(ErrorCode::Underflow);
    }
    counter.count = counter.count - 1;
    Ok(())
}

/// An empty deposit record for the signer, with its address's bump seed.
pub fn initialize_pda(ctx: &InitializePda, bump: u8) -> (r: UserAccount)
    ensures
        r == (UserAccount { owner: ctx.user, bump, balance: 0 }),
{
    UserAccount { owner: ctx.user, bump, balance: 0 }
}

/// Records a deposit of `amount` lamports by the record's owner. The
/// transfer itself is made by the system program in the same transaction.
pub fn deposit(user_account: &mut UserAccount, ctx: &DepositWithdraw, amount: u64) -> (r: Result<
    (),
    ErrorCode,
>)
    ensures
        ctx.user != old(user_account).owner ==> r == Err::<(), ErrorCode>(
            ErrorCode::Unauthorized,
        ),
        ctx.user == old(user_account).owner && old(user_account).balance + amount > u64::MAX
            ==> r == Err::<(), ErrorCode>(ErrorCode::Overflow),
        r is Err ==> *final(user_account) == *old(user_account),
        r is Ok <==> ctx.user == old(user_account).owner && old(user_account).balance + amount
            <= u64::MAX,
        r is Ok ==> *final(user_account) == (UserAccount {
            balance: (old(user_account).balance + amount) as u64,
            ..*old(user_account)
        }),
{
    if !(user_account.owner == ctx.user) {
        return Err(ErrorCode::Unauthorized);
    }
    let new_balance = match user_account.balance.checked_add(amount) {
        Some(v) => v,
        None => {
            return Err(ErrorCode::Overflow);
        },
    };
    user_account.balance = new_balance;
    Ok(())
}

/// An empty vault for the signer's token account.
pub fn initialize_vault(ctx: &InitializeVault) -> (r: Vault)
    ensures
        r == (Vault { owner: ctx.user, token_account: ctx.user_token_account, amount: 0 }),
{
    Vault { owner: ctx.user, token_account: ctx.user_token_account, amount: 0 }
}

/// Records a deposit of `amount` tokens into the vault. The token transfer
/// itself is made by the token ledger in the same transaction.
pub fn deposit_tokens(vault: &mut Vault, amount: u64) -> (r: Result<(), ErrorCode>)
    ensures
        old(vault).amount + amount > u64::MAX ==> r == Err::<(), ErrorCode>(ErrorCode::Overflow)
            && *final(vault) == *old(vault),
        old(vault).amount + amount <= u64::MAX ==> r is Ok && *final(vault) == (Vault {
            amount: (old(vault).amount + amount) as u64,
            ..*old(vault)
        }),
{
    let new_amount = match vault.amount.checked_add(amount) {
        Some(v) => v,
        None => {
            return Err(ErrorCode::Overflow);
        },
    };
    vault.amount = new_amount;
    Ok(())
}

} // verus!
