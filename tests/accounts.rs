use sss_one::account_key::AccountKey;
use sss_one::accounts::{
    decrement, deposit, deposit_tokens, increment, initialize_counter, initialize_pda,
    initialize_vault, Counter, DepositWithdraw, InitializeCounter, InitializePda,
    InitializeVault, UpdateCounter, UserAccount, Vault,
};
use sss_one::error::ErrorCode;

fn key(b: u8) -> AccountKey {
    AccountKey::new([b; 32])
}

#[test]
fn counter_counts_for_its_authority() {
    let mut c = initialize_counter(&InitializeCounter { user: key(1) });
    assert_eq!(c, Counter { count: 0, authority: key(1) });
    let ctx = UpdateCounter { user: key(1) };
    increment(&mut c, &ctx).unwrap();
    increment(&mut c, &ctx).unwrap();
    assert_eq!(c.count, 2);
    decrement(&mut c, &ctx).unwrap();
    assert_eq!(c.count, 1);
}

#[test]
fn counter_refuses_others_and_limits() {
    let mut c = initialize_counter(&InitializeCounter { user: key(1) });
    let other = UpdateCounter { user: key(2) };
    assert_eq!(increment(&mut c, &other), Err(ErrorCode::Unauthorized));
    assert_eq!(decrement(&mut c, &other), Err(ErrorCode::Unauthorized));
    let ctx = UpdateCounter { user: key(1) };
    assert_eq!(decrement(&mut c, &ctx), Err(ErrorCode::Underflow));
    assert_eq!(c.count, 0);
    c.count = u64::MAX;
    assert_eq!(increment(&mut c, &ctx), Err(ErrorCode::Overflow));
    assert_eq!(c.count, u64::MAX);
}

#[test]
fn deposits_accumulate_for_owner_only() {
    let mut a = initialize_pda(&InitializePda { user: key(3) }, 254);
    assert_eq!(a, UserAccount { owner: key(3), bump: 254, balance: 0 });
    deposit(&mut a, &DepositWithdraw { user: key(3) }, 1_000).unwrap();
    deposit(&mut a, &DepositWithdraw { user: key(3) }, 500).unwrap();
    assert_eq!(a.balance, 1_500);
    assert_eq!(deposit(&mut a, &DepositWithdraw { user: key(4) }, 1), Err(ErrorCode::Unauthorized));
    assert_eq!(deposit(&mut a, &DepositWithdraw { user: key(3) }, u64::MAX), Err(ErrorCode::Overflow));
    assert_eq!(a.balance, 1_500);
}

#[test]
fn vault_deposits_accumulate() {
    let mut v = initialize_vault(&InitializeVault { user: key(5), user_token_account: key(6) });
    assert_eq!(v, Vault { owner: key(5), token_account: key(6), amount: 0 });
    deposit_tokens(&mut v, 40).unwrap();
    deposit_tokens(&mut v, 2).unwrap();
    assert_eq!(v.amount, 42);
    assert_eq!(deposit_tokens(&mut v, u64::MAX), Err(ErrorCode::Overflow));
    assert_eq!(v.amount, 42);
}

#[test]
fn account_record_sizes() {
    assert_eq!(Counter::SIZE, 40);
    assert_eq!(UserAccount::SIZE, 41);
    assert_eq!(Vault::SIZE, 72);
}
