use cpamm::identity::{key_eq, key_lt, AccountId};
use cpamm::outcome::{Outcome, Violation};
use cpamm::requests::{
    Deposit, InitSwapToken, MintInfo, NewSwap, Swap, SwapToken, SwapTokenWithFees,
    TokenAccountInfo, Withdraw,
};
use cpamm::state::{resolve, Role, SwapInfo, SwapTokenInfo};
use cpamm::validate::{
    check_distinct, check_keys, validate_deposit, validate_init_swap_token, validate_new_swap,
    validate_new_swap_meta, validate_operation, validate_swap, validate_swap_token,
    validate_swap_token_with_fees, validate_withdraw, Operation,
};

fn id(n: u8) -> AccountId {
    AccountId::new([n; 32])
}

fn ata(owner: &AccountId, mint: &AccountId) -> AccountId {
    let owner_key = solana_pubkey::Pubkey::new_from_array(owner.bytes);
    let mint_key = solana_pubkey::Pubkey::new_from_array(mint.bytes);
    let derived = spl_associated_token_account_client::address::get_associated_token_address(
        &owner_key, &mint_key,
    );
    AccountId::new(derived.to_bytes())
}

fn token_acct(key: AccountId, mint: AccountId, owner: AccountId) -> TokenAccountInfo {
    TokenAccountInfo { key, mint, owner }
}

fn pool() -> SwapInfo {
    SwapInfo {
        key: id(9),
        token_0: SwapTokenInfo {
            mint: id(1),
            reserves: id(41),
            admin_fees: id(51),
        },
        token_1: SwapTokenInfo {
            mint: id(2),
            reserves: id(42),
            admin_fees: id(52),
        },
        pool_mint: id(3),
        is_paused: false,
    }
}

fn happy_swap() -> Swap {
    Swap {
        input: SwapToken {
            user: token_acct(id(61), id(1), id(100)),
            reserve: token_acct(id(41), id(1), id(9)),
        },
        output: SwapToken {
            user: token_acct(id(62), id(2), id(100)),
            reserve: token_acct(id(42), id(2), id(9)),
        },
    }
}

fn happy_new_swap() -> NewSwap {
    let swap = id(9);
    let mint0 = id(1);
    let mint1 = id(2);
    NewSwap {
        swap,
        pool_mint: MintInfo {
            key: id(3),
            decimals: 9,
            mint_authority: Some(swap),
            freeze_authority: Some(swap),
        },
        output_lp: token_acct(id(70), id(3), id(100)),
        token_0: InitSwapToken {
            mint: MintInfo {
                key: mint0,
                decimals: 6,
                mint_authority: None,
                freeze_authority: None,
            },
            reserve: token_acct(ata(&swap, &mint0), mint0, swap),
            fees: token_acct(id(51), mint0, swap),
        },
        token_1: InitSwapToken {
            mint: MintInfo {
                key: mint1,
                decimals: 9,
                mint_authority: None,
                freeze_authority: None,
            },
            reserve: token_acct(ata(&swap, &mint1), mint1, swap),
            fees: token_acct(id(52), mint1, swap),
        },
    }
}

fn happy_deposit() -> Deposit {
    Deposit {
        input_0: SwapTokenWithFees {
            user: token_acct(id(61), id(1), id(100)),
            reserve: token_acct(id(41), id(1), id(9)),
            fees: token_acct(id(51), id(1), id(9)),
        },
        input_1: SwapTokenWithFees {
            user: token_acct(id(62), id(2), id(100)),
            reserve: token_acct(id(42), id(2), id(9)),
            fees: token_acct(id(52), id(2), id(9)),
        },
        pool_mint: id(3),
        output_lp: token_acct(id(70), id(3), id(100)),
    }
}

fn happy_withdraw() -> Withdraw {
    let d = happy_deposit();
    Withdraw {
        pool_mint: id(3),
        input_lp: token_acct(id(70), id(3), id(100)),
        output_0: d.input_0,
        output_1: d.input_1,
    }
}

// ---- identity primitives ----

#[test]
fn key_eq_basics() {
    assert!(key_eq(&id(1), &id(1)));
    assert!(!key_eq(&id(1), &id(2)));
    let mut a = [7u8; 32];
    let b = a;
    a[31] = 8;
    assert!(!key_eq(&AccountId::new(a), &AccountId::new(b)));
}

#[test]
fn key_lt_basics() {
    assert!(key_lt(&id(1), &id(2)));
    assert!(!key_lt(&id(2), &id(1)));
    assert!(!key_lt(&id(1), &id(1)));
}

#[test]
fn key_lt_first_difference_decides() {
    let mut a = [5u8; 32];
    let mut b = [5u8; 32];
    a[3] = 1;
    b[3] = 2;
    a[4] = 200;
    b[4] = 100;
    assert!(key_lt(&AccountId::new(a), &AccountId::new(b)));
    assert!(!key_lt(&AccountId::new(b), &AccountId::new(a)));
}

#[test]
fn check_keys_primitive() {
    assert_eq!(
        check_keys(&id(1), &id(1), Violation::KeyMismatch),
        Outcome::Valid
    );
    assert_eq!(
        check_keys(&id(1), &id(2), Violation::KeyMismatch),
        Outcome::Invalid(Violation::KeyMismatch)
    );
}

#[test]
fn check_distinct_primitive() {
    assert_eq!(
        check_distinct(&id(1), &id(2), Violation::SelfDealing),
        Outcome::Valid
    );
    assert_eq!(
        check_distinct(&id(1), &id(1), Violation::SelfDealing),
        Outcome::Invalid(Violation::SelfDealing)
    );
}

#[test]
fn resolver_returns_each_role() {
    let p = pool();
    assert!(key_eq(&resolve(&p, Role::Token0Mint), &id(1)));
    assert!(key_eq(&resolve(&p, Role::Token0Reserve), &id(41)));
    assert!(key_eq(&resolve(&p, Role::Token0Fees), &id(51)));
    assert!(key_eq(&resolve(&p, Role::Token1Mint), &id(2)));
    assert!(key_eq(&resolve(&p, Role::Token1Reserve), &id(42)));
    assert!(key_eq(&resolve(&p, Role::Token1Fees), &id(52)));
    assert!(key_eq(&resolve(&p, Role::PoolMint), &id(3)));
    assert!(key_eq(&resolve(&p, Role::PoolKey), &id(9)));
}

#[test]
fn violation_messages_are_specific() {
    assert_eq!(Violation::PoolPaused.message(), "pool is paused");
    assert_eq!(Violation::FeeEqualsReserve.message(), "fees cannot equal reserve");
    assert_ne!(
        Violation::ReserveMismatch.message(),
        Violation::FeeMismatch.message()
    );
}

// ---- pool creation ----

#[test]
fn create_pool_valid() {
    assert_eq!(validate_new_swap(&happy_new_swap()), Outcome::Valid);
}

#[test]
fn create_pool_reserve_not_canonical() {
    let mut req = happy_new_swap();
    req.token_0.reserve = token_acct(id(80), id(1), id(9));
    assert_eq!(
        validate_new_swap(&req),
        Outcome::Invalid(Violation::ReserveMismatch)
    );
}

#[test]
fn create_pool_decimals_mismatch() {
    let mut req = happy_new_swap();
    req.pool_mint.decimals = 6;
    assert_eq!(
        validate_new_swap(&req),
        Outcome::Invalid(Violation::DecimalsMismatch)
    );
}

#[test]
fn create_pool_missing_mint_authority() {
    let mut req = happy_new_swap();
    req.pool_mint.mint_authority = None;
    assert_eq!(
        validate_new_swap(&req),
        Outcome::Invalid(Violation::MissingAuthority)
    );
}

#[test]
fn create_pool_missing_freeze_authority() {
    let mut req = happy_new_swap();
    req.pool_mint.freeze_authority = None;
    assert_eq!(
        validate_new_swap(&req),
        Outcome::Invalid(Violation::MissingAuthority)
    );
}

#[test]
fn create_pool_wrong_mint_authority() {
    let mut req = happy_new_swap();
    req.pool_mint.mint_authority = Some(id(99));
    assert_eq!(
        validate_new_swap(&req),
        Outcome::Invalid(Violation::AuthorityMismatch)
    );
}

#[test]
fn create_pool_wrong_lp_destination_mint() {
    let mut req = happy_new_swap();
    req.output_lp.mint = id(4);
    assert_eq!(
        validate_new_swap(&req),
        Outcome::Invalid(Violation::MintMismatch)
    );
}

#[test]
fn create_pool_tokens_equal() {
    let mut req = happy_new_swap();
    req.token_1.mint.key = id(1);
    assert_eq!(
        validate_new_swap(&req),
        Outcome::Invalid(Violation::TokensEqual)
    );
}

#[test]
fn create_pool_tokens_not_sorted() {
    let mut req = happy_new_swap();
    req.token_0.mint.key = id(2);
    req.token_1.mint.key = id(1);
    assert_eq!(
        validate_new_swap(&req),
        Outcome::Invalid(Violation::TokensNotSorted)
    );
}

#[test]
fn create_pool_fee_equals_reserve() {
    let mut req = happy_new_swap();
    let swap = id(9);
    let mint0 = id(1);
    req.token_0.fees = token_acct(ata(&swap, &mint0), mint0, swap);
    assert_eq!(
        validate_new_swap(&req),
        Outcome::Invalid(Violation::FeeEqualsReserve)
    );
}

#[test]
fn create_pool_fees_hold_wrong_mint() {
    let mut req = happy_new_swap();
    req.token_0.fees.mint = id(2);
    assert_eq!(
        validate_new_swap(&req),
        Outcome::Invalid(Violation::MintMismatch)
    );
}

#[test]
fn create_pool_fees_wrong_owner() {
    let mut req = happy_new_swap();
    req.token_0.fees.owner = id(99);
    assert_eq!(
        validate_new_swap(&req),
        Outcome::Invalid(Violation::KeyMismatch)
    );
}

#[test]
fn init_token_validator_direct() {
    let req = happy_new_swap();
    assert_eq!(
        validate_init_swap_token(&req.token_0, &id(9)),
        Outcome::Valid
    );
    assert_eq!(
        validate_init_swap_token(&req.token_1, &id(9)),
        Outcome::Valid
    );
}

#[test]
fn create_pool_meta_always_valid() {
    assert_eq!(validate_new_swap_meta(), Outcome::Valid);
    assert_eq!(
        validate_operation(&pool(), &Operation::CreatePoolMeta),
        Outcome::Valid
    );
}

// ---- swap ----

#[test]
fn swap_happy_path() {
    assert_eq!(validate_swap(&pool(), &happy_swap()), Outcome::Valid);
}

#[test]
fn swap_direction_flipped() {
    let req = Swap {
        input: SwapToken {
            user: token_acct(id(62), id(2), id(100)),
            reserve: token_acct(id(42), id(2), id(9)),
        },
        output: SwapToken {
            user: token_acct(id(61), id(1), id(100)),
            reserve: token_acct(id(41), id(1), id(9)),
        },
    };
    assert_eq!(validate_swap(&pool(), &req), Outcome::Valid);
}

#[test]
fn swap_unknown_reserve_never_passes() {
    let mut req = happy_swap();
    req.input.reserve = token_acct(id(77), id(2), id(9));
    req.input.user.mint = id(2);
    assert_eq!(
        validate_swap(&pool(), &req),
        Outcome::Invalid(Violation::ReserveMismatch)
    );
}

#[test]
fn swap_paused_pool() {
    let mut p = pool();
    p.is_paused = true;
    assert_eq!(
        validate_swap(&p, &happy_swap()),
        Outcome::Invalid(Violation::PoolPaused)
    );
}

#[test]
fn swap_user_account_is_reserve() {
    let mut req = happy_swap();
    req.input.user = token_acct(id(41), id(1), id(9));
    assert_eq!(
        validate_swap(&pool(), &req),
        Outcome::Invalid(Violation::SelfDealing)
    );
}

#[test]
fn swap_wrong_user_mint() {
    let mut req = happy_swap();
    req.input.user.mint = id(2);
    assert_eq!(
        validate_swap(&pool(), &req),
        Outcome::Invalid(Violation::MintMismatch)
    );
}

#[test]
fn swap_output_side_is_checked_too() {
    let mut req = happy_swap();
    req.output.reserve = token_acct(id(99), id(2), id(9));
    assert_eq!(
        validate_swap(&pool(), &req),
        Outcome::Invalid(Violation::ReserveMismatch)
    );
}

#[test]
fn slot_validator_direct() {
    let p = pool();
    let req = happy_swap();
    assert_eq!(validate_swap_token(&req.input, &p.token_0), Outcome::Valid);
    assert_eq!(
        validate_swap_token(&req.input, &p.token_1),
        Outcome::Invalid(Violation::ReserveMismatch)
    );
}

// ---- deposit ----

#[test]
fn deposit_valid() {
    assert_eq!(validate_deposit(&pool(), &happy_deposit()), Outcome::Valid);
}

#[test]
fn deposit_self_owned_lp_output() {
    let mut req = happy_deposit();
    req.output_lp.owner = id(9);
    assert_eq!(
        validate_deposit(&pool(), &req),
        Outcome::Invalid(Violation::SelfOwnership)
    );
}

#[test]
fn deposit_wrong_pool_mint() {
    let mut req = happy_deposit();
    req.pool_mint = id(4);
    assert_eq!(
        validate_deposit(&pool(), &req),
        Outcome::Invalid(Violation::MintMismatch)
    );
}

#[test]
fn deposit_wrong_lp_output_mint() {
    let mut req = happy_deposit();
    req.output_lp.mint = id(4);
    assert_eq!(
        validate_deposit(&pool(), &req),
        Outcome::Invalid(Violation::MintMismatch)
    );
}

#[test]
fn deposit_wrong_fee_account() {
    let mut req = happy_deposit();
    req.input_0.fees = token_acct(id(99), id(1), id(9));
    assert_eq!(
        validate_deposit(&pool(), &req),
        Outcome::Invalid(Violation::FeeMismatch)
    );
}

#[test]
fn deposit_user_account_is_fees() {
    let mut req = happy_deposit();
    req.input_0.user = token_acct(id(51), id(1), id(9));
    assert_eq!(
        validate_deposit(&pool(), &req),
        Outcome::Invalid(Violation::SelfDealing)
    );
}

#[test]
fn deposit_paused_pool() {
    let mut p = pool();
    p.is_paused = true;
    assert_eq!(
        validate_deposit(&p, &happy_deposit()),
        Outcome::Invalid(Violation::PoolPaused)
    );
}

#[test]
fn fee_slot_validator_direct() {
    let p = pool();
    let req = happy_deposit();
    assert_eq!(
        validate_swap_token_with_fees(&req.input_0, &p.token_0),
        Outcome::Valid
    );
    assert_eq!(
        validate_swap_token_with_fees(&req.input_0, &p.token_1),
        Outcome::Invalid(Violation::FeeMismatch)
    );
}

// ---- withdraw ----

#[test]
fn withdraw_valid() {
    assert_eq!(validate_withdraw(&pool(), &happy_withdraw()), Outcome::Valid);
}

#[test]
fn withdraw_wrong_pool_mint() {
    let mut req = happy_withdraw();
    req.pool_mint = id(4);
    assert_eq!(
        validate_withdraw(&pool(), &req),
        Outcome::Invalid(Violation::MintMismatch)
    );
}

#[test]
fn withdraw_wrong_lp_source_mint() {
    let mut req = happy_withdraw();
    req.input_lp.mint = id(4);
    assert_eq!(
        validate_withdraw(&pool(), &req),
        Outcome::Invalid(Violation::MintMismatch)
    );
}

#[test]
fn withdraw_wrong_reserve() {
    let mut req = happy_withdraw();
    req.output_0.reserve = token_acct(id(99), id(1), id(9));
    assert_eq!(
        validate_withdraw(&pool(), &req),
        Outcome::Invalid(Violation::ReserveMismatch)
    );
}

#[test]
fn withdraw_paused_pool() {
    let mut p = pool();
    p.is_paused = true;
    assert_eq!(
        validate_withdraw(&p, &happy_withdraw()),
        Outcome::Invalid(Violation::PoolPaused)
    );
}

// ---- dispatch and idempotence ----

#[test]
fn dispatch_matches_direct_validators() {
    let p = pool();
    assert_eq!(
        validate_operation(&p, &Operation::CreatePool(happy_new_swap())),
        validate_new_swap(&happy_new_swap())
    );
    assert_eq!(
        validate_operation(&p, &Operation::Swap(happy_swap())),
        validate_swap(&p, &happy_swap())
    );
    assert_eq!(
        validate_operation(&p, &Operation::Deposit(happy_deposit())),
        validate_deposit(&p, &happy_deposit())
    );
    assert_eq!(
        validate_operation(&p, &Operation::Withdraw(happy_withdraw())),
        validate_withdraw(&p, &happy_withdraw())
    );
}

#[test]
fn validation_is_idempotent() {
    let p = pool();
    let mut bad = happy_swap();
    bad.input.user.mint = id(2);
    let ops = [
        Operation::CreatePool(happy_new_swap()),
        Operation::CreatePoolMeta,
        Operation::Swap(happy_swap()),
        Operation::Swap(bad),
        Operation::Deposit(happy_deposit()),
        Operation::Withdraw(happy_withdraw()),
    ];
    for op in ops.iter() {
        let first = validate_operation(&p, op);
        let second = validate_operation(&p, op);
        assert_eq!(first, second);
    }
}
