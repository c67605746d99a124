use anchor_lang::prelude::Pubkey;
use front_earning_program::error::CustomError;
use front_earning_program::instructions::allocate_gap::{allocate_gap, handle_allocate_gap, AllocateGap};
use front_earning_program::instructions::deposit_liquidity::{deposit_liquidity, DepositLiquidity};
use front_earning_program::instructions::withdraw_liquidity::{withdraw_liquidity, WithdrawLiquidity};
use front_earning_program::state::{
    BorrowerDeposit, DepositStatus, LiquidityPool, Payment, PaymentStatus,
};

fn key(b: u8) -> Pubkey {
    Pubkey::new_from_array([b; 32])
}

fn pool(total_liquidity: u64, total_shares: u64, allocated: u64) -> LiquidityPool {
    LiquidityPool { total_liquidity, total_shares, allocated, bump: 7 }
}

fn fresh_deposit(shares: u64, status: DepositStatus) -> BorrowerDeposit {
    BorrowerDeposit { owner: key(0), shares, start_ts: 0, status, bump: 0 }
}

fn payment() -> Payment {
    Payment {
        seller: key(1),
        buyer: key(2),
        borrower: key(3),
        amount: 100,
        owner: 0,
        paid_amount: 0,
        paid_mint: key(0),
        discount_bps: 0,
        start_ts: 0,
        status: PaymentStatus::Initialized,
        gap_amount: 0,
        gap_shares: 0,
    }
}

fn deposit_ctx(p: LiquidityPool, d: BorrowerDeposit, source_mint: Pubkey) -> DepositLiquidity {
    DepositLiquidity {
        borrower: key(10),
        source_mint,
        pool: p,
        deposit: d,
        deposit_bump: 254,
        vault_usd_star: key(11),
        usd_star_mint: key(12),
        num_pool: key(13),
        num_pool_program: key(14),
        numeraire_config: key(15),
        pool_source: key(16),
        token_program: key(17),
        token_2022_program: key(18),
    }
}

#[test]
fn shares_for_first_deposit_are_one_to_one() {
    let p = pool(0, 0, 0);
    assert_eq!(p.shares_for_deposit(500), 500);
}

#[test]
fn shares_for_later_deposit_are_proportional_and_round_down() {
    let p = pool(300, 200, 0);
    // 100 * 200 / 300 = 66.67
    assert_eq!(p.shares_for_deposit(100), 66);
}

#[test]
fn deposit_in_usd_star_goes_to_vault_without_swap() {
    let mut ctx = deposit_ctx(pool(0, 0, 0), fresh_deposit(0, DepositStatus::Active), key(12));
    let plan = deposit_liquidity(&mut ctx, 1_000, 42).unwrap();
    assert!(plan.to_vault);
    assert!(plan.swap.is_none());
    assert_eq!(plan.transfer_amount, 1_000);
    assert_eq!(plan.shares, 1_000);
    assert_eq!(ctx.pool.total_liquidity, 1_000);
    assert_eq!(ctx.pool.total_shares, 1_000);
    assert_eq!(ctx.deposit.shares, 1_000);
    assert_eq!(ctx.deposit.owner, key(10));
    assert_eq!(ctx.deposit.start_ts, 42);
    assert_eq!(ctx.deposit.status, DepositStatus::Active);
    assert_eq!(ctx.deposit.bump, 254);
}

#[test]
fn deposit_in_other_token_is_swapped() {
    let mut ctx = deposit_ctx(pool(1_000, 500, 0), fresh_deposit(10, DepositStatus::Active), key(20));
    let plan = deposit_liquidity(&mut ctx, 200, 7).unwrap();
    assert!(!plan.to_vault);
    assert_eq!(plan.shares, 100);
    let swap = plan.swap.unwrap();
    assert_eq!(swap.approve_amount, 200);
    assert!(swap.signer_seeds.is_empty());
    assert_eq!(swap.instruction.program_id, key(14));
    let keys: Vec<Pubkey> = swap.instruction.accounts.iter().map(|a| a.key).collect();
    assert_eq!(keys, vec![key(13), key(20), key(12), key(16), key(11), key(15), key(10), key(17), key(18)]);
    let signers: Vec<bool> = swap.instruction.accounts.iter().map(|a| a.is_signer).collect();
    assert_eq!(signers, vec![true, false, false, false, false, false, true, false, false]);
    let writable: Vec<bool> = swap.instruction.accounts.iter().map(|a| a.is_writable).collect();
    assert_eq!(writable, vec![true, true, true, true, true, false, true, false, false]);
    let mut data = vec![104u8, 104, 131, 86, 161, 189, 180, 216, 0, 1];
    data.extend_from_slice(&200u64.to_le_bytes());
    data.extend_from_slice(&0u64.to_le_bytes());
    assert_eq!(swap.instruction.data, data);
    assert_eq!(ctx.pool.total_liquidity, 1_200);
    assert_eq!(ctx.pool.total_shares, 600);
    assert_eq!(ctx.deposit.shares, 110);
}

#[test]
fn deposit_after_withdrawal_starts_from_zero() {
    let mut ctx = deposit_ctx(pool(1_000, 1_000, 0), fresh_deposit(300, DepositStatus::Withdrawn), key(12));
    let plan = deposit_liquidity(&mut ctx, 50, 1).unwrap();
    assert_eq!(plan.shares, 50);
    assert_eq!(ctx.deposit.shares, 50);
    assert_eq!(ctx.deposit.status, DepositStatus::Active);
}

#[test]
fn zero_deposit_is_refused() {
    let mut ctx = deposit_ctx(pool(1_000, 1_000, 0), fresh_deposit(300, DepositStatus::Active), key(12));
    assert_eq!(deposit_liquidity(&mut ctx, 0, 1).err(), Some(CustomError::InputTooSmall));
    assert_eq!(ctx.pool.total_liquidity, 1_000);
    assert_eq!(ctx.deposit.shares, 300);
}

#[test]
fn withdraw_pays_share_of_liquidity() {
    let mut ctx = WithdrawLiquidity {
        pool: pool(1_000, 300, 0),
        deposit: fresh_deposit(100, DepositStatus::Active),
        owner: key(0),
    };
    // 100 * 1000 / 300 = 333.3
    assert_eq!(withdraw_liquidity(&mut ctx), Ok(333));
    assert_eq!(ctx.pool.total_liquidity, 667);
    assert_eq!(ctx.pool.total_shares, 200);
    assert_eq!(ctx.deposit.status, DepositStatus::Withdrawn);
    assert_eq!(ctx.deposit.shares, 100);
}

#[test]
fn withdraw_without_shares_is_refused() {
    let mut ctx = WithdrawLiquidity {
        pool: pool(1_000, 300, 0),
        deposit: fresh_deposit(0, DepositStatus::Active),
        owner: key(0),
    };
    assert_eq!(withdraw_liquidity(&mut ctx), Err(CustomError::NothingToWithdraw));
    assert_eq!(ctx.pool.total_liquidity, 1_000);
    assert_eq!(ctx.deposit.status, DepositStatus::Active);
}

#[test]
fn deposit_then_withdraw_gains_nothing() {
    let mut ctx = deposit_ctx(pool(1_000, 700, 0), fresh_deposit(0, DepositStatus::Active), key(12));
    let plan = deposit_liquidity(&mut ctx, 333, 0).unwrap();
    let mut w = WithdrawLiquidity { pool: ctx.pool, deposit: ctx.deposit, owner: key(10) };
    let out = withdraw_liquidity(&mut w).unwrap();
    assert!(out <= 333);
    assert_eq!(plan.shares, 233);
    // 233 * 1333 / 933 = 332.9
    assert_eq!(out, 332);
    assert_eq!((w.pool.total_liquidity, w.pool.total_shares), (1_001, 700));
}

#[test]
fn share_value_does_not_fall_on_deposit() {
    let before = pool(1_000, 700, 0);
    let mut ctx = deposit_ctx(pool(1_000, 700, 0), fresh_deposit(0, DepositStatus::Active), key(12));
    deposit_liquidity(&mut ctx, 333, 0).unwrap();
    let after = ctx.pool;
    assert!((after.total_liquidity as u128) * (before.total_shares as u128)
        >= (before.total_liquidity as u128) * (after.total_shares as u128));
}

#[test]
fn allocation_moves_free_liquidity() {
    let mut p = pool(1_000, 500, 100);
    let mut pay = payment();
    assert_eq!(handle_allocate_gap(&mut pay, &mut p, 300), Ok(()));
    assert_eq!(p.total_liquidity, 700);
    assert_eq!(p.total_shares, 350);
    assert_eq!(p.allocated, 400);
    assert_eq!(p.total_liquidity + p.allocated, 1_100);
    assert_eq!(pay.gap_amount, 300);
    assert_eq!(pay.gap_shares, 150);
    assert_eq!(pay.amount, 100);
}

#[test]
fn allocation_beyond_free_liquidity_is_refused() {
    let mut ctx = AllocateGap { payment: payment(), pool: pool(1_000, 500, 800) };
    assert_eq!(allocate_gap(&mut ctx, 201), Err(CustomError::InsufficientLiquidity));
    assert_eq!(ctx.pool.total_liquidity, 1_000);
    assert_eq!(ctx.pool.allocated, 800);
    assert_eq!(ctx.payment.gap_amount, 0);
    assert_eq!(allocate_gap(&mut ctx, 200), Ok(100));
    assert_eq!(ctx.pool.total_liquidity, 800);
    assert_eq!(ctx.pool.allocated, 1_000);
    assert_eq!(ctx.payment.gap_shares, 100);
}

#[test]
fn exact_round_trip_without_rounding() {
    // 300 * 200 is a multiple of 400: 150 shares minted, all 300 come back
    let mut ctx = deposit_ctx(pool(400, 200, 0), fresh_deposit(0, DepositStatus::Active), key(12));
    let plan = deposit_liquidity(&mut ctx, 300, 0).unwrap();
    assert_eq!(plan.shares, 150);
    let mut w = WithdrawLiquidity { pool: ctx.pool, deposit: ctx.deposit, owner: key(10) };
    assert_eq!(withdraw_liquidity(&mut w), Ok(300));
    assert_eq!((w.pool.total_liquidity, w.pool.total_shares), (400, 200));
}
