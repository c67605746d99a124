use anchor_lang::prelude::Pubkey;
use front_earning_program::cpi::SwapExactInHintlessData;
use front_earning_program::error::CustomError;
use front_earning_program::instructions::execute_payment::{execute_payment, ExecutePayment};
use front_earning_program::instructions::update_config::{update_config, UpdateConfig};
use front_earning_program::instructions::withdraw_liquidity::{withdraw_liquidity, WithdrawLiquidity};
use front_earning_program::state::{
    BorrowerDeposit, Config, DepositStatus, LiquidityPool, Payment, PaymentStatus,
};

fn key(b: u8) -> Pubkey {
    Pubkey::new_from_array([b; 32])
}

#[test]
fn updated_discount_applies_to_the_next_payment() {
    let mut u = UpdateConfig {
        config: Config {
            owner: key(1),
            usdc_discount_bps: 100,
            usdt_discount_bps: 100,
            usd_star_discount_bps: 100,
            invest_lock_secs: 0,
            settle_wait_secs: 0,
        },
        owner: key(1),
    };
    update_config(&mut u, 700, 800, 900, 10).unwrap();
    for (mint, bps) in [(key(40), 700u16), (key(41), 800), (key(42), 900)] {
        let mut ctx = ExecutePayment {
            payment_key: key(30),
            payment: Payment {
                seller: key(2),
                buyer: key(3),
                borrower: key(4),
                amount: 1_000,
                owner: 0,
                paid_amount: 0,
                paid_mint: key(0),
                discount_bps: 0,
                start_ts: 0,
                status: PaymentStatus::Initialized,
                gap_amount: 0,
                gap_shares: 0,
            },
            config: Config { ..u.config },
            usdc_mint: key(40),
            usdt_mint: key(41),
            usd_star_mint: key(42),
            vault_in: key(31),
            vault_in_bump: 1,
            pool: key(32),
            pool_program: key(33),
            in_mint: mint,
            out_mint: key(42),
            in_trader: key(34),
            out_trader: key(35),
            numeraire_config: key(36),
            token_program: key(37),
            token_2022_program: key(38),
        };
        execute_payment(&mut ctx, mint, 1_000, 0, 1, 0, 0).unwrap();
        assert_eq!(ctx.payment.discount_bps, bps);
    }
}

#[test]
fn redeeming_keeps_share_value() {
    let before = LiquidityPool { total_liquidity: 1_000, total_shares: 700, allocated: 0, bump: 0 };
    let mut ctx = WithdrawLiquidity {
        pool: LiquidityPool { ..before },
        deposit: BorrowerDeposit {
            owner: key(1),
            shares: 333,
            start_ts: 0,
            status: DepositStatus::Active,
            bump: 0,
        },
        owner: key(1),
    };
    // 333 * 1000 / 700 = 475.7
    assert_eq!(withdraw_liquidity(&mut ctx), Ok(475));
    let after = ctx.pool;
    assert_eq!((after.total_liquidity, after.total_shares), (525, 367));
    assert!((after.total_liquidity as u128) * (before.total_shares as u128)
        >= (before.total_liquidity as u128) * (after.total_shares as u128));
}

#[test]
fn swap_data_reads_back() {
    let payload = SwapExactInHintlessData {
        in_index: 3,
        out_index: 7,
        exact_amount_in: 0x0102_0304_0506_0708,
        min_amount_out: u64::MAX - 1,
    };
    let d = payload.instruction_data();
    assert_eq!(d.len(), 26);
    assert_eq!(&d[0..8], &[104u8, 104, 131, 86, 161, 189, 180, 216]);
    assert_eq!((d[8], d[9]), (3, 7));
    assert_eq!(u64::from_le_bytes(d[10..18].try_into().unwrap()), 0x0102_0304_0506_0708);
    assert_eq!(u64::from_le_bytes(d[18..26].try_into().unwrap()), u64::MAX - 1);
}

#[test]
fn error_codes_are_distinct() {
    let all = [
        CustomError::InvalidBasisPoint,
        CustomError::InvalidState,
        CustomError::NotMature,
        CustomError::UnsupportedToken,
        CustomError::InputTooSmall,
        CustomError::InsufficientLiquidity,
        CustomError::NothingToWithdraw,
        CustomError::Unauthorized,
        CustomError::InvalidRecipient,
    ];
    for (i, a) in all.iter().enumerate() {
        for (j, b) in all.iter().enumerate() {
            assert_eq!(i == j, a.code() == b.code());
        }
    }
}
