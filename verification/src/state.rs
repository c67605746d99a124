//! The program's accounts: what each one stores.
use anchor_lang::prelude::Pubkey;
use vstd::prelude::*;

verus! {

/// Global settings, written by the owner: a discount in basis points for each
/// accepted stablecoin, and the waiting periods.
pub struct Config {
    pub owner: Pubkey,
    pub usdc_discount_bps: u16,
    pub usdt_discount_bps: u16,
    pub usd_star_discount_bps: u16,
    pub invest_lock_secs: i64,
    pub settle_wait_secs: i64,
}

impl Config {
    pub const LEN: usize = 8 + 32 + 2 * 3 + 8 + 8;
}

/// Stage of a deal.
#[derive(Clone, Copy, Debug, PartialEq, Eq, Structural)]
pub enum DealStatus {
    Initialized,
    Funded,
    Deposited,
    Redeemed,
    Cancelled,
}

/// A deal between a seller, a buyer and an investor.
pub struct Deal {
    pub seller: Pubkey,
    pub buyer: Pubkey,
    pub investor: Pubkey,
    pub price: u64,
    pub discount_bps: u16,
    pub seller_share_bps: u16,
    pub deposited_amount: u64,
    pub maturity_ts: i64,
    pub status: DealStatus,
}

impl Deal {
    pub const LEN: usize = 8 + 32 * 3 + 8 + 2 + 2 + 8 + 8 + 1;
}

/// Whether a lender's pool deposit is still in the pool.
#[derive(Clone, Copy, Debug, PartialEq, Eq, Structural)]
pub enum DepositStatus {
    Active,
    Withdrawn,
}

/// A lender's stake in the liquidity pool, counted in pool shares.
pub struct BorrowerDeposit {
    pub owner: Pubkey,
    pub shares: u64,
    pub start_ts: i64,
    pub status: DepositStatus,
    pub bump: u8,
}

impl BorrowerDeposit {
    pub const LEN: usize = 32 + 8 + 8 + 1;
}

/// Whether a gap investment is still locked.
#[derive(Clone, Copy, Debug, PartialEq, Eq, Structural)]
pub enum InvestmentStatus {
    Locked,
    Withdrawn,
}

/// Gap capital locked by a borrower.
pub struct Investment {
    pub borrower: Pubkey,
    pub amount: u64,
    pub start_ts: i64,
    pub status: InvestmentStatus,
}

impl Investment {
    pub const LEN: usize = 8 + 32 + 8 + 8 + 1;
}

/// Stage of a payment: listed by the seller, paid by the buyer, settled.
#[derive(Clone, Copy, Debug, PartialEq, Eq, Structural)]
pub enum PaymentStatus {
    Initialized,
    Funded,
    Settled,
}

/// Order of the payment stages.
pub open spec fn status_rank(status: PaymentStatus) -> int {
    match status {
        PaymentStatus::Initialized => 0,
        PaymentStatus::Funded => 1,
        PaymentStatus::Settled => 2,
    }
}

/// A change of stage that an instruction on an existing payment may make:
/// none, paying a listed payment, or settling a paid one.
pub open spec fn status_step(before: PaymentStatus, after: PaymentStatus) -> bool {
    ||| before == after
    ||| before == PaymentStatus::Initialized && after == PaymentStatus::Funded
    ||| before == PaymentStatus::Funded && after == PaymentStatus::Settled
}

/// A product listed by a seller and the payment made for it.
/// `gap_amount` and `gap_shares` record the pool capital matched to it.
pub struct Payment {
    pub seller: Pubkey,
    pub buyer: Pubkey,
    pub borrower: Pubkey,
    pub amount: u64,
    pub owner: u64,
    pub paid_amount: u64,
    pub paid_mint: Pubkey,
    pub discount_bps: u16,
    pub start_ts: i64,
    pub status: PaymentStatus,
    pub gap_amount: u64,
    pub gap_shares: u64,
}

impl Payment {
    pub const LEN: usize = 8 + 32 * 3 + 8 + 8 + 32 + 2 + 8 + 1 + 8 + 8;
}

/// The lenders' pool of USD*, with share accounting.
pub struct LiquidityPool {
    pub total_liquidity: u64,
    pub total_shares: u64,
    pub allocated: u64,
    pub bump: u8,
}

impl LiquidityPool {
    pub const LEN: usize = 8 + 8 + 8 + 8 + 1;
}

} // verus!
