use anchor_lang::prelude::Pubkey;
use front_earning_program::error::CustomError;
use front_earning_program::instructions::execute_payment::{execute_payment, ExecutePayment};
use front_earning_program::instructions::initialize_payment::{initialize_payment, InitializePayment};
use front_earning_program::instructions::settle::{settle, Settle};
use front_earning_program::instructions::swap_stable::{swap_stable, SwapStable};
use front_earning_program::state::{Config, Payment, PaymentStatus};

fn key(b: u8) -> Pubkey {
    Pubkey::new_from_array([b; 32])
}

fn config() -> Config {
    Config {
        owner: key(1),
        usdc_discount_bps: 300,
        usdt_discount_bps: 250,
        usd_star_discount_bps: 500,
        invest_lock_secs: 31_536_000,
        settle_wait_secs: 3_600,
    }
}

fn payment(status: PaymentStatus) -> Payment {
    Payment {
        seller: key(2),
        buyer: key(3),
        borrower: key(4),
        amount: 1_000,
        owner: 9,
        paid_amount: 0,
        paid_mint: key(5),
        discount_bps: 0,
        start_ts: 0,
        status,
        gap_amount: 0,
        gap_shares: 0,
    }
}

fn execute_ctx(status: PaymentStatus) -> ExecutePayment {
    ExecutePayment {
        payment_key: key(30),
        payment: payment(status),
        config: config(),
        usdc_mint: key(40),
        usdt_mint: key(41),
        usd_star_mint: key(42),
        vault_in: key(31),
        vault_in_bump: 253,
        pool: key(32),
        pool_program: key(33),
        in_mint: key(40),
        out_mint: key(42),
        in_trader: key(34),
        out_trader: key(35),
        numeraire_config: key(36),
        token_program: key(37),
        token_2022_program: key(38),
    }
}

fn seeds(prefix: &[u8], k: Pubkey, bump: u8) -> Vec<Vec<u8>> {
    vec![prefix.to_vec(), k.to_bytes().to_vec(), vec![bump]]
}

#[test]
fn listing_resets_the_payment() {
    let mut p = payment(PaymentStatus::Settled);
    p.paid_amount = 77;
    p.discount_bps = 12;
    p.gap_amount = 5;
    p.gap_shares = 6;
    let mut ctx = InitializePayment { seller: key(9), config: config(), payment: p };
    assert_eq!(initialize_payment(&mut ctx, 2_500), Ok(()));
    assert_eq!(ctx.payment.seller, key(9));
    assert_eq!(ctx.payment.amount, 2_500);
    assert_eq!(ctx.payment.paid_amount, 0);
    assert_eq!(ctx.payment.discount_bps, 0);
    assert_eq!(ctx.payment.paid_mint, Pubkey::default());
    assert_eq!(ctx.payment.paid_mint.to_bytes(), [0u8; 32]);
    assert_eq!(ctx.payment.status, PaymentStatus::Initialized);
    assert_eq!(ctx.payment.gap_amount, 0);
    assert_eq!(ctx.payment.gap_shares, 0);
    assert_eq!(ctx.payment.buyer, key(3));
}

#[test]
fn listing_at_zero_price_is_refused() {
    let mut ctx = InitializePayment { seller: key(9), config: config(), payment: payment(PaymentStatus::Funded) };
    assert_eq!(initialize_payment(&mut ctx, 0), Err(CustomError::InputTooSmall));
    assert_eq!(ctx.payment.seller, key(2));
    assert_eq!(ctx.payment.status, PaymentStatus::Funded);
}

#[test]
fn payment_in_usdc_is_swapped_with_vault_signature() {
    let mut ctx = execute_ctx(PaymentStatus::Initialized);
    let plan = execute_payment(&mut ctx, key(40), 970, 0, 1, 960, 1_700_000_000).unwrap();
    assert_eq!(plan.transfer_amount, 970);
    let swap = plan.swap.unwrap();
    assert_eq!(swap.approve_amount, 970);
    assert_eq!(swap.signer_seeds, seeds(b"vault", key(30), 253));
    assert_eq!(swap.instruction.program_id, key(33));
    let keys: Vec<Pubkey> = swap.instruction.accounts.iter().map(|a| a.key).collect();
    assert_eq!(keys, vec![key(32), key(40), key(42), key(34), key(35), key(36), key(31), key(37), key(38)]);
    let signers: Vec<bool> = swap.instruction.accounts.iter().map(|a| a.is_signer).collect();
    assert_eq!(signers, vec![false, false, false, false, false, false, true, false, false]);
    let writable: Vec<bool> = swap.instruction.accounts.iter().map(|a| a.is_writable).collect();
    assert_eq!(writable, vec![true, true, true, true, true, false, true, false, false]);
    let mut data = vec![104u8, 104, 131, 86, 161, 189, 180, 216, 0, 1];
    data.extend_from_slice(&970u64.to_le_bytes());
    data.extend_from_slice(&960u64.to_le_bytes());
    assert_eq!(swap.instruction.data, data);
    assert_eq!(ctx.payment.paid_mint, key(40));
    assert_eq!(ctx.payment.paid_amount, 970);
    assert_eq!(ctx.payment.discount_bps, 300);
    assert_eq!(ctx.payment.start_ts, 1_700_000_000);
    assert_eq!(ctx.payment.status, PaymentStatus::Funded);
}

#[test]
fn payment_in_usd_star_is_not_swapped() {
    let mut ctx = execute_ctx(PaymentStatus::Initialized);
    let plan = execute_payment(&mut ctx, key(42), 950, 0, 1, 0, 5).unwrap();
    assert_eq!(plan.transfer_amount, 950);
    assert!(plan.swap.is_none());
    assert_eq!(ctx.payment.discount_bps, 500);
    assert_eq!(ctx.payment.status, PaymentStatus::Funded);
}

#[test]
fn payment_in_usdt_earns_usdt_discount() {
    let mut ctx = execute_ctx(PaymentStatus::Initialized);
    execute_payment(&mut ctx, key(41), 975, 2, 1, 0, 5).unwrap();
    assert_eq!(ctx.payment.discount_bps, 250);
}

#[test]
fn payment_in_unknown_token_is_refused() {
    let mut ctx = execute_ctx(PaymentStatus::Funded);
    let r = execute_payment(&mut ctx, key(99), 950, 0, 1, 0, 5);
    assert_eq!(r.err(), Some(CustomError::UnsupportedToken));
    assert_eq!(ctx.payment.paid_amount, 0);
}

#[test]
fn payment_made_twice_is_refused() {
    let mut ctx = execute_ctx(PaymentStatus::Initialized);
    execute_payment(&mut ctx, key(42), 950, 0, 1, 0, 5).unwrap();
    let r = execute_payment(&mut ctx, key(42), 10, 0, 1, 0, 6);
    assert_eq!(r.err(), Some(CustomError::InvalidState));
    assert_eq!(ctx.payment.paid_amount, 950);
    assert_eq!(ctx.payment.start_ts, 5);
}

fn settle_ctx(status: PaymentStatus, paid: u64, start_ts: i64) -> Settle {
    let mut p = payment(status);
    p.paid_amount = paid;
    p.start_ts = start_ts;
    Settle {
        payment_key: key(30),
        payment: p,
        config: config(),
        vault_bump: 250,
        seller: key(2),
        seller_token_owner: key(2),
        borrower_token_owner: key(4),
    }
}

#[test]
fn settlement_splits_the_yield() {
    let mut ctx = settle_ctx(PaymentStatus::Funded, 1_000, 100);
    let plan = settle(&mut ctx, 3_701).unwrap();
    // 1000 * 104 / 100 = 1040; yield 40
    assert_eq!(plan.seller_share, 1_020);
    assert_eq!(plan.borrower_share, 20);
    assert_eq!(plan.signer_seeds, seeds(b"vault", key(30), 250));
    assert_eq!(ctx.payment.status, PaymentStatus::Settled);
}

#[test]
fn settlement_rounds_the_yield_down() {
    let mut ctx = settle_ctx(PaymentStatus::Funded, 1_075, 0);
    let plan = settle(&mut ctx, 4_000).unwrap();
    // 1075 * 104 / 100 = 1118; yield 43; halves 21
    assert_eq!(plan.seller_share, 1_096);
    assert_eq!(plan.borrower_share, 21);
    assert!(plan.seller_share + plan.borrower_share <= 1_118);
}

#[test]
fn settlement_before_the_wait_is_refused() {
    let mut ctx = settle_ctx(PaymentStatus::Funded, 1_000, 100);
    assert_eq!(settle(&mut ctx, 3_700).err(), Some(CustomError::NotMature));
    assert_eq!(ctx.payment.status, PaymentStatus::Funded);
}

#[test]
fn settlement_of_unpaid_or_settled_payment_is_refused() {
    let mut ctx = settle_ctx(PaymentStatus::Initialized, 1_000, 0);
    assert_eq!(settle(&mut ctx, 10_000).err(), Some(CustomError::InvalidState));
    let mut ctx = settle_ctx(PaymentStatus::Funded, 1_000, 0);
    settle(&mut ctx, 10_000).unwrap();
    assert_eq!(settle(&mut ctx, 10_000).err(), Some(CustomError::InvalidState));
}

#[test]
fn full_payment_lifecycle() {
    let mut init = InitializePayment { seller: key(2), config: config(), payment: payment(PaymentStatus::Settled) };
    initialize_payment(&mut init, 1_000).unwrap();
    let mut exec = execute_ctx(PaymentStatus::Settled);
    exec.payment = init.payment;
    execute_payment(&mut exec, key(42), 950, 0, 1, 0, 1_000).unwrap();
    let mut s = Settle {
        payment_key: key(30),
        payment: exec.payment,
        config: config(),
        vault_bump: 1,
        seller: key(2),
        seller_token_owner: key(2),
        borrower_token_owner: key(4),
    };
    assert_eq!(settle(&mut s, 4_600).err(), Some(CustomError::NotMature));
    let plan = settle(&mut s, 4_601).unwrap();
    // 950 * 104 / 100 = 988; yield 38
    assert_eq!(plan.seller_share, 969);
    assert_eq!(plan.borrower_share, 19);
}

fn swap_ctx(in_vault: Option<Pubkey>, out_vault: Option<Pubkey>) -> SwapStable {
    SwapStable {
        payment_key: key(30),
        vault_in: key(57),
        vault_in_bump: 200,
        pool: key(50),
        pool_program: key(51),
        in_mint: key(52),
        out_mint: key(53),
        in_trader: key(54),
        out_trader: key(55),
        in_vault,
        out_vault,
        numeraire_config: key(56),
        payer: key(57),
        token_program: key(58),
        token_2022_program: key(59),
    }
}

#[test]
fn stable_swap_with_both_vaults() {
    let call = swap_stable(&swap_ctx(Some(key(60)), Some(key(61))), 1, 2, 5_000, 4_990).unwrap();
    assert_eq!(call.approve_amount, 5_000);
    assert_eq!(call.signer_seeds, seeds(b"vault", key(30), 200));
    assert_eq!(call.instruction.program_id, key(51));
    let keys: Vec<Pubkey> = call.instruction.accounts.iter().map(|a| a.key).collect();
    assert_eq!(keys, vec![key(50), key(52), key(53), key(54), key(55), key(60), key(61), key(56), key(57), key(58), key(59)]);
    let signers: Vec<bool> = call.instruction.accounts.iter().map(|a| a.is_signer).collect();
    assert_eq!(signers, vec![false, false, false, false, false, false, false, false, true, false, false]);
    let mut data = vec![104u8, 104, 131, 86, 161, 189, 180, 216, 1, 2];
    data.extend_from_slice(&5_000u64.to_le_bytes());
    data.extend_from_slice(&4_990u64.to_le_bytes());
    assert_eq!(call.instruction.data, data);
}

#[test]
fn stable_swap_leaves_out_missing_vaults() {
    let call = swap_stable(&swap_ctx(None, Some(key(61))), 0, 1, 1, 0).unwrap();
    let keys: Vec<Pubkey> = call.instruction.accounts.iter().map(|a| a.key).collect();
    assert_eq!(keys, vec![key(50), key(52), key(53), key(54), key(55), key(61), key(56), key(57), key(58), key(59)]);
    let call = swap_stable(&swap_ctx(None, None), 0, 1, 1, 0).unwrap();
    assert_eq!(call.instruction.accounts.len(), 9);
}

#[test]
fn stable_swap_of_nothing_is_refused() {
    assert_eq!(swap_stable(&swap_ctx(None, None), 0, 1, 0, 0).err(), Some(CustomError::InputTooSmall));
}

#[test]
fn payment_is_charged_the_discounted_price() {
    let mut ctx = execute_ctx(PaymentStatus::Initialized);
    ctx.payment.amount = 1_000_000;
    let plan = execute_payment(&mut ctx, key(40), 2_000_000, 0, 1, 0, 5).unwrap();
    // 1_000_000 - 1_000_000 * 300 / 10_000
    assert_eq!(plan.transfer_amount, 970_000);
    let swap = plan.swap.unwrap();
    assert_eq!(swap.approve_amount, 970_000);
    assert_eq!(u64::from_le_bytes(swap.instruction.data[10..18].try_into().unwrap()), 970_000);
    assert_eq!(ctx.payment.paid_amount, 970_000);
}

#[test]
fn discount_rounds_in_the_sellers_favour() {
    let mut ctx = execute_ctx(PaymentStatus::Initialized);
    ctx.payment.amount = 999;
    let plan = execute_payment(&mut ctx, key(40), 999, 0, 1, 0, 5).unwrap();
    // 999 * 300 / 10_000 = 29.97, discount 29
    assert_eq!(plan.transfer_amount, 970);
}

#[test]
fn payment_is_charged_the_discounted_price_whatever_is_offered() {
    let mut ctx = execute_ctx(PaymentStatus::Initialized);
    ctx.payment.amount = 1_000_000;
    let plan = execute_payment(&mut ctx, key(40), 1, 0, 1, 0, 5).unwrap();
    assert_eq!(plan.transfer_amount, 970_000);
    assert_eq!(plan.swap.unwrap().approve_amount, 970_000);
    assert_eq!(ctx.payment.paid_amount, 970_000);
    assert_eq!(ctx.payment.status, PaymentStatus::Funded);
    assert_eq!(ctx.payment.start_ts, 5);
}

#[test]
fn discount_of_the_whole_price_or_more_charges_nothing() {
    for bps in [10_000u16, 10_001, u16::MAX] {
        let mut ctx = execute_ctx(PaymentStatus::Initialized);
        ctx.config.usdc_discount_bps = bps;
        let plan = execute_payment(&mut ctx, key(40), 1_000, 0, 1, 0, 5).unwrap();
        assert_eq!(plan.transfer_amount, 0);
        assert_eq!(ctx.payment.paid_amount, 0);
        assert_eq!(ctx.payment.discount_bps, bps);
        assert_eq!(ctx.payment.status, PaymentStatus::Funded);
    }
}

#[test]
fn settlement_by_someone_else_is_refused() {
    let mut ctx = settle_ctx(PaymentStatus::Funded, 1_000, 0);
    ctx.seller = key(8);
    assert_eq!(settle(&mut ctx, 10_000).err(), Some(CustomError::Unauthorized));
    assert_eq!(ctx.payment.status, PaymentStatus::Funded);
}

#[test]
fn settlement_to_foreign_accounts_is_refused() {
    let mut ctx = settle_ctx(PaymentStatus::Funded, 1_000, 0);
    ctx.seller_token_owner = key(8);
    assert_eq!(settle(&mut ctx, 10_000).err(), Some(CustomError::InvalidRecipient));
    let mut ctx = settle_ctx(PaymentStatus::Funded, 1_000, 0);
    ctx.borrower_token_owner = key(8);
    assert_eq!(settle(&mut ctx, 10_000).err(), Some(CustomError::InvalidRecipient));
    assert_eq!(ctx.payment.status, PaymentStatus::Funded);
}

#[test]
fn stable_swap_paid_by_other_than_the_vault_is_refused() {
    let mut c = swap_ctx(None, None);
    c.payer = key(99);
    assert_eq!(swap_stable(&c, 0, 1, 10, 0).err(), Some(CustomError::Unauthorized));
}
