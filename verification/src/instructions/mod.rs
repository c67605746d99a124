pub mod execute_payment;
pub mod init_config;
pub mod initialize_payment;
pub mod update_config;
pub mod settle;
pub mod swap_stable;
pub mod invest_gap;
pub mod withdraw_investment;
pub mod allocate_gap;
pub mod deposit_liquidity;
pub mod withdraw_liquidity;
