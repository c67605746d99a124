//! Delayed settlement turned into instant discounts: a buyer pays a listed
//! product with a stablecoin and earns a discount, the payment is swapped into
//! USD* and held until the seller settles, and lenders' pool capital and
//! borrowers' gap capital earn part of the yield. Each instruction's logic is
//! a verified function over the accounts it reads and writes; it returns the
//! token transfers and swaps to perform.
pub mod cpi;
pub mod discount;
pub mod error;
pub mod instructions;
pub mod keys;
pub mod laws;
pub mod math;
pub mod pool;
pub mod state;
