// A share-based vault accounting engine. Users deposit a base asset and
// receive proportional shares whose redemption value follows an
// administrator-controlled, scaled exchange rate; withdrawals are delayed by
// an epoch gate and protected against double claims and undercollateralized
// payouts. The engine itself moves no funds: every operation validates,
// computes, and returns the balance movements it wants as `LedgerIntent`
// values for the surrounding system to perform atomically.

pub mod engine;
pub mod errors;
pub mod rate;
pub mod state;

pub use engine::claim_withdraw;
pub use engine::deposit;
pub use engine::deposit_yield;
pub use engine::increase_rate;
pub use engine::initialize;
pub use engine::request_withdraw;
pub use errors::VaultError;
pub use rate::deposit_for_shares;
pub use rate::shares_for_deposit;
pub use rate::EXCHANGE_RATE_SCALE;
pub use state::AccountId;
pub use state::LedgerIntent;
pub use state::VaultState;
pub use state::WithdrawalTicket;
