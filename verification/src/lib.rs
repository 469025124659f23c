pub mod constants;
pub mod errors;
pub mod faucet;
pub mod liquidity;
pub mod math;
pub mod oracle;
pub mod pool;
pub mod price;
pub mod risk;
pub mod totals;
pub mod trading;
pub mod types;
pub mod validation;
pub mod vault;
