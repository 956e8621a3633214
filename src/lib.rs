//! Chain parameters of the supported networks, and recovery of the redeem and
//! witness scripts that a transaction input reveals for the output it spends.

pub mod chain;
pub mod util;
