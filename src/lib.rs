//! Configuration of a client of a concentrated-liquidity AMM program: the
//! validation of its entries and the derivation of the program accounts that
//! they determine.

pub mod address;
pub mod config;
pub mod derive;
pub mod pool;
pub mod pubkey;
