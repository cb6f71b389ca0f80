//! The five operations, each on the accounts it is handed.

pub mod close_lockbox;
pub mod deposit;
pub mod emergency_withdraw;
pub mod initialize_lockbox;
pub mod withdraw;
