//! Fee-skimming instruction router: verified core.

pub mod error;
pub mod identity;
pub mod account;
pub mod fee;
pub mod payload;
pub mod record;
pub mod system;
pub mod state;
pub mod processor;
pub mod instructions;
