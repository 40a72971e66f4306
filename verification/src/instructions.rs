//! Handlers of the trade operations.

pub mod pump;
