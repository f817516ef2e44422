//! One storage account per owner, derived from the owner's key, whose
//! balance always equals the minimum reserve for the bytes it holds.

pub mod address;
pub mod account;
pub mod upsert;
pub mod laws;
