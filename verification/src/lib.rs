pub mod addr;
pub mod authority;
pub mod error;
pub mod escrow;
pub mod laws;
pub mod token;
