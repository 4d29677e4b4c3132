//! Verified core of the OpenFund exchange programs.
pub mod address;
pub mod dex;
pub mod math;
pub mod oracle;
pub mod settlement;
pub mod token;

pub use address::Address;
