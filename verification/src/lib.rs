//! The `z_shieldcoinbase` method of a Zcash wallet's JSON-RPC interface.
#![allow(unused_imports)]

pub mod account;
pub mod address;
pub mod amount;
pub mod call;
pub mod error;
pub mod fromaddress;
pub mod hex;
pub mod inputs;
pub mod keys;
pub mod laws;
pub mod params;
pub mod preflight;
pub mod text;
