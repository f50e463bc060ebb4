//! Control layer over an enclave platform library: validated configuration,
//! process specifications, argument marshaling, and the decisions taken on the
//! integer results of the native calls.

pub mod error;
pub mod text;
pub mod marshal;
pub mod config;
pub mod stdio;
pub mod path;
pub mod process;
pub mod enclave;
