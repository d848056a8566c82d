//! Verified core of a Celo blockchain query client.
//!
//! The crate models the read-only queries the client issues: resolving
//! well-known contract names through the on-chain registry, reporting an
//! account's token balances, and quoting the Mento exchange in both
//! directions. All decision logic lives here with contracts; the
//! network transport around it hands this crate plain values.

pub mod address;
pub mod amount;
pub mod command;
pub mod endpoint;
pub mod hex;
pub mod quote;
pub mod registry;
pub mod report;
pub mod text;

pub use address::Address;
pub use amount::Amount;
