//! A value-transfer interceptor for an account-based ledger.
//!
//! When a token moves between two holders, the token-processing authority
//! invokes this module synchronously. The module deducts and destroys a
//! basis-point fraction of the transferred amount, publishes a per-mint
//! resolution table that names the extra accounts a hook invocation must
//! carry, decodes the foreign instruction tag that the token authority sends,
//! and validates the derived addresses that anchor trust in the hook.

pub mod addr;
pub mod error;
pub mod dispatch;
pub mod fee;
pub mod hook;
pub mod pda;
pub mod table;
