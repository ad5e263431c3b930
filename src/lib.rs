//! Bidirectional exchange between native currency and balances of an
//! external fungible-token ledger, with an admin set and configuration.
//!
//! Every workflow that talks to the ledger is a step machine: a start
//! function either finishes at once or names a ledger call together with
//! what the workflow waits for; the host performs the call and hands the
//! reply to `VFTManagerService::resume`, and so on until a final outcome.
//!
//! A workflow fixes what it depends on when it starts (the ledger contract,
//! the token and currency amounts) and carries it in its `Pending` value, so
//! configuration changes made by other invocations while it waits for a
//! reply do not alter it halfway; balances are enforced by the ledger,
//! whose transfer or burn reports `false` when they no longer suffice.
pub mod events;
pub mod laws;
pub mod ledger;
pub mod service;
pub mod state;
pub mod types;
