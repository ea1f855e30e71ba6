//! Flash-loan aggregator core: picks the cheapest lending reserve able to serve a
//! loan, builds the cross-program calls that the lending backend and the borrower's
//! receiver expect, and checks repayment before a session settles.
pub mod address;
pub mod authority;
pub mod cpi;
pub mod error;
pub mod fee;
pub mod lending;
pub mod registry;
pub mod session;
pub mod token_account;
