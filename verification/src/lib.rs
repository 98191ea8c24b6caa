//! A micro-blogging ledger: posts, a paginated comment log with
//! deterministic page addresses, and bounded-memory like tracking.
//!
//! Every operation works on the handful of records handed to it and either
//! commits completely or leaves all of them untouched.
//!
//! - `address`: where a record is filed, as a function of its key fields.
//! - `records`: the persisted records and the rules that change them.
//! - `accounts`: the records that each operation names.
//! - `instructions`: the operations.
//! - `thread`: what holds of a post's comment log as a whole.
//! - `storage`: the stored form of a comment page.

pub mod address;
pub mod records;
pub mod accounts;
pub mod instructions;
pub mod thread;
pub mod storage;
