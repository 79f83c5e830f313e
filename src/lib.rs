//! A local gateway to block metadata (hash and timestamp by block number),
//! served to a network endpoint and a desktop window at once. The library holds
//! the decisions: validating block numbers, the life of one query, the replies
//! and texts for each outcome, the window's state machine, and the shared
//! shutdown signal with the bounded wait for both frontends to end.

pub mod block;
pub mod interactive;
pub mod number;
pub mod query;
pub mod response;
pub mod shutdown;
pub mod text;
