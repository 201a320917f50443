//! Sequencing and routing core of a scheduler unit.
//!
//! A scheduler unit stamps every message sent to a process with the next
//! position in that process's log: a nonce one above the previous one and a
//! digest chained to the previous digest.  In router mode it fronts a pool of
//! units, assigns each new process to the least loaded one and tells callers
//! where to go.
//!
//! Every executable function here carries a contract over the views of the
//! data it touches, and the contracts are proved.

pub mod bundle;
pub mod clock;
pub mod config;
pub mod flows;
pub mod hash_chain;
pub mod json;
pub mod laws;
pub mod response;
pub mod router;
pub mod rows;
pub mod scheduler;
pub mod store;
pub mod text;
