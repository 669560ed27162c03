//! A small cooperative concurrency primitive — an executor that drives a
//! suspendable computation to completion, and a bridge that runs blocking
//! work on a background thread behind the same suspension protocol —
//! together with the parsing, conversion and modelling exercises that grew
//! up around it.

pub mod arith;
pub mod bridge;
pub mod chat;
pub mod computation;
pub mod content;
pub mod executor;
pub mod fib;
pub mod kvpair;
pub mod markdown;
pub mod mystring;
pub mod node;
pub mod notify;
pub mod sums;
pub mod weburl;

pub use bridge::BlockingBridge;
pub use bridge::spawn_blocking;
pub use computation::Computation;
pub use computation::Ready;
pub use computation::Step;
pub use executor::run_spawned;
pub use executor::run_to_completion;
pub use notify::NotificationHandle;
