//! Small, fully specified building blocks for teaching exercises: a guarded
//! counter, a validated configuration record, a user with an ordered post
//! list, a tree with non-owning parent links, memoized Fibonacci, and
//! sequential models of the lock, channel and weak-reference protocols that
//! the accompanying demonstration programs exercise with real threads.

pub mod arena;
pub mod channel;
pub mod config;
pub mod counter;
pub mod fib;
pub mod locks;
pub mod memory;
pub mod text;
pub mod tree;
pub mod user;
