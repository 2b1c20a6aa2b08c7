//! The gateway's operations: what each sends and how each reads its answer.

pub mod pool;
pub mod user;
