//! Locking the wallet when it is left alone.

pub mod auto_lock;
