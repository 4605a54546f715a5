//! A pluggable key/value note store: records live in named backends, a
//! registry addresses the backends by name and can move a record from one
//! backend to another through their transactions.

pub mod db;
pub mod store;
