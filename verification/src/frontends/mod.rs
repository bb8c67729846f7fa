//! Frontends that put the code grant to use.
pub mod simple;
