//! Small verified exercises: rectangle geometry, an iterative Fibonacci,
//! a user-record builder, and a name-suffix helper. Each item carries a
//! contract that pins down exactly what it computes.

pub mod fibonacci;
pub mod naming;
pub mod rectangle;
pub mod user;
