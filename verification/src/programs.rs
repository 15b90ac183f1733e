//! The concrete simulation programs: the double-buffered velocity quantity
//! and the standalone source-injection program.

pub mod addsource;
pub mod velocity;
