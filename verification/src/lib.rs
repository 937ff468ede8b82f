//! Small, self-contained illustrations of ownership, borrowing, mutability and
//! lifetimes. Every function builds a handful of local values, moves or borrows
//! them in one particular way, and returns what can be observed along the way.

pub mod aliasing;
pub mod demonstrator;
pub mod flows;
pub mod moves;
