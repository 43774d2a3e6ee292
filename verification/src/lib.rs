//! A geometry core made to sit behind a flat, C-style boundary.
//!
//! The library owns the aggregate state (a polygon: an ordered sequence of
//! coordinate pairs plus an identifier assigned once at construction) and all
//! of the logic that decides what crosses the boundary: sequence mutation with
//! validated indices, snapshots for the owned-array bridge, and the formatted
//! summary for the owned-string bridge. The numeric edge (IEEE-754 arithmetic)
//! and the raw-pointer plumbing live outside the library, which treats each
//! coordinate component as an opaque bit pattern.

pub mod ident;
pub mod point;
pub mod polygon;
pub mod text;
