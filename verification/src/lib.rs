//! A fixed-capacity byte arena addressed by identifier.
//!
//! Payloads are placed by bump allocation: each insert claims the bytes at
//! the free cursor and moves the cursor past them. An update rewrites a
//! region in place and never grows it; a delete zeroes a region and forgets
//! its identifier, but the cursor never moves back, so deleted space is not
//! handed out again.
//!
//! `arena` holds the mathematical model that every contract speaks of,
//! `memory_manager` the executable arena, `laws` what follows for every
//! arena, and `insert`, `read`, `update`, `delete` and `dump` the commands
//! that callers with wide identifiers go through.

pub mod arena;
pub mod delete;
pub mod dump;
pub mod error;
pub mod find;
pub mod ident;
pub mod insert;
pub mod laws;
pub mod memory_manager;
pub mod read;
pub mod region;
pub mod text;
pub mod update;
