//! The tile cache of Secure Notes.
//!
//! Map tiles are looked up in memory first, then on the local disk, and are
//! finally fetched from the tile server by a bounded number of background
//! workers, at most one per tile. This crate holds every decision of that
//! engine as sequential code with proved contracts. It reads no file, opens
//! no connection and starts no thread: the caller does what the engine asks
//! for, and reports what came of it.
//!
//! - [`coord`]: tile coordinates, and the file and the address of a tile;
//! - [`memory`]: the memory tier;
//! - [`admission`]: the bound on concurrent fetches;
//! - [`disk`]: what a tile's file is worth;
//! - [`worker`]: the steps of a background fetch;
//! - [`loader`]: the engine that a caller drives;
//! - [`model`] and [`laws`]: the engine as a transition system, and what
//!   holds of all its histories;
//! - [`codec`]: decoding and encoding of tiles, done by the `image` crate;
//! - [`decimal`]: integers as text.

pub mod decimal;
pub mod coord;
pub mod codec;
pub mod admission;
pub mod memory;
pub mod disk;
pub mod worker;
pub mod model;
pub mod loader;
pub mod laws;
