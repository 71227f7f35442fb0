//! The disk tier, seen from the engine.
//!
//! Each tile has one file below the cache root, at
//! [`TileCoord::relative_path`](crate::coord::TileCoord::relative_path).
//! Whether a tile is on disk is decided by that file alone. The caller reads
//! the file; this module decides what its contents are worth.

use crate::codec::{decode_png, decoded_tile};
use image::DynamicImage;
use vstd::prelude::*;

verus! {

/// What the caller found at a tile's path.
#[derive(Clone, Debug, PartialEq, Eq)]
pub enum DiskProbe {
    /// There is no file.
    Missing,
    /// There is a file, and it could not be read.
    Unreadable,
    /// The contents of the file.
    Found(Vec<u8>),
}

/// What the disk tier has for a coordinate.
#[derive(Clone, Debug, PartialEq)]
pub enum DiskLoad {
    /// There is no file.
    Missing,
    /// There is a file that holds no tile: it is to be removed.
    Corrupt,
    /// The tile that the file holds.
    Loaded(DynamicImage),
}

/// What a file is worth whose contents decoded to `decoded`.
pub open spec fn load_of_decoded(decoded: Option<DynamicImage>) -> DiskLoad {
    match decoded {
        Some(img) => DiskLoad::Loaded(img),
        None => DiskLoad::Corrupt,
    }
}

/// What the disk tier has, given what the caller found. A file that cannot
/// be read counts as one that cannot be decoded.
pub open spec fn load_of_probe(probe: DiskProbe) -> DiskLoad {
    match probe {
        DiskProbe::Missing => DiskLoad::Missing,
        DiskProbe::Unreadable => DiskLoad::Corrupt,
        DiskProbe::Found(bytes) => load_of_decoded(decoded_tile(bytes@)),
    }
}

/// Judges a file by what its contents decoded to.
pub fn classify(decoded: Option<DynamicImage>) -> (load: DiskLoad)
    ensures
        load == load_of_decoded(decoded),
{
    match decoded {
        Some(img) => DiskLoad::Loaded(img),
        None => DiskLoad::Corrupt,
    }
}

/// Decodes what the caller found at a tile's path.
pub fn load_cached(probe: DiskProbe) -> (load: DiskLoad)
    ensures
        load == load_of_probe(probe),
{
    match probe {
        DiskProbe::Missing => DiskLoad::Missing,
        DiskProbe::Unreadable => DiskLoad::Corrupt,
        DiskProbe::Found(bytes) => classify(decode_png(bytes.as_slice())),
    }
}

} // verus!
