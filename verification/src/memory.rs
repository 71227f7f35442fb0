//! The memory tier: what is known about each coordinate for the lifetime of
//! the process.
//!
//! A coordinate without an entry has not been resolved yet. An entry, once
//! made, is never replaced: a tile that was served stays the same, and a
//! coordinate whose fetch failed is not fetched again.

use crate::coord::{lemma_key_injective, TileCoord};
use image::DynamicImage;
use std::collections::HashMap;
use vstd::prelude::*;

verus! {

broadcast use vstd::std_specs::hash::group_hash_axioms;

/// What the memory tier holds for a resolved coordinate.
#[derive(Clone, Debug, PartialEq)]
pub enum CacheEntry {
    /// The fetch failed. There is no tile, and there will be none.
    Negative,
    /// The decoded tile.
    Present(DynamicImage),
}

/// The answer of the memory tier to a request.
#[derive(Clone, Debug, PartialEq)]
pub enum Lookup {
    /// The coordinate is resolved: this is the final answer, the tile or,
    /// after a failed fetch, nothing.
    Ready(Option<DynamicImage>),
    /// The coordinate is not resolved: the disk tier has to be consulted.
    Miss,
}

/// The entry that records the outcome `tile` of a resolution.
pub open spec fn entry_of(tile: Option<DynamicImage>) -> CacheEntry {
    match tile {
        Some(img) => CacheEntry::Present(img),
        None => CacheEntry::Negative,
    }
}

/// What a request for `coord` is answered from `cache`.
pub open spec fn lookup_in(cache: Map<TileCoord, CacheEntry>, coord: TileCoord) -> Lookup {
    if cache.contains_key(coord) {
        match cache[coord] {
            CacheEntry::Present(img) => Lookup::Ready(Some(img)),
            CacheEntry::Negative => Lookup::Ready(None),
        }
    } else {
        Lookup::Miss
    }
}

/// The cache after the outcome `tile` was reported for `coord`: the first
/// report for a coordinate makes its entry, a later one changes nothing.
pub open spec fn stored(
    cache: Map<TileCoord, CacheEntry>,
    coord: TileCoord,
    tile: Option<DynamicImage>,
) -> Map<TileCoord, CacheEntry> {
    if cache.contains_key(coord) {
        cache
    } else {
        cache.insert(coord, entry_of(tile))
    }
}

/// The memory tier.
#[derive(Debug)]
pub struct MemoryCache {
    entries: HashMap<u128, CacheEntry>,
}

impl View for MemoryCache {
    type V = Map<TileCoord, CacheEntry>;

    /// The entry of each resolved coordinate.
    closed spec fn view(&self) -> Map<TileCoord, CacheEntry> {
        Map::new(
            |c: TileCoord| self.entries@.contains_key(c.key_spec()),
            |c: TileCoord| self.entries@[c.key_spec()],
        )
    }
}

impl MemoryCache {
    /// A cache in which no coordinate is resolved.
    pub fn new() -> (cache: Self)
        ensures
            cache@ == Map::<TileCoord, CacheEntry>::empty(),
    {
        let cache = MemoryCache { entries: HashMap::new() };
        assert(cache@ =~= Map::<TileCoord, CacheEntry>::empty());
        cache
    }

    /// Answers a request from memory. A tile is handed out as a copy.
    pub fn lookup(&self, coord: TileCoord) -> (answer: Lookup)
        ensures
            answer == lookup_in(self@, coord),
    {
        let key: u128 = coord.key();
        match self.entries.get(&key) {
            None => Lookup::Miss,
            Some(CacheEntry::Negative) => Lookup::Ready(None),
            Some(CacheEntry::Present(img)) => Lookup::Ready(Some(img.clone())),
        }
    }

    /// Records the outcome of a resolution of `coord`, unless the coordinate
    /// is resolved already. Says whether the entry was made.
    pub fn store(&mut self, coord: TileCoord, tile: Option<DynamicImage>) -> (made: bool)
        ensures
            made == !old(self)@.contains_key(coord),
            final(self)@ == stored(old(self)@, coord, tile),
    {
        let key: u128 = coord.key();
        if self.entries.contains_key(&key) {
            false
        } else {
            let entry = match tile {
                Some(img) => CacheEntry::Present(img),
                None => CacheEntry::Negative,
            };
            self.entries.insert(key, entry);
            proof {
                assert forall|d: TileCoord| d != coord implies d.key_spec() != key by {
                    if d.key_spec() == key {
                        lemma_key_injective(d, coord);
                    }
                }
                assert(self@ =~= stored(old(self)@, coord, tile));
            }
            true
        }
    }
}

} // verus!
