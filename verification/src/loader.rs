//! The engine: memory tier and admission control behind one interface.
//!
//! A request is answered in two steps. [`TileLoader::get_tile`] asks the
//! memory tier. On a miss the caller looks for the tile's file, and
//! [`TileLoader::disk_checked`] decides the rest: what is answered, and
//! whether a background fetch starts. A worker reports with
//! [`TileLoader::record`] and ends with [`TileLoader::release`]. No
//! operation waits for the disk or the network.

use crate::admission::{AdmissionController, MAX_IN_FLIGHT};
use crate::coord::TileCoord;
use crate::disk::DiskLoad;
use crate::memory::{Lookup, MemoryCache};
use crate::model::{Followup, LoaderState};
use image::DynamicImage;
use vstd::prelude::*;

verus! {

/// The tile cache engine.
#[derive(Debug)]
pub struct TileLoader {
    cache: MemoryCache,
    admission: AdmissionController,
}

impl View for TileLoader {
    type V = LoaderState;

    /// The state of the engine.
    closed spec fn view(&self) -> LoaderState {
        LoaderState {
            cache: self.cache@,
            in_flight: self.admission@,
            ceiling: self.admission.ceiling_spec(),
        }
    }
}

impl TileLoader {
    /// An engine that has resolved nothing, with room for
    /// [`MAX_IN_FLIGHT`] workers.
    pub fn new() -> (loader: Self)
        ensures
            loader@.wf(),
            loader@ == LoaderState::empty(MAX_IN_FLIGHT as nat),
    {
        Self::with_ceiling(MAX_IN_FLIGHT)
    }

    /// An engine that has resolved nothing, with room for `ceiling` workers.
    pub fn with_ceiling(ceiling: usize) -> (loader: Self)
        ensures
            loader@.wf(),
            loader@ == LoaderState::empty(ceiling as nat),
    {
        TileLoader { cache: MemoryCache::new(), admission: AdmissionController::with_ceiling(ceiling) }
    }

    /// The address from which the tile in column `x` and row `y` at zoom
    /// level `z` is fetched.
    pub fn get_tile_url(x: i32, y: i32, z: u8) -> (url: String)
        ensures
            url@ == (TileCoord { x, y, z }).url_spec(),
    {
        let coord = TileCoord { x, y, z };
        coord.url()
    }

    /// Answers a request from the memory tier: with the tile, with nothing
    /// for good after a failed fetch, or with [`Lookup::Miss`], after which
    /// the caller consults the disk tier and calls
    /// [`disk_checked`](Self::disk_checked).
    pub fn get_tile(&self, coord: TileCoord) -> (answer: Lookup)
        ensures
            answer == self@.lookup(coord),
            self@.wf(),
    {
        proof {
            use_type_invariant(&self.admission);
            self.admission.lemma_bounded();
        }
        self.cache.lookup(coord)
    }

    /// Goes on with a request that the memory tier could not answer, given
    /// what the disk tier has. A tile from disk is recorded and answered.
    /// Otherwise a background fetch is admitted, if no worker is resolving
    /// the coordinate and the ceiling is not reached, and the answer is
    /// that there is no tile yet.
    pub fn disk_checked(&mut self, coord: TileCoord, load: DiskLoad) -> (followup: Followup)
        ensures
            final(self)@.wf(),
            final(self)@ == old(self)@.disk_checked(coord, load),
            followup == old(self)@.followup(coord, load),
    {
        proof {
            use_type_invariant(&self.admission);
            self.admission.lemma_bounded();
        }
        match load {
            DiskLoad::Loaded(img) => {
                let tile = img.clone();
                self.cache.store(coord, Some(img));
                Followup {
                    tile: Some(tile),
                    discard_file: false,
                    prepare_dir: false,
                    spawn_worker: false,
                }
            },
            DiskLoad::Corrupt => {
                let admitted = self.admission.try_admit(coord);
                Followup {
                    tile: None,
                    discard_file: true,
                    prepare_dir: false,
                    spawn_worker: admitted,
                }
            },
            DiskLoad::Missing => {
                let admitted = self.admission.try_admit(coord);
                Followup {
                    tile: None,
                    discard_file: false,
                    prepare_dir: true,
                    spawn_worker: admitted,
                }
            },
        }
    }

    /// Records the outcome of a worker's fetch of `coord`: the tile, or
    /// nothing after a failure. An entry that exists already stays as it
    /// is. Says whether the entry was made.
    pub fn record(&mut self, coord: TileCoord, tile: Option<DynamicImage>) -> (made: bool)
        ensures
            final(self)@.wf(),
            final(self)@ == old(self)@.record(coord, tile),
            made == !old(self)@.cache.contains_key(coord),
    {
        proof {
            use_type_invariant(&self.admission);
            self.admission.lemma_bounded();
        }
        self.cache.store(coord, tile)
    }

    /// Gives up the slot of the worker for `coord`. A worker calls this
    /// once, as its last step and after [`record`](Self::record), whatever
    /// became of its fetch. Says whether `coord` was in flight.
    pub fn release(&mut self, coord: TileCoord) -> (was_in_flight: bool)
        ensures
            final(self)@.wf(),
            final(self)@ == old(self)@.release(coord),
            was_in_flight == old(self)@.in_flight.contains(coord),
    {
        self.admission.release(coord)
    }

    /// Whether a worker is resolving `coord`.
    pub fn is_in_flight(&self, coord: TileCoord) -> (found: bool)
        ensures
            found == self@.in_flight.contains(coord),
    {
        self.admission.contains(coord)
    }

    /// The number of coordinates that workers are resolving.
    pub fn in_flight_count(&self) -> (count: usize)
        ensures
            count == self@.in_flight.len(),
            count <= self@.ceiling,
    {
        self.admission.in_flight()
    }

    /// The most workers that may run at once.
    pub fn ceiling(&self) -> (ceiling: usize)
        ensures
            ceiling == self@.ceiling,
    {
        self.admission.ceiling()
    }
}

} // verus!
