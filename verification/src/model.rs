//! The engine as a transition system.
//!
//! [`LoaderState`] is what the engine knows at one moment; each operation of
//! [`TileLoader`](crate::loader::TileLoader) is one of the transitions
//! defined here. A history of the engine is a sequence of [`Event`]s.

use crate::coord::TileCoord;
use crate::disk::DiskLoad;
use crate::memory::{lookup_in, stored, CacheEntry, Lookup};
use image::DynamicImage;
use vstd::prelude::*;

verus! {

/// What the caller has to do after the disk tier was consulted for a
/// request.
#[derive(Clone, Debug, PartialEq)]
pub struct Followup {
    /// The answer to the request. Nothing means that there is no tile yet:
    /// the requester asks again later.
    pub tile: Option<DynamicImage>,
    /// Remove the tile's file: it holds no tile.
    pub discard_file: bool,
    /// Create the directory of the tile's file, so that a worker finds it.
    pub prepare_dir: bool,
    /// Start one fetch worker for the coordinate.
    pub spawn_worker: bool,
}

/// The state of the engine.
pub struct LoaderState {
    /// The memory tier: the entry of each resolved coordinate.
    pub cache: Map<TileCoord, CacheEntry>,
    /// The coordinates that a fetch worker is resolving.
    pub in_flight: Set<TileCoord>,
    /// The most workers that may run at once.
    pub ceiling: nat,
}

/// Something that happens to the engine.
pub enum Event {
    /// A request was made and answered in one piece, while the disk tier
    /// had the given contents.
    Requested(TileCoord, DiskLoad),
    /// The disk tier was consulted for a request that the memory tier had
    /// not answered, with the given result.
    DiskChecked(TileCoord, DiskLoad),
    /// A worker reported the outcome of its fetch.
    Recorded(TileCoord, Option<DynamicImage>),
    /// A worker gave up its slot.
    Released(TileCoord),
}

impl LoaderState {
    /// The state of an engine that has done nothing yet.
    pub open spec fn empty(ceiling: nat) -> LoaderState {
        LoaderState { cache: Map::empty(), in_flight: Set::empty(), ceiling }
    }

    /// The ceiling is respected.
    pub open spec fn wf(self) -> bool {
        &&& self.in_flight.finite()
        &&& self.in_flight.len() <= self.ceiling
    }

    /// The answer of the memory tier to a request for `coord`.
    pub open spec fn lookup(self, coord: TileCoord) -> Lookup {
        lookup_in(self.cache, coord)
    }

    /// Whether a worker for `coord` may start: none is resolving `coord`,
    /// and the ceiling is not reached.
    pub open spec fn admits(self, coord: TileCoord) -> bool {
        !self.in_flight.contains(coord) && self.in_flight.len() < self.ceiling
    }

    /// The state after an attempt to admit `coord`.
    pub open spec fn after_admission(self, coord: TileCoord) -> LoaderState {
        if self.admits(coord) {
            LoaderState { in_flight: self.in_flight.insert(coord), ..self }
        } else {
            self
        }
    }

    /// The state after the outcome `tile` was reported for `coord`.
    pub open spec fn record(self, coord: TileCoord, tile: Option<DynamicImage>) -> LoaderState {
        LoaderState { cache: stored(self.cache, coord, tile), ..self }
    }

    /// The state after the worker for `coord` gave up its slot.
    pub open spec fn release(self, coord: TileCoord) -> LoaderState {
        LoaderState { in_flight: self.in_flight.remove(coord), ..self }
    }

    /// The state after the disk tier was consulted for a request for
    /// `coord`: a tile on disk is recorded, and otherwise a fetch is
    /// admitted if that is possible.
    pub open spec fn disk_checked(self, coord: TileCoord, load: DiskLoad) -> LoaderState {
        match load {
            DiskLoad::Loaded(img) => self.record(coord, Some(img)),
            DiskLoad::Corrupt => self.after_admission(coord),
            DiskLoad::Missing => self.after_admission(coord),
        }
    }

    /// What the caller has to do after the disk tier was consulted for a
    /// request for `coord`. A tile on disk is the answer. Otherwise there is
    /// no answer yet: a corrupt file is removed, the directory of a missing
    /// one is created, and a worker is started if the fetch was admitted.
    pub open spec fn followup(self, coord: TileCoord, load: DiskLoad) -> Followup {
        match load {
            DiskLoad::Loaded(img) => Followup {
                tile: Some(img),
                discard_file: false,
                prepare_dir: false,
                spawn_worker: false,
            },
            DiskLoad::Corrupt => Followup {
                tile: None,
                discard_file: true,
                prepare_dir: false,
                spawn_worker: self.admits(coord),
            },
            DiskLoad::Missing => Followup {
                tile: None,
                discard_file: false,
                prepare_dir: true,
                spawn_worker: self.admits(coord),
            },
        }
    }

    /// The state after a whole request for `coord`, made while the disk tier
    /// has `load`: the disk tier is consulted only if the memory tier has no
    /// entry.
    pub open spec fn request(self, coord: TileCoord, load: DiskLoad) -> LoaderState {
        match self.lookup(coord) {
            Lookup::Ready(_) => self,
            Lookup::Miss => self.disk_checked(coord, load),
        }
    }

    /// What comes of a whole request for `coord`, made while the disk tier
    /// has `load`: the answer of the memory tier, and nothing to do, or else
    /// the followup of the disk tier.
    pub open spec fn reply(self, coord: TileCoord, load: DiskLoad) -> Followup {
        match self.lookup(coord) {
            Lookup::Ready(tile) => Followup {
                tile,
                discard_file: false,
                prepare_dir: false,
                spawn_worker: false,
            },
            Lookup::Miss => self.followup(coord, load),
        }
    }

    /// The state after one event.
    pub open spec fn step(self, event: Event) -> LoaderState {
        match event {
            Event::Requested(coord, load) => self.request(coord, load),
            Event::DiskChecked(coord, load) => self.disk_checked(coord, load),
            Event::Recorded(coord, tile) => self.record(coord, tile),
            Event::Released(coord) => self.release(coord),
        }
    }

    /// The state after a sequence of events.
    pub open spec fn run(self, events: Seq<Event>) -> LoaderState
        decreases events.len(),
    {
        if events.len() == 0 {
            self
        } else {
            self.run(events.drop_last()).step(events.last())
        }
    }

    /// Whether `event`, happening in this state, tells the caller to start a
    /// worker for `coord`.
    pub open spec fn spawns(self, event: Event, coord: TileCoord) -> bool {
        match event {
            Event::Requested(c, load) => c == coord && self.reply(c, load).spawn_worker,
            Event::DiskChecked(c, load) => c == coord && self.followup(c, load).spawn_worker,
            Event::Recorded(_, _) => false,
            Event::Released(_) => false,
        }
    }

    /// Whether `event`, happening in this state, ends a worker for `coord`:
    /// it gives up the slot that `coord` has.
    pub open spec fn ends(self, event: Event, coord: TileCoord) -> bool {
        event == Event::Released(coord) && self.in_flight.contains(coord)
    }

    /// The number of workers for `coord` that the caller was told to start
    /// in the course of `events`.
    pub open spec fn spawned(self, events: Seq<Event>, coord: TileCoord) -> nat
        decreases events.len(),
    {
        if events.len() == 0 {
            0
        } else {
            let before = self.run(events.drop_last());
            let earlier = self.spawned(events.drop_last(), coord);
            if before.spawns(events.last(), coord) {
                earlier + 1
            } else {
                earlier
            }
        }
    }

    /// The number of workers for `coord` that ended in the course of
    /// `events`.
    pub open spec fn finished(self, events: Seq<Event>, coord: TileCoord) -> nat
        decreases events.len(),
    {
        if events.len() == 0 {
            0
        } else {
            let before = self.run(events.drop_last());
            let earlier = self.finished(events.drop_last(), coord);
            if before.ends(events.last(), coord) {
                earlier + 1
            } else {
                earlier
            }
        }
    }
}

/// `loads.len()` requests for `coord` in a row, the disk tier having
/// `loads[i]` at the time of request `i`.
pub open spec fn burst(coord: TileCoord, loads: Seq<DiskLoad>) -> Seq<Event> {
    Seq::new(loads.len(), |i: int| Event::Requested(coord, loads[i]))
}

} // verus!
