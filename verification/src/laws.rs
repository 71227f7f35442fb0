//! What holds of every history of the engine.

use crate::codec::{decoded_tile, encoded_tile};
use crate::coord::TileCoord;
use crate::disk::{load_of_probe, DiskLoad, DiskProbe};
use crate::memory::{CacheEntry, Lookup};
use crate::model::{burst, Event, Followup, LoaderState};
use crate::worker::{
    is_plan_for, is_report_of, is_update_for, outcome_of, FetchFailure, FetchPlan, Transfer,
    WorkerResult,
};
use image::DynamicImage;
use vstd::prelude::*;

verus! {

/// Whether `events` holds no release of the slot of `coord`.
pub open spec fn keeps_slot(events: Seq<Event>, coord: TileCoord) -> bool {
    forall|i: int| 0 <= i < events.len() ==> events[i] != Event::Released(coord)
}

/// No event takes the engine over its ceiling, or changes the ceiling.
pub proof fn lemma_step_keeps_ceiling(s: LoaderState, event: Event)
    requires
        s.wf(),
    ensures
        s.step(event).wf(),
        s.step(event).ceiling == s.ceiling,
{
}

/// The number of coordinates in flight never exceeds the ceiling.
pub proof fn lemma_ceiling_holds(s: LoaderState, events: Seq<Event>)
    requires
        s.wf(),
    ensures
        s.run(events).wf(),
        s.run(events).ceiling == s.ceiling,
    decreases events.len(),
{
    if events.len() > 0 {
        lemma_ceiling_holds(s, events.drop_last());
        lemma_step_keeps_ceiling(s.run(events.drop_last()), events.last());
    }
}

/// While the ceiling is reached, a request for a tile that is neither in
/// memory nor on disk is answered with nothing, starts no worker and
/// changes nothing.
pub proof fn lemma_full_engine_defers(s: LoaderState, coord: TileCoord, load: DiskLoad)
    requires
        s.wf(),
        s.in_flight.len() >= s.ceiling,
        !s.cache.contains_key(coord),
        !(load is Loaded),
    ensures
        s.reply(coord, load).tile is None,
        !s.reply(coord, load).spawn_worker,
        s.request(coord, load) == s,
{
}

/// When a worker gives up its slot, a coordinate that is not in flight can
/// be admitted again.
pub proof fn lemma_release_frees_slot(s: LoaderState, done: TileCoord, coord: TileCoord)
    requires
        s.wf(),
        s.in_flight.contains(done),
        !s.in_flight.contains(coord),
    ensures
        s.release(done).admits(coord),
{
}

/// An entry of the memory tier is never replaced or removed: a request for a
/// resolved coordinate gets the same answer ever after.
pub proof fn lemma_entries_are_permanent(s: LoaderState, events: Seq<Event>, coord: TileCoord)
    requires
        s.cache.contains_key(coord),
    ensures
        s.run(events).cache.contains_key(coord),
        s.run(events).cache[coord] == s.cache[coord],
        s.run(events).lookup(coord) == s.lookup(coord),
    decreases events.len(),
{
    if events.len() > 0 {
        lemma_entries_are_permanent(s, events.drop_last(), coord);
    }
}

/// After a failed fetch of a coordinate, every request for it is answered
/// with nothing, by the memory tier alone: the disk is left alone, no worker
/// starts, and the state stays as it is.
pub proof fn lemma_negative_is_final(
    s: LoaderState,
    events: Seq<Event>,
    coord: TileCoord,
    load: DiskLoad,
)
    requires
        s.cache.contains_key(coord),
        s.cache[coord] == CacheEntry::Negative,
    ensures
        s.run(events).lookup(coord) == Lookup::Ready(None),
        s.run(events).reply(coord, load) == (Followup {
            tile: None,
            discard_file: false,
            prepare_dir: false,
            spawn_worker: false,
        }),
        s.run(events).request(coord, load) == s.run(events),
{
    lemma_entries_are_permanent(s, events, coord);
}

/// As long as no worker for a coordinate gives up its slot, at most one
/// worker is started for it, and none if one is in flight at the outset:
/// however many requests are made, one fetch serves them all.
pub proof fn lemma_one_worker_per_coordinate(s: LoaderState, events: Seq<Event>, coord: TileCoord)
    requires
        s.wf(),
        keeps_slot(events, coord),
    ensures
        s.spawned(events, coord) <= 1,
        s.in_flight.contains(coord) ==> s.spawned(events, coord) == 0,
        s.in_flight.contains(coord) || s.spawned(events, coord) == 1 ==> s.run(
            events,
        ).in_flight.contains(coord),
    decreases events.len(),
{
    if events.len() > 0 {
        let earlier = events.drop_last();
        assert(keeps_slot(earlier, coord)) by {
            assert forall|i: int| 0 <= i < earlier.len() implies earlier[i] != Event::Released(
                coord,
            ) by {
                assert(earlier[i] == events[i]);
            }
        }
        lemma_one_worker_per_coordinate(s, earlier, coord);
        lemma_ceiling_holds(s, earlier);
        assert(events.last() == events[events.len() - 1]);
    }
}

/// At every moment the workers for a coordinate that were started and have
/// not ended are as many as its slots: one while the coordinate is in
/// flight, and none otherwise.
pub proof fn lemma_workers_match_slots(s: LoaderState, events: Seq<Event>, coord: TileCoord)
    requires
        s.wf(),
    ensures
        s.spawned(events, coord) + (if s.in_flight.contains(coord) {
            1nat
        } else {
            0nat
        }) == s.finished(events, coord) + (if s.run(events).in_flight.contains(coord) {
            1nat
        } else {
            0nat
        }),
    decreases events.len(),
{
    if events.len() > 0 {
        lemma_workers_match_slots(s, events.drop_last(), coord);
        lemma_ceiling_holds(s, events.drop_last());
    }
}

/// Any number of requests in a row for a coordinate that is nowhere yet
/// start exactly one worker, if a slot is free at the first of them.
pub proof fn lemma_burst_starts_one_worker(s: LoaderState, coord: TileCoord, loads: Seq<DiskLoad>)
    requires
        s.wf(),
        !s.cache.contains_key(coord),
        s.admits(coord),
        loads.len() >= 1,
        forall|i: int| 0 <= i < loads.len() ==> !(loads[i] is Loaded),
    ensures
        s.spawned(burst(coord, loads), coord) == 1,
        s.run(burst(coord, loads)).in_flight.contains(coord),
        !s.run(burst(coord, loads)).cache.contains_key(coord),
    decreases loads.len(),
{
    let events = burst(coord, loads);
    let earlier = burst(coord, loads.drop_last());
    assert(events.drop_last() =~= earlier);
    assert(events.last() == Event::Requested(coord, loads.last()));
    if loads.len() == 1 {
        assert(s.run(earlier) == s);
        assert(s.spawned(earlier, coord) == 0);
    } else {
        lemma_burst_starts_one_worker(s, coord, loads.drop_last());
    }
}

/// Once a worker has reported and given up its slot, the coordinate is
/// resolved and no longer in flight: whoever sees the slot free finds the
/// outcome in memory.
pub proof fn lemma_finished_worker_is_visible(
    s: LoaderState,
    coord: TileCoord,
    tile: Option<DynamicImage>,
)
    ensures
        s.record(coord, tile).release(coord).cache.contains_key(coord),
        !s.record(coord, tile).release(coord).in_flight.contains(coord),
        !s.cache.contains_key(coord) ==> s.record(coord, tile).release(coord).lookup(coord)
            == Lookup::Ready(tile),
{
}

/// While a worker is resolving a coordinate and has not reported, a request
/// for it that finds no tile on disk is answered with nothing and changes
/// nothing: the requester asks again later.
pub proof fn lemma_request_in_flight_waits(s: LoaderState, coord: TileCoord, load: DiskLoad)
    requires
        s.in_flight.contains(coord),
        !s.cache.contains_key(coord),
        !(load is Loaded),
    ensures
        s.reply(coord, load).tile is None,
        !s.reply(coord, load).spawn_worker,
        s.request(coord, load) == s,
{
}

/// A request for a tile that is nowhere yet is answered with nothing and
/// starts a worker. The worker downloads the tile from its address. When
/// the server answers with the file of a tile, the worker reports that tile
/// and has it written to its file as the encoder renders it, and the tile
/// is what every request gets once the worker has reported it.
pub proof fn lemma_fetched_tile_is_served(
    s: LoaderState,
    coord: TileCoord,
    plan: FetchPlan,
    body: Vec<u8>,
    img: DynamicImage,
    result: WorkerResult,
    during: Seq<Event>,
    later: Seq<Event>,
    load: DiskLoad,
)
    requires
        s.wf(),
        !s.cache.contains_key(coord),
        s.admits(coord),
        is_plan_for(plan, coord, DiskLoad::Missing),
        decoded_tile(body@) == Some(img),
        is_report_of(result, Transfer::Replied { success: true, body }),
        !s.request(coord, DiskLoad::Missing).run(during).cache.contains_key(coord),
    ensures
        s.reply(coord, DiskLoad::Missing).tile is None,
        s.reply(coord, DiskLoad::Missing).spawn_worker,
        s.request(coord, DiskLoad::Missing).in_flight.contains(coord),
        plan matches FetchPlan::Download { url, discard_file } && url@ == coord.url_spec()
            && !discard_file,
        outcome_of(Transfer::Replied { success: true, body }) == Ok::<DynamicImage, FetchFailure>(
            img,
        ),
        result.tile == Some(img),
        result.failure is None,
        is_update_for(result.file, encoded_tile(img)),
        s.request(coord, DiskLoad::Missing).run(during).record(coord, result.tile).release(
            coord,
        ).run(later).reply(coord, load).tile == Some(img),
{
    let reported = s.request(coord, DiskLoad::Missing).run(during).record(coord, result.tile).release(
        coord,
    );
    lemma_entries_are_permanent(reported, later, coord);
}

/// A tile that is on disk and not in memory is answered from disk: no
/// worker starts, nothing is in flight that was not before, and from then
/// on the memory tier has the tile.
pub proof fn lemma_tile_on_disk_is_served(
    s: LoaderState,
    coord: TileCoord,
    file: Vec<u8>,
    img: DynamicImage,
    later: Seq<Event>,
)
    requires
        !s.cache.contains_key(coord),
        decoded_tile(file@) == Some(img),
    ensures
        load_of_probe(DiskProbe::Found(file)) == DiskLoad::Loaded(img),
        s.reply(coord, DiskLoad::Loaded(img)) == (Followup {
            tile: Some(img),
            discard_file: false,
            prepare_dir: false,
            spawn_worker: false,
        }),
        s.request(coord, DiskLoad::Loaded(img)).in_flight == s.in_flight,
        s.request(coord, DiskLoad::Loaded(img)).run(later).lookup(coord) == Lookup::Ready(
            Some(img),
        ),
{
    lemma_entries_are_permanent(s.request(coord, DiskLoad::Loaded(img)), later, coord);
}

/// A request that finds a file that holds no tile has the file removed and
/// is answered with nothing; a fetch of the tile is admitted then and there,
/// if no worker is resolving the coordinate and the ceiling is not reached.
pub proof fn lemma_corrupt_file_is_refetched(s: LoaderState, coord: TileCoord, file: Vec<u8>)
    requires
        s.wf(),
        !s.cache.contains_key(coord),
        decoded_tile(file@) is None,
    ensures
        load_of_probe(DiskProbe::Found(file)) == DiskLoad::Corrupt,
        s.reply(coord, DiskLoad::Corrupt).discard_file,
        s.reply(coord, DiskLoad::Corrupt).tile is None,
        s.reply(coord, DiskLoad::Corrupt).spawn_worker == s.admits(coord),
        s.admits(coord) ==> s.request(coord, DiskLoad::Corrupt).in_flight.contains(coord),
        !s.request(coord, DiskLoad::Corrupt).cache.contains_key(coord),
{
}

} // verus!
