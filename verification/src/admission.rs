//! Admission control for background fetches.
//!
//! The controller holds the coordinates that a fetch worker is resolving.
//! It admits a coordinate only if no worker is resolving it already and the
//! number of workers is below the ceiling.

use crate::coord::{coord_of_key, lemma_key_injective, lemma_key_roundtrip, TileCoord};
use std::collections::HashSet;
use vstd::prelude::*;

verus! {

broadcast use vstd::std_specs::hash::group_hash_axioms;

/// The ceiling of a controller made with [`AdmissionController::new`].
pub const MAX_IN_FLIGHT: usize = 16;

/// The coordinates whose keys are in `keys`.
spec fn coords_of(keys: Set<u128>) -> Set<TileCoord> {
    Set::new(|c: TileCoord| keys.contains(c.key_spec()))
}

/// Whether `k` is the key of a coordinate.
spec fn is_key(k: u128) -> bool {
    coord_of_key(k).key_spec() == k
}

/// A finite set of keys stands for as many coordinates as it has keys.
proof fn lemma_coords_of_len(keys: Set<u128>)
    requires
        keys.finite(),
        forall|k: u128| #[trigger] keys.contains(k) ==> is_key(k),
    ensures
        coords_of(keys).finite(),
        coords_of(keys).len() == keys.len(),
    decreases keys.len(),
{
    if keys.len() == 0 {
        assert(keys =~= Set::empty());
        assert(coords_of(keys) =~= Set::empty());
    } else {
        let k = keys.choose();
        let rest = keys.remove(k);
        let c = coord_of_key(k);
        assert(keys.contains(k));
        assert(is_key(k));
        lemma_coords_of_len(rest);
        assert forall|d: TileCoord| coords_of(keys).contains(d) == coords_of(rest).insert(
            c,
        ).contains(d) by {
            if d.key_spec() == k {
                lemma_key_injective(d, c);
            }
        }
        assert(coords_of(keys) =~= coords_of(rest).insert(c));
        assert(!coords_of(rest).contains(c));
    }
}

/// The set of coordinates in flight, bounded by a ceiling.
#[derive(Debug)]
pub struct AdmissionController {
    keys: HashSet<u128>,
    ceiling: usize,
}

impl View for AdmissionController {
    type V = Set<TileCoord>;

    /// The coordinates in flight.
    closed spec fn view(&self) -> Set<TileCoord> {
        coords_of(self.keys@)
    }
}

impl AdmissionController {
    /// What holds of every controller: the ceiling is respected.
    #[verifier::type_invariant]
    pub closed spec fn inv(self) -> bool {
        &&& self.keys@.finite()
        &&& self.keys@.len() <= self.ceiling
        &&& forall|k: u128| #[trigger] self.keys@.contains(k) ==> is_key(k)
    }

    /// The most coordinates that may be in flight at once.
    pub closed spec fn ceiling_spec(self) -> nat {
        self.ceiling as nat
    }

    /// The coordinates in flight are no more than the ceiling allows.
    pub open spec fn bounded(self) -> bool {
        self@.finite() && self@.len() <= self.ceiling_spec()
    }

    /// A controller never holds more coordinates than its ceiling.
    pub proof fn lemma_bounded(self)
        requires
            self.inv(),
        ensures
            self.bounded(),
    {
        lemma_coords_of_len(self.keys@);
    }

    /// A controller with nothing in flight and a ceiling of [`MAX_IN_FLIGHT`].
    pub fn new() -> (controller: Self)
        ensures
            controller@ == Set::<TileCoord>::empty(),
            controller.ceiling_spec() == MAX_IN_FLIGHT,
    {
        Self::with_ceiling(MAX_IN_FLIGHT)
    }

    /// A controller with nothing in flight and the given ceiling.
    pub fn with_ceiling(ceiling: usize) -> (controller: Self)
        ensures
            controller@ == Set::<TileCoord>::empty(),
            controller.ceiling_spec() == ceiling,
    {
        let controller = AdmissionController { keys: HashSet::new(), ceiling };
        assert(controller@ =~= Set::<TileCoord>::empty());
        controller
    }

    /// The most coordinates that may be in flight at once.
    pub fn ceiling(&self) -> (ceiling: usize)
        ensures
            ceiling == self.ceiling_spec(),
    {
        self.ceiling
    }

    /// The number of coordinates in flight.
    pub fn in_flight(&self) -> (count: usize)
        ensures
            count == self@.len(),
            count <= self.ceiling_spec(),
    {
        proof {
            use_type_invariant(self);
            lemma_coords_of_len(self.keys@);
        }
        self.keys.len()
    }

    /// Whether a worker is resolving `coord`.
    pub fn contains(&self, coord: TileCoord) -> (found: bool)
        ensures
            found == self@.contains(coord),
    {
        let key: u128 = coord.key();
        self.keys.contains(&key)
    }

    /// Reserves a slot for `coord`. Fails, and changes nothing, if a worker
    /// is resolving `coord` already, or if the ceiling is reached. After a
    /// success the caller starts exactly one worker for `coord`.
    pub fn try_admit(&mut self, coord: TileCoord) -> (admitted: bool)
        ensures
            final(self).bounded(),
            admitted == (!old(self)@.contains(coord) && old(self)@.len() < old(
                self,
            ).ceiling_spec()),
            final(self)@ == (if admitted {
                old(self)@.insert(coord)
            } else {
                old(self)@
            }),
            final(self).ceiling_spec() == old(self).ceiling_spec(),
    {
        proof {
            use_type_invariant(&*self);
            lemma_coords_of_len(self.keys@);
            lemma_key_roundtrip(coord);
        }
        let key: u128 = coord.key();
        if self.keys.contains(&key) || self.keys.len() >= self.ceiling {
            false
        } else {
            // The set is taken out while it changes: the controller is valid
            // whenever it can be seen.
            let mut keys: HashSet<u128> = HashSet::new();
            core::mem::swap(&mut self.keys, &mut keys);
            keys.insert(key);
            core::mem::swap(&mut self.keys, &mut keys);
            proof {
                lemma_coords_of_len(self.keys@);
                assert forall|d: TileCoord| self@.contains(d) == old(self)@.insert(coord).contains(
                    d,
                ) by {
                    if d.key_spec() == key {
                        lemma_key_injective(d, coord);
                    }
                }
                assert(self@ =~= old(self)@.insert(coord));
            }
            true
        }
    }

    /// Gives up the slot of `coord`, if it has one. A worker calls this once,
    /// as its last step, whatever became of its fetch.
    pub fn release(&mut self, coord: TileCoord) -> (was_in_flight: bool)
        ensures
            final(self).bounded(),
            was_in_flight == old(self)@.contains(coord),
            final(self)@ == old(self)@.remove(coord),
            final(self).ceiling_spec() == old(self).ceiling_spec(),
    {
        proof {
            use_type_invariant(&*self);
        }
        let key: u128 = coord.key();
        let mut keys: HashSet<u128> = HashSet::new();
        core::mem::swap(&mut self.keys, &mut keys);
        let was_in_flight = keys.remove(&key);
        core::mem::swap(&mut self.keys, &mut keys);
        proof {
            lemma_coords_of_len(self.keys@);
            assert forall|d: TileCoord| self@.contains(d) == old(self)@.remove(coord).contains(
                d,
            ) by {
                if d.key_spec() == key {
                    lemma_key_injective(d, coord);
                }
            }
            assert(self@ =~= old(self)@.remove(coord));
        }
        was_in_flight
    }
}

} // verus!
