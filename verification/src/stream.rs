//! The life of a cache as a run of steps, and what holds of every run.
//!
//! In each cycle the consumer handles messages of the worker, attaches the
//! models that it has built, and evicts. Each of these is a step on the
//! resident sectors; the cache's functions perform them, and the laws below
//! speak of any number of them.

use vstd::prelude::*;
use crate::cache::{
    after_attach,
    after_evict,
    after_message,
    meshable,
    reaction,
    resident,
    Reaction,
    Residents,
};
use crate::grid::{has_solid, BlockList};
use crate::lattice::{SectorCoords, EVICTION_DISTANCE_SQ};
use crate::message::{Nearby, Query};
use crate::sector::Sector;

verus! {

/// One step of the consumer on its cache.
pub enum Step<M> {
    /// A message of the worker is handled.
    Message(Nearby),
    /// A model is offered for the sector at the given coordinates.
    Attach(SectorCoords, M),
    /// The sectors out of reach of an observer in the given sector are
    /// evicted.
    Evict(SectorCoords),
}

/// The resident sectors after one step.
pub open spec fn after_step<M>(s: Residents<M>, step: Step<M>) -> Residents<M> {
    match step {
        Step::Message(msg) => after_message(s, msg),
        Step::Attach(coords, model) => after_attach(s, coords, model),
        Step::Evict(observer) => after_evict(s, observer),
    }
}

/// The resident sectors after a run of steps, the first of `steps` taken
/// first.
pub open spec fn after_steps<M>(s: Residents<M>, steps: Seq<Step<M>>) -> Residents<M>
    decreases steps.len(),
{
    if steps.len() == 0 {
        s
    } else {
        after_step(after_steps(s, steps.drop_last()), steps.last())
    }
}

/// Whether `step` makes the sector at `n` resident where it was not: it
/// handles the message that brings the generated sector.
pub open spec fn brings<M>(step: Step<M>, n: SectorCoords) -> bool {
    step matches Step::Message(Nearby::Generated(coords, _)) && coords == n
}

/// Whether every resident sector that has a model has a solid block.
pub open spec fn sound<M>(s: Residents<M>) -> bool {
    forall|c: SectorCoords| s.contains_key(c) ==> (#[trigger] s[c]).wf()
}

/// A query in render range for a sector that is to be meshed asks for its
/// mesh. Once a model is attached the same query asks for nothing, and a
/// second model is refused: the sector is meshed exactly once.
pub proof fn lemma_meshed_once<M>(s: Residents<M>, c: SectorCoords, first: M, second: M)
    requires
        meshable(s, c),
    ensures
        reaction(s, Nearby::Query(Query { sector: c, should_render: true })) == Reaction::Mesh(c),
        after_attach(s, c, first).dom() == s.dom(),
        after_attach(s, c, first)[c].spec_model() == Some(first),
        after_attach(s, c, first)[c].spec_blocks() == s[c].spec_blocks(),
        reaction(
            after_attach(s, c, first),
            Nearby::Query(Query { sector: c, should_render: true }),
        ) == Reaction::Idle,
        after_attach(after_attach(s, c, first), c, second) == after_attach(s, c, first),
{
    s[c].lemma_with_model(first);
    assert(after_attach(s, c, first).dom() =~= s.dom());
}

/// While a neighbour of a sector is not resident, no query asks for the
/// sector's mesh and no model is attached to it.
pub proof fn lemma_gate_shut<M>(s: Residents<M>, c: SectorCoords, i: int, query: Query, model: M)
    requires
        0 <= i < 6,
        !resident(s, c.neighbours()[i]),
        query.sector == c,
    ensures
        !meshable(s, c),
        reaction(s, Nearby::Query(query)) != Reaction::Mesh(c),
        after_attach(s, c, model) == s,
{
}

/// One step that does not bring the missing neighbour `n` of the sector at
/// `c` leaves `n` missing, and leaves the sector at `c` without a model if
/// it had none.
pub proof fn lemma_step_keeps_gate_shut<M>(
    s: Residents<M>,
    step: Step<M>,
    c: SectorCoords,
    i: int,
    n: SectorCoords,
)
    requires
        0 <= i < 6,
        c.neighbours()[i] == Some(n),
        !s.contains_key(n),
        s.contains_key(c) ==> s[c].spec_model() is None,
        !brings(step, n),
    ensures
        !after_step(s, step).contains_key(n),
        after_step(s, step).contains_key(c) ==> after_step(s, step)[c].spec_model() is None,
{
    match step {
        Step::Message(msg) => {
            match msg {
                Nearby::Query(query) => {},
                Nearby::Generated(coords, blocks) => {
                    Sector::<M>::lemma_fresh(blocks);
                },
            }
        },
        Step::Attach(coords, model) => {
            if coords == c {
                lemma_gate_shut(s, c, i, Query { sector: c, should_render: true }, model);
            }
        },
        Step::Evict(observer) => {},
    }
}

/// However many steps are taken, a sector stays without a model as long as
/// none of the steps brings a neighbour of it that is missing.
pub proof fn lemma_never_meshed_without_neighbour<M>(
    s: Residents<M>,
    steps: Seq<Step<M>>,
    c: SectorCoords,
    i: int,
    n: SectorCoords,
)
    requires
        0 <= i < 6,
        c.neighbours()[i] == Some(n),
        !s.contains_key(n),
        s.contains_key(c) ==> s[c].spec_model() is None,
        forall|j: int| 0 <= j < steps.len() ==> !brings(#[trigger] steps[j], n),
    ensures
        !after_steps(s, steps).contains_key(n),
        after_steps(s, steps).contains_key(c) ==> after_steps(s, steps)[c].spec_model() is None,
    decreases steps.len(),
{
    if steps.len() > 0 {
        let earlier = steps.drop_last();
        assert forall|j: int| 0 <= j < earlier.len() implies !brings(#[trigger] earlier[j], n) by {
            assert(earlier[j] == steps[j]);
        }
        lemma_never_meshed_without_neighbour(s, earlier, c, i, n);
        lemma_step_keeps_gate_shut(after_steps(s, earlier), steps.last(), c, i, n);
    }
}

/// A sector at the rim of the lattice, which lacks a neighbour, is never to
/// be meshed.
pub proof fn lemma_rim_sector_not_meshable<M>(s: Residents<M>, c: SectorCoords, i: int)
    requires
        0 <= i < 6,
        c.neighbours()[i] is None,
    ensures
        !meshable(s, c),
{
}

/// A sector that was generated twice is kept as it first came: the message
/// that brings it again changes nothing, neither which sectors are resident
/// nor any of them.
pub proof fn lemma_first_writer_wins<M>(s: Residents<M>, c: SectorCoords, blocks: BlockList)
    requires
        s.contains_key(c),
    ensures
        after_message(s, Nearby::Generated(c, blocks)) == s,
        reaction(s, Nearby::Generated(c, blocks)) == Reaction::Idle,
{
}

/// A query changes nothing, and it asks for a sector to be generated
/// exactly when that sector is not resident.
pub proof fn lemma_query_asks_for_missing<M>(s: Residents<M>, query: Query)
    ensures
        after_message(s, Nearby::Query(query)) == s,
        reaction(s, Nearby::Query(query)) == Reaction::Need(query.sector) <==> !s.contains_key(
            query.sector,
        ),
{
}

/// After an eviction exactly those sectors are resident that were resident
/// and lie within reach of the observer's sector, and they are unchanged.
pub proof fn lemma_evicted<M>(s: Residents<M>, observer: SectorCoords, k: SectorCoords)
    ensures
        after_evict(s, observer).contains_key(k) <==> s.contains_key(k) && (k.x - observer.x) * (k.x
            - observer.x) + (k.y - observer.y) * (k.y - observer.y) + (k.z - observer.z) * (k.z
            - observer.z) < EVICTION_DISTANCE_SQ,
        after_evict(s, observer).contains_key(k) ==> after_evict(s, observer)[k] == s[k],
{
}

/// Eviction does nothing when done again for the same observer.
pub proof fn lemma_evict_twice<M>(s: Residents<M>, observer: SectorCoords)
    ensures
        after_evict(after_evict(s, observer), observer) == after_evict(s, observer),
{
    assert(after_evict(after_evict(s, observer), observer) =~= after_evict(s, observer));
}

/// No step gives a model to a sector of air alone: if every resident sector
/// with a model has a solid block before a step, so it is after it.
pub proof fn lemma_step_keeps_sound<M>(s: Residents<M>, step: Step<M>)
    requires
        sound(s),
    ensures
        sound(after_step(s, step)),
{
    let t = after_step(s, step);
    assert forall|c: SectorCoords| t.contains_key(c) implies (#[trigger] t[c]).wf() by {
        match step {
            Step::Message(msg) => {
                match msg {
                    Nearby::Query(query) => {
                        assert(s[c].wf());
                    },
                    Nearby::Generated(coords, blocks) => {
                        Sector::<M>::lemma_fresh(blocks);
                        if s.contains_key(c) {
                            assert(s[c].wf());
                        }
                    },
                }
            },
            Step::Attach(coords, model) => {
                if s.contains_key(coords) {
                    s[coords].lemma_with_model(model);
                }
                assert(s[c].wf());
            },
            Step::Evict(observer) => {
                assert(s[c].wf());
            },
        }
    }
}

/// From an empty cache no run of steps gives a model to a sector of air
/// alone.
pub proof fn lemma_air_never_meshed<M>(steps: Seq<Step<M>>, c: SectorCoords)
    ensures
        ({
            let t = after_steps(Map::<SectorCoords, Sector<M>>::empty(), steps);
            t.contains_key(c) && !has_solid(t[c].spec_blocks()@) ==> t[c].spec_model() is None
        }),
{
    lemma_steps_keep_sound(Map::<SectorCoords, Sector<M>>::empty(), steps);
    let t = after_steps(Map::<SectorCoords, Sector<M>>::empty(), steps);
    if t.contains_key(c) {
        assert(t[c].wf());
    }
}

/// No run of steps gives a model to a sector of air alone.
pub proof fn lemma_steps_keep_sound<M>(s: Residents<M>, steps: Seq<Step<M>>)
    requires
        sound(s),
    ensures
        sound(after_steps(s, steps)),
    decreases steps.len(),
{
    if steps.len() > 0 {
        lemma_steps_keep_sound(s, steps.drop_last());
        lemma_step_keeps_sound(after_steps(s, steps.drop_last()), steps.last());
    }
}

} // verus!
