//! The sectors that are resident around the observer.
//!
//! The cache answers the worker's queries, takes in what the worker
//! generated, says when a sector can be meshed, and evicts what has fallen
//! out of reach. It performs no outside work itself: `handle` says what is to
//! be done about a message, and the caller does it.

use std::collections::HashMap;
use vstd::prelude::*;
use vstd::std_specs::hash::*;
use crate::lattice::SectorCoords;
use crate::message::Nearby;
use crate::sector::{AdjacentSectors, Sector};

verus! {

/// What is to be done about a message of the worker.
#[derive(Clone, Copy, Debug, PartialEq, Eq, Structural)]
pub enum Reaction {
    /// The sector is not resident: ask the worker to generate it.
    Need(SectorCoords),
    /// The sector is resident and out of render range: read no more
    /// messages in this cycle.
    Halt,
    /// The sector and its six neighbours are resident and it has no model
    /// yet: build its mesh and attach it.
    Mesh(SectorCoords),
    /// The generated sector is now resident.
    Stored,
    /// Nothing is to be done.
    Idle,
}

/// The resident sectors by their coordinates: the state of a cache.
pub type Residents<M> = Map<SectorCoords, Sector<M>>;

/// Whether `c` names a sector and that sector is resident in `s`.
pub open spec fn resident<M>(s: Residents<M>, c: Option<SectorCoords>) -> bool {
    c matches Some(n) && s.contains_key(n)
}

/// Whether the six sectors that share a face with the sector at `c` are all
/// resident in `s`: the sector at `c` can be meshed only then.
pub open spec fn neighbours_resident<M>(s: Residents<M>, c: SectorCoords) -> bool {
    &&& resident(s, c.spec_back())
    &&& resident(s, c.spec_front())
    &&& resident(s, c.spec_top())
    &&& resident(s, c.spec_bottom())
    &&& resident(s, c.spec_left())
    &&& resident(s, c.spec_right())
}

/// Whether the sector at `c` is to be meshed now: it is resident, has a
/// solid block and no model, and its six neighbours are resident.
pub open spec fn meshable<M>(s: Residents<M>, c: SectorCoords) -> bool {
    &&& s.contains_key(c)
    &&& s[c].wants_model()
    &&& neighbours_resident(s, c)
}

/// What is to be done about `msg` when the resident sectors are `s`.
pub open spec fn reaction<M>(s: Residents<M>, msg: Nearby) -> Reaction {
    match msg {
        Nearby::Query(query) => {
            if !s.contains_key(query.sector) {
                Reaction::Need(query.sector)
            } else if !query.should_render {
                Reaction::Halt
            } else if meshable(s, query.sector) {
                Reaction::Mesh(query.sector)
            } else {
                Reaction::Idle
            }
        },
        Nearby::Generated(coords, blocks) => {
            if s.contains_key(coords) {
                Reaction::Idle
            } else {
                Reaction::Stored
            }
        },
    }
}

/// The resident sectors after `msg` has been handled: a generated sector
/// becomes resident unless a sector is resident at its coordinates already,
/// and nothing else changes.
pub open spec fn after_message<M>(s: Residents<M>, msg: Nearby) -> Residents<M> {
    match msg {
        Nearby::Query(query) => s,
        Nearby::Generated(coords, blocks) => {
            if s.contains_key(coords) {
                s
            } else {
                s.insert(coords, Sector::fresh(blocks))
            }
        },
    }
}

/// The resident sectors after `model` has been offered for the sector at
/// `c`: it is attached where that sector is to be meshed, and nothing
/// changes otherwise.
pub open spec fn after_attach<M>(s: Residents<M>, c: SectorCoords, model: M) -> Residents<M> {
    if meshable(s, c) {
        s.insert(c, s[c].with_model(model))
    } else {
        s
    }
}

/// The resident sectors after an eviction with the observer in sector
/// `observer`: those within reach, unchanged.
pub open spec fn after_evict<M>(s: Residents<M>, observer: SectorCoords) -> Residents<M> {
    s.restrict(Set::new(|c: SectorCoords| c.within_reach(observer)))
}

/// The nanoseconds that one cycle may spend on the messages of the worker.
pub const DRAIN_BUDGET_NANOS: u64 = 50_000_000;

/// Whether a drain that has taken `secs` seconds and `subsec_nanos`
/// nanoseconds has spent more than its budget.
pub open spec fn budget_spent(secs: int, subsec_nanos: int) -> bool {
    secs * 1_000_000_000 + subsec_nanos > DRAIN_BUDGET_NANOS
}

/// Whether the next message is read in this cycle, after a message has led
/// to `outcome` and the drain has taken `secs` seconds and `subsec_nanos`
/// nanoseconds so far.
pub open spec fn drains_on(outcome: Reaction, secs: int, subsec_nanos: int) -> bool {
    outcome != Reaction::Halt && !budget_spent(secs, subsec_nanos)
}

/// Whether a drain that has taken `secs` seconds and `subsec_nanos`
/// nanoseconds has spent more than its budget.
pub fn over_budget(secs: u64, subsec_nanos: u32) -> (spent: bool)
    ensures
        spent == budget_spent(secs as int, subsec_nanos as int),
{
    secs > 0 || subsec_nanos as u64 > DRAIN_BUDGET_NANOS
}

/// Whether the next message is read in this cycle: not after a `Halt`, and
/// not once the budget is spent.
pub fn keep_draining(outcome: Reaction, secs: u64, subsec_nanos: u32) -> (on: bool)
    ensures
        on == drains_on(outcome, secs as int, subsec_nanos as int),
{
    match outcome {
        Reaction::Halt => false,
        _ => !over_budget(secs, subsec_nanos),
    }
}

/// One above the largest key of the hash map.
const KEY_LIMIT: u128 = 0x1_0000_0000_0000_0000_0000_0000;

/// The base of the digits of a key: one digit for each component of the
/// coordinates.
const DIGIT: u128 = 0x1_0000_0000;

/// The square of the base.
const DIGIT_SQ: u128 = 0x1_0000_0000_0000_0000;

/// The key under which the hash map keeps the sector at `c`: the three
/// components, each counted from `i32::MIN`, as the digits of a number in
/// base 2^32.
#[verifier::opaque]
spec fn key_of(c: SectorCoords) -> u128 {
    ((c.x - i32::MIN) * DIGIT_SQ + (c.y - i32::MIN) * DIGIT + (c.z - i32::MIN)) as u128
}

/// The coordinates that are kept under key `k`.
#[verifier::opaque]
spec fn coords_of(k: u128) -> SectorCoords {
    SectorCoords {
        x: (k / DIGIT_SQ + i32::MIN) as i32,
        y: ((k / DIGIT) % DIGIT + i32::MIN) as i32,
        z: (k % DIGIT + i32::MIN) as i32,
    }
}

/// A number of three digits has those digits: the last is its remainder,
/// the middle one the remainder of its quotient, the first its quotient by
/// the square of the base.
proof fn lemma_digits(first: int, middle: int, last: int)
    requires
        0 <= first < DIGIT,
        0 <= middle < DIGIT,
        0 <= last < DIGIT,
    ensures
        ({
            let k = first * DIGIT_SQ + middle * DIGIT + last;
            &&& 0 <= k < KEY_LIMIT
            &&& k % (DIGIT as int) == last
            &&& (k / (DIGIT as int)) % (DIGIT as int) == middle
            &&& k / (DIGIT_SQ as int) == first
        }),
{
    let base = DIGIT as int;
    let k = first * (base * base) + middle * base + last;
    let upper = first * base + middle;
    assert(base * base == 0x1_0000_0000_0000_0000);
    assert(first * (base * base) <= (base - 1) * (base * base)) by (nonlinear_arith)
        requires
            0 <= first <= base - 1,
            0 <= base * base,
    ;
    assert(middle * base <= (base - 1) * base) by (nonlinear_arith)
        requires
            0 <= middle <= base - 1,
            0 <= base,
    ;
    assert(0 <= first * (base * base)) by (nonlinear_arith)
        requires
            0 <= first,
            0 <= base * base,
    ;
    assert(0 <= middle * base) by (nonlinear_arith)
        requires
            0 <= middle,
            0 <= base,
    ;
    assert(0 <= k < KEY_LIMIT);
    assert(k == upper * base + last) by (nonlinear_arith)
        requires
            k == first * (base * base) + middle * base + last,
            upper == first * base + middle,
    ;
    vstd::arithmetic::div_mod::lemma_fundamental_div_mod_converse(k, base, upper, last);
    vstd::arithmetic::div_mod::lemma_fundamental_div_mod_converse(upper, base, first, middle);
    vstd::arithmetic::div_mod::lemma_fundamental_div_mod_converse(
        k,
        base * base,
        first,
        middle * base + last,
    );
}

/// A key is below the limit, and the coordinates kept under it are those it
/// was made of. So no two coordinates share a key.
proof fn lemma_key_of(c: SectorCoords)
    ensures
        key_of(c) < KEY_LIMIT,
        coords_of(key_of(c)) == c,
{
    reveal(key_of);
    reveal(coords_of);
    let first = c.x - i32::MIN;
    let middle = c.y - i32::MIN;
    let last = c.z - i32::MIN;
    lemma_digits(first, middle, last);
    let k = first * DIGIT_SQ + middle * DIGIT + last;
    assert(key_of(c) == k);
    assert(coords_of(key_of(c)).x == c.x);
    assert(coords_of(key_of(c)).y == c.y);
    assert(coords_of(key_of(c)).z == c.z);
}

/// Every number below the limit is the key of the coordinates kept under
/// it.
proof fn lemma_coords_of(k: u128)
    requires
        k < KEY_LIMIT,
    ensures
        key_of(coords_of(k)) == k,
{
    reveal(key_of);
    reveal(coords_of);
    let base = DIGIT as int;
    let upper = (k as int) / base;
    let first = upper / base;
    let middle = upper % base;
    let last = (k as int) % base;
    vstd::arithmetic::div_mod::lemma_fundamental_div_mod(k as int, base);
    vstd::arithmetic::div_mod::lemma_fundamental_div_mod(upper, base);
    assert(k == base * upper + last);
    assert(upper == base * first + middle);
    assert(0 <= last < base && 0 <= middle < base);
    assert(0 <= upper && 0 <= first);
    assert(first < base) by {
        if first >= base {
            assert(base * first >= base * base) by (nonlinear_arith)
                requires
                    first >= base,
                    base > 0,
            ;
            assert(base * upper >= base * (base * base)) by (nonlinear_arith)
                requires
                    upper >= base * base,
                    base > 0,
            ;
            assert(base * (base * base) == KEY_LIMIT) by (nonlinear_arith)
                requires
                    base == 0x1_0000_0000,
            ;
        }
    }
    assert(k == first * (base * base) + middle * base + last) by (nonlinear_arith)
        requires
            k == base * upper + last,
            upper == base * first + middle,
    ;
    lemma_digits(first, middle, last);
    assert(coords_of(k).x == first + i32::MIN);
    assert(coords_of(k).y == middle + i32::MIN);
    assert(coords_of(k).z == last + i32::MIN);
}

fn key(c: SectorCoords) -> (k: u128)
    ensures
        k == key_of(c),
{
    proof {
        reveal(key_of);
        lemma_digits(c.x - i32::MIN, c.y - i32::MIN, c.z - i32::MIN);
    }
    let ux: u128 = (c.x as i64 + 2147483648) as u128;
    let uy: u128 = (c.y as i64 + 2147483648) as u128;
    let uz: u128 = (c.z as i64 + 2147483648) as u128;
    ux * DIGIT_SQ + uy * DIGIT + uz
}

fn coords(k: u128) -> (c: SectorCoords)
    requires
        k < KEY_LIMIT,
    ensures
        c == coords_of(k),
{
    proof {
        reveal(coords_of);
        lemma_coords_of(k);
        reveal(key_of);
        let held = coords_of(k);
        lemma_digits(held.x - i32::MIN, held.y - i32::MIN, held.z - i32::MIN);
    }
    let ux: u128 = k / DIGIT_SQ;
    let uy: u128 = (k / DIGIT) % DIGIT;
    let uz: u128 = k % DIGIT;
    SectorCoords {
        x: (ux as i64 - 2147483648) as i32,
        y: (uy as i64 - 2147483648) as i32,
        z: (uz as i64 - 2147483648) as i32,
    }
}

/// The sector collection of the consumer, keyed by sector coordinates.
pub struct SectorCache<M> {
    sectors: HashMap<u128, Sector<M>>,
}

impl<M> View for SectorCache<M> {
    type V = Map<SectorCoords, Sector<M>>;

    /// The resident sectors by their coordinates.
    closed spec fn view(&self) -> Map<SectorCoords, Sector<M>> {
        Map::new(
            |c: SectorCoords| self.sectors@.contains_key(key_of(c)),
            |c: SectorCoords| self.sectors@[key_of(c)],
        )
    }
}

impl<M> SectorCache<M> {
    #[verifier::type_invariant]
    closed spec fn inv(&self) -> bool {
        forall|k: u128| self.sectors@.contains_key(k) ==> k < KEY_LIMIT
    }

    /// The map behind the cache.
    closed spec fn held(&self) -> Map<u128, Sector<M>> {
        self.sectors@
    }

    /// Hand out the map behind the cache and leave an empty one in its
    /// place. A function that changes the map takes it out, changes it and
    /// puts it back, so that the cache is whole at every call it makes.
    fn take_sectors(&mut self) -> (sectors: HashMap<u128, Sector<M>>)
        ensures
            sectors@ == old(self).held(),
            final(self).held() == Map::<u128, Sector<M>>::empty(),
    {
        let mut sectors = HashMap::new();
        core::mem::swap(&mut self.sectors, &mut sectors);
        sectors
    }

    /// A cache without sectors.
    pub fn new() -> (cache: SectorCache<M>)
        ensures
            cache@ == Map::<SectorCoords, Sector<M>>::empty(),
    {
        let cache = SectorCache { sectors: HashMap::with_capacity(5 * 5 * 5) };
        assert(cache@ =~= Map::<SectorCoords, Sector<M>>::empty());
        cache
    }

    /// The number of resident sectors.
    pub fn len(&self) -> (count: usize)
        ensures
            self@.dom().finite(),
            count == self@.len(),
    {
        broadcast use group_hash_axioms;

        proof {
            use_type_invariant(self);
            let keys = self.sectors@.dom();
            let place = |k: u128| coords_of(k);
            assert forall|a: u128, b: u128|
                keys.contains(a) && keys.contains(b) && #[trigger] place(a) == #[trigger] place(
                    b,
                ) implies a == b by {
                lemma_coords_of(a);
                lemma_coords_of(b);
            }
            assert forall|c: SectorCoords| keys.map(place).contains(c) <==> self@.dom().contains(
                c,
            ) by {
                lemma_key_of(c);
                if self@.dom().contains(c) {
                    assert(keys.contains(key_of(c)) && place(key_of(c)) == c);
                }
                if keys.map(place).contains(c) {
                    let k = choose|k: u128| keys.contains(k) && place(k) == c;
                    lemma_coords_of(k);
                }
            }
            assert(keys.map(place) =~= self@.dom());
            vstd::set_lib::lemma_map_size(keys, self@.dom(), place);
        }
        self.sectors.len()
    }

    /// Whether the sector at `coords` is resident.
    pub fn contains(&self, coords: SectorCoords) -> (resident: bool)
        ensures
            resident == self@.contains_key(coords),
    {
        broadcast use group_hash_axioms;

        self.sectors.contains_key(&key(coords))
    }

    /// The sector at `coords`, if it is resident.
    pub fn get(&self, coords: SectorCoords) -> (sector: Option<&Sector<M>>)
        ensures
            sector is Some <==> self@.contains_key(coords),
            sector matches Some(s) ==> *s == self@[coords],
    {
        broadcast use group_hash_axioms;

        self.sectors.get(&key(coords))
    }

    fn is_resident(&self, coords: Option<SectorCoords>) -> (found: bool)
        ensures
            found == resident(self@, coords),
    {
        match coords {
            Some(c) => self.contains(c),
            None => false,
        }
    }

    /// Whether the six neighbours of the sector at `coords` are resident.
    pub fn has_neighbours(&self, coords: SectorCoords) -> (complete: bool)
        ensures
            complete == neighbours_resident(self@, coords),
    {
        self.is_resident(coords.back()) && self.is_resident(coords.front()) && self.is_resident(
            coords.top(),
        ) && self.is_resident(coords.bottom()) && self.is_resident(coords.left())
            && self.is_resident(coords.right())
    }

    /// Whether the sector at `coords` is to be meshed now.
    pub fn can_mesh(&self, coords: SectorCoords) -> (ready: bool)
        ensures
            ready == meshable(self@, coords),
    {
        match self.get(coords) {
            Some(sector) => sector.needs_model() && self.has_neighbours(coords),
            None => false,
        }
    }

    /// What is to be done about a message of the worker, after the cache
    /// has taken in what the message brought.
    pub fn handle(&mut self, msg: Nearby) -> (outcome: Reaction)
        ensures
            outcome == reaction(old(self)@, msg),
            final(self)@ == after_message(old(self)@, msg),
    {
        broadcast use group_hash_axioms;

        proof {
            use_type_invariant(&*self);
        }
        match msg {
            Nearby::Query(query) => {
                if !self.contains(query.sector) {
                    Reaction::Need(query.sector)
                } else if !query.should_render {
                    Reaction::Halt
                } else if self.can_mesh(query.sector) {
                    Reaction::Mesh(query.sector)
                } else {
                    Reaction::Idle
                }
            },
            Nearby::Generated(coords, blocks) => {
                let k = key(coords);
                if self.sectors.contains_key(&k) {
                    Reaction::Idle
                } else {
                    let ghost before = self@;
                    proof {
                        lemma_key_of(coords);
                    }
                    let mut sectors = self.take_sectors();
                    sectors.insert(k, Sector::new(blocks));
                    self.sectors = sectors;
                    proof {
                        assert forall|c: SectorCoords| key_of(c) == k implies c == coords by {
                            lemma_key_of(c);
                        }
                        assert(self@ =~= before.insert(coords, Sector::fresh(blocks)));
                    }
                    Reaction::Stored
                }
            },
        }
    }

    fn neighbour(&self, coords: Option<SectorCoords>) -> (sector: Option<&Sector<M>>)
        ensures
            sector is Some <==> resident(self@, coords),
            sector matches Some(s) ==> *s == self@[coords->0],
    {
        match coords {
            Some(c) => self.get(c),
            None => None,
        }
    }

    /// The six neighbours of the sector at `coords`, if all of them are
    /// resident.
    pub fn adjacent(&self, coords: SectorCoords) -> (around: Option<AdjacentSectors<'_, M>>)
        ensures
            around is Some <==> neighbours_resident(self@, coords),
            around matches Some(a) ==> {
                &&& a.spec_back() == self@[coords.spec_back()->0]
                &&& a.spec_front() == self@[coords.spec_front()->0]
                &&& a.spec_top() == self@[coords.spec_top()->0]
                &&& a.spec_bottom() == self@[coords.spec_bottom()->0]
                &&& a.spec_left() == self@[coords.spec_left()->0]
                &&& a.spec_right() == self@[coords.spec_right()->0]
            },
    {
        let back = match self.neighbour(coords.back()) {
            Some(sector) => sector,
            None => return None,
        };
        let front = match self.neighbour(coords.front()) {
            Some(sector) => sector,
            None => return None,
        };
        let top = match self.neighbour(coords.top()) {
            Some(sector) => sector,
            None => return None,
        };
        let bottom = match self.neighbour(coords.bottom()) {
            Some(sector) => sector,
            None => return None,
        };
        let left = match self.neighbour(coords.left()) {
            Some(sector) => sector,
            None => return None,
        };
        let right = match self.neighbour(coords.right()) {
            Some(sector) => sector,
            None => return None,
        };
        Some(AdjacentSectors::new(back, front, top, bottom, left, right))
    }

    /// Attach `model` to the sector at `coords` if that sector is to be
    /// meshed now. Otherwise nothing changes and `model` is handed back.
    pub fn attach_model(&mut self, coords: SectorCoords, model: M) -> (refused: Result<(), M>)
        ensures
            final(self)@ == after_attach(old(self)@, coords, model),
            meshable(old(self)@, coords) ==> refused is Ok,
            !meshable(old(self)@, coords) ==> refused == Err::<(), M>(model),
    {
        broadcast use group_hash_axioms;

        proof {
            use_type_invariant(&*self);
        }
        if !self.has_neighbours(coords) {
            return Err(model);
        }
        let ghost before = self@;
        let k = key(coords);
        let mut sectors = self.take_sectors();
        let refused = match sectors.remove(&k) {
            Some(sector) => {
                let mut sector = sector;
                let refused = sector.set_model(model);
                sectors.insert(k, sector);
                refused
            },
            None => Err(model),
        };
        self.sectors = sectors;
        proof {
            lemma_key_of(coords);
            assert forall|c: SectorCoords| key_of(c) == k implies c == coords by {
                lemma_key_of(c);
            }
            if meshable(before, coords) {
                assert(self@ =~= before.insert(coords, before[coords].with_model(model)));
            } else {
                assert(self@ =~= before);
            }
        }
        refused
    }

    /// The coordinates of the resident sectors, each once, in no particular
    /// order.
    pub fn residents(&self) -> (all: Vec<SectorCoords>)
        ensures
            all@.no_duplicates(),
            forall|c: SectorCoords| all@.contains(c) <==> self@.contains_key(c),
    {
        proof {
            use_type_invariant(self);
        }
        let keys = held_keys(&self.sectors);
        let mut all: Vec<SectorCoords> = Vec::with_capacity(keys.len());
        assert forall|j: int| 0 <= j < keys@.len() implies (#[trigger] keys@[j]) < KEY_LIMIT by {
            assert(keys@.contains(keys@[j]));
        }
        let mut i: usize = 0;
        while i < keys.len()
            invariant
                i <= keys@.len(),
                all@.len() == i,
                forall|j: int| 0 <= j < keys@.len() ==> (#[trigger] keys@[j]) < KEY_LIMIT,
                forall|j: int| 0 <= j < i ==> #[trigger] all@[j] == coords_of(keys@[j]),
            decreases keys@.len() - i,
        {
            all.push(coords(keys[i]));
            i += 1;
        }
        proof {
            assert forall|a: int, b: int| 0 <= a < b < all@.len() implies all@[a] != all@[b] by {
                lemma_coords_of(keys@[a]);
                lemma_coords_of(keys@[b]);
            }
            assert forall|c: SectorCoords| all@.contains(c) <==> self@.contains_key(c) by {
                lemma_key_of(c);
                if all@.contains(c) {
                    let j = choose|j: int| 0 <= j < all@.len() && all@[j] == c;
                    lemma_coords_of(keys@[j]);
                    assert(keys@.contains(keys@[j]));
                }
                if self@.contains_key(c) {
                    assert(keys@.contains(key_of(c)));
                    let j = choose|j: int| 0 <= j < keys@.len() && keys@[j] == key_of(c);
                    assert(all@[j] == c);
                }
            }
        }
        all
    }

    /// Remove every sector that is out of reach of an observer in sector
    /// `observer`, and keep the others as they are.
    pub fn evict(&mut self, observer: SectorCoords)
        ensures
            final(self)@ == after_evict(old(self)@, observer),
    {
        broadcast use group_hash_axioms;

        proof {
            use_type_invariant(&*self);
        }
        let ghost before = self@;
        let mut sectors = self.take_sectors();
        let ghost held = sectors@;
        let keys = held_keys(&sectors);
        let mut i: usize = 0;
        while i < keys.len()
            invariant
                i <= keys@.len(),
                forall|k: u128| held.contains_key(k) ==> k < KEY_LIMIT,
                forall|k: u128| keys@.contains(k) <==> held.contains_key(k),
                forall|k: u128|
                    #[trigger] sectors@.contains_key(k) <==> held.contains_key(k) && !(exists|
                        j: int,
                    |
                        0 <= j < i && keys@[j] == k && !coords_of(k).within_reach(observer)),
                forall|k: u128| sectors@.contains_key(k) ==> sectors@[k] == held[k],
            decreases keys@.len() - i,
        {
            let k = keys[i];
            assert(keys@.contains(k));
            if !coords(k).is_within_reach(observer) {
                sectors.remove(&k);
            }
            i += 1;
        }
        assert forall|k: u128| sectors@.contains_key(k) implies k < KEY_LIMIT by {
            assert(held.contains_key(k));
        }
        self.sectors = sectors;
        proof {
            assert forall|c: SectorCoords|
                #![trigger self@.contains_key(c)]
                #![trigger after_evict(before, observer).contains_key(c)]
                self@.contains_key(c) <==> after_evict(before, observer).contains_key(c) by {
                lemma_key_of(c);
                let k = key_of(c);
                assert(sectors@.contains_key(k) <==> held.contains_key(k) && !(exists|j: int|
                    0 <= j < i && keys@[j] == k && !coords_of(k).within_reach(observer)));
                if held.contains_key(k) && !c.within_reach(observer) {
                    assert(keys@.contains(k));
                    let j = choose|j: int| 0 <= j < keys@.len() && keys@[j] == k;
                    assert(keys@[j] == k);
                }
            }
            assert(self@ =~= after_evict(before, observer));
        }
    }
}

/// The keys of a hash map, each once, in the order in which the map hands
/// them out.
fn held_keys<M>(sectors: &HashMap<u128, Sector<M>>) -> (keys: Vec<u128>)
    ensures
        keys@.no_duplicates(),
        forall|k: u128| keys@.contains(k) <==> sectors@.contains_key(k),
{
    broadcast use group_hash_axioms;

    let mut keys: Vec<u128> = Vec::with_capacity(sectors.len());
    for k in it: sectors.keys()
        invariant
            it.seq().no_duplicates(),
            it.seq().unref().to_set() == sectors@.dom(),
            keys@.len() == it.index(),
            keys@.no_duplicates(),
            forall|j: int| 0 <= j < keys@.len() ==> sectors@.contains_key(#[trigger] keys@[j]),
            forall|j: int| 0 <= j < it.index() ==> #[trigger] keys@[j] == *it.seq()[j],
            forall|key: u128|
                sectors@.contains_key(key) ==> (#[trigger] keys@.contains(key)) || exists|j: int|
                    it.index() <= j < it.seq().len() && *it.seq()[j] == key,
    {
        let ghost found = keys@;
        assert(it.seq().unref()[it.index()] == *k);
        assert(it.seq().unref().to_set().contains(*k));
        keys.push(*k);
        proof {
            assert forall|a: int, b: int| 0 <= a < b < keys@.len() implies keys@[a] != keys@[b] by {
                if b == found.len() {
                    assert(keys@[a] == *it.seq()[a]);
                    assert(it.seq()[a] != it.seq()[it.index()]);
                }
            }
            assert forall|key: u128| sectors@.contains_key(key) implies (
            #[trigger] keys@.contains(key)) || exists|j: int|
                it.index() + 1 <= j < it.seq().len() && *it.seq()[j] == key by {
                if found.contains(key) {
                    let at = choose|at: int| 0 <= at < found.len() && found[at] == key;
                    assert(keys@[at] == key);
                } else {
                    let j = choose|j: int|
                        it.index() <= j < it.seq().len() && *it.seq()[j] == key;
                    if j == it.index() {
                        assert(keys@[found.len() as int] == key);
                    }
                }
            }
        }
    }
    keys
}

} // verus!
