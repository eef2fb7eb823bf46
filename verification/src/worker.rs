//! The cycle of the generation worker.
//!
//! The worker runs beside the consumer and shares no sectors with it. In
//! each cycle it reads where the observer stands, sends the queries of a
//! scan, answers the consumer's requests with generated sectors, and rests.
//! Reading, sending, generating and sleeping are done by whoever drives the
//! worker; the worker says which of them comes next.

use vstd::prelude::*;
use crate::grid::BlockList;
use crate::lattice::{spec_sector_at, SectorCoords};
use crate::message::{Nearby, Query};
use crate::scan::{
    in_scan,
    lemma_scan_asks_about_each_sector_once,
    lemma_scan_starts_at_its_centre,
    query_at,
    scan_center,
    scan_index,
    scan_query,
    scannable,
    should_render,
    spec_scan_center,
    SCAN_LEN,
};

verus! {

/// The seconds that the worker rests between two scans.
pub const SCAN_INTERVAL_SECS: u64 = 3;

/// Where the worker stands in its cycle.
#[derive(Clone, Copy, Debug, PartialEq, Eq, Structural)]
pub enum Phase {
    /// The worker rests between two cycles. A new worker rests, too.
    Resting,
    /// The worker reads where the observer stands.
    Observing,
    /// The worker sends the queries of the scan around `center`; the first
    /// `sent` of them have been sent, and the next one is under way.
    Scanning { center: SectorCoords, sent: usize },
    /// The worker takes the requests of the consumer off their channel.
    Serving,
    /// The worker has the sector at the given coordinates generated.
    Generating(SectorCoords),
    /// The worker sends a sector that it has generated.
    Delivering,
    /// The consumer is gone and the worker has ended. It stays so.
    Stopped,
}

/// What has come of the action that the worker asked for.
pub enum Event {
    /// The rest is over.
    Woke,
    /// The observer stands at the voxel `(x, y, z)`.
    Observed { x: i64, y: i64, z: i64 },
    /// The message has been sent.
    Sent,
    /// The message could not be sent: the channel to the consumer is
    /// closed.
    Closed,
    /// The consumer needs the sector at the given coordinates.
    Needed(SectorCoords),
    /// No request of the consumer is waiting.
    NoneNeeded,
    /// The sector that was asked for has been generated.
    Generated(BlockList),
}

/// What the worker asks to have done next.
pub enum Action {
    /// Read where the observer stands, then report `Observed`.
    Observe,
    /// Send the message to the consumer, then report `Sent` or `Closed`.
    Send(Nearby),
    /// Look for a request of the consumer without waiting, then report
    /// `Needed` or `NoneNeeded`.
    Receive,
    /// Generate the sector at the given coordinates, then report
    /// `Generated`.
    Generate(SectorCoords),
    /// Sleep for the given number of seconds, then report `Woke`.
    Sleep(u64),
    /// End the worker.
    Stop,
}

impl Phase {
    /// A scan that is under way fits into the lattice and has a query left
    /// to send.
    pub open spec fn wf(self) -> bool {
        self matches Phase::Scanning { center, sent } ==> scannable(center) && sent < SCAN_LEN
    }
}

/// The phase that follows `phase` on `event`.
///
/// A cycle runs from `Resting` through `Observing`, `Scanning` and
/// `Serving` back to `Resting`. A closed channel ends the worker, and so
/// does an event that the phase does not wait for.
pub open spec fn next_phase(phase: Phase, event: Event) -> Phase {
    match (phase, event) {
        (Phase::Resting, Event::Woke) => Phase::Observing,
        (Phase::Observing, Event::Observed { x, y, z }) => Phase::Scanning {
            center: spec_scan_center(x as int, y as int, z as int),
            sent: 0,
        },
        (Phase::Scanning { center, sent }, Event::Sent) => if sent + 1 < SCAN_LEN {
            Phase::Scanning { center, sent: (sent + 1) as usize }
        } else {
            Phase::Serving
        },
        (Phase::Serving, Event::Needed(coords)) => Phase::Generating(coords),
        (Phase::Serving, Event::NoneNeeded) => Phase::Resting,
        (Phase::Generating(coords), Event::Generated(blocks)) => Phase::Delivering,
        (Phase::Delivering, Event::Sent) => Phase::Serving,
        _ => Phase::Stopped,
    }
}

/// What the worker asks for when `event` has come in `phase`.
pub open spec fn next_action(phase: Phase, event: Event) -> Action {
    match (phase, event) {
        (Phase::Resting, Event::Woke) => Action::Observe,
        (Phase::Observing, Event::Observed { x, y, z }) => Action::Send(
            Nearby::Query(scan_query(spec_scan_center(x as int, y as int, z as int), 0)),
        ),
        (Phase::Scanning { center, sent }, Event::Sent) => if sent + 1 < SCAN_LEN {
            Action::Send(Nearby::Query(scan_query(center, sent + 1)))
        } else {
            Action::Receive
        },
        (Phase::Serving, Event::Needed(coords)) => Action::Generate(coords),
        (Phase::Serving, Event::NoneNeeded) => Action::Sleep(SCAN_INTERVAL_SECS),
        (Phase::Generating(coords), Event::Generated(blocks)) => Action::Send(
            Nearby::Generated(coords, blocks),
        ),
        (Phase::Delivering, Event::Sent) => Action::Receive,
        _ => Action::Stop,
    }
}

/// Whether `event` can come of the action that led to `phase`.
pub open spec fn awaits(phase: Phase, event: Event) -> bool {
    match phase {
        Phase::Resting => event is Woke,
        Phase::Observing => event is Observed,
        Phase::Scanning { .. } => event is Sent || event is Closed,
        Phase::Serving => event is Needed || event is NoneNeeded,
        Phase::Generating(_) => event is Generated,
        Phase::Delivering => event is Sent || event is Closed,
        Phase::Stopped => false,
    }
}

/// The generation worker's side of the protocol: it says what to do next,
/// and whoever drives it does that and reports what came of it.
pub struct Worker {
    phase: Phase,
}

impl Worker {
    /// Where the worker stands in its cycle.
    pub closed spec fn spec_phase(&self) -> Phase {
        self.phase
    }

    #[verifier::type_invariant]
    closed spec fn inv(&self) -> bool {
        self.phase.wf()
    }

    /// A worker at rest. Its first cycle begins when it is told `Woke`.
    pub fn new() -> (worker: Worker)
        ensures
            worker.spec_phase() == Phase::Resting,
    {
        Worker { phase: Phase::Resting }
    }

    /// Where the worker stands in its cycle.
    pub fn phase(&self) -> (phase: Phase)
        ensures
            phase == self.spec_phase(),
            phase.wf(),
    {
        proof {
            use_type_invariant(self);
        }
        self.phase
    }

    /// Take in what has come of the last action, and say what to do next.
    pub fn step(&mut self, event: Event) -> (action: Action)
        ensures
            final(self).spec_phase() == next_phase(old(self).spec_phase(), event),
            action == next_action(old(self).spec_phase(), event),
    {
        proof {
            use_type_invariant(&*self);
        }
        match (self.phase, event) {
            (Phase::Resting, Event::Woke) => {
                self.phase = Phase::Observing;
                Action::Observe
            },
            (Phase::Observing, Event::Observed { x, y, z }) => {
                let center = scan_center(x, y, z);
                self.phase = Phase::Scanning { center, sent: 0 };
                Action::Send(Nearby::Query(query_at(center, 0)))
            },
            (Phase::Scanning { center, sent }, Event::Sent) => {
                if sent + 1 < SCAN_LEN {
                    self.phase = Phase::Scanning { center, sent: sent + 1 };
                    Action::Send(Nearby::Query(query_at(center, sent + 1)))
                } else {
                    self.phase = Phase::Serving;
                    Action::Receive
                }
            },
            (Phase::Serving, Event::Needed(coords)) => {
                self.phase = Phase::Generating(coords);
                Action::Generate(coords)
            },
            (Phase::Serving, Event::NoneNeeded) => {
                self.phase = Phase::Resting;
                Action::Sleep(SCAN_INTERVAL_SECS)
            },
            (Phase::Generating(coords), Event::Generated(blocks)) => {
                self.phase = Phase::Delivering;
                Action::Send(Nearby::Generated(coords, blocks))
            },
            (Phase::Delivering, Event::Sent) => {
                self.phase = Phase::Serving;
                Action::Receive
            },
            _ => {
                self.phase = Phase::Stopped;
                Action::Stop
            },
        }
    }
}

/// The phase of a worker that was sending the first query of the scan
/// around `center` and has since been told `Sent` `n` times.
pub open spec fn after_sent(center: SectorCoords, n: nat) -> Phase
    decreases n,
{
    if n == 0 {
        Phase::Scanning { center, sent: 0 }
    } else {
        next_phase(after_sent(center, (n - 1) as nat), Event::Sent)
    }
}

/// The scan around a centre that fits stays well formed, and so does every
/// phase that follows a well-formed one.
pub proof fn lemma_phase_stays_wf(phase: Phase, event: Event)
    requires
        phase.wf(),
    ensures
        next_phase(phase, event).wf(),
{
}

/// While the channel stays open a cycle sends the queries of the scan one
/// after the other, each in its place, and turns to the consumer's requests
/// after the last.
pub proof fn lemma_scan_runs_in_order(center: SectorCoords, n: nat)
    requires
        n <= SCAN_LEN,
    ensures
        n < SCAN_LEN ==> after_sent(center, n) == (Phase::Scanning { center, sent: n as usize }),
        n == SCAN_LEN ==> after_sent(center, n) == Phase::Serving,
        0 < n < SCAN_LEN ==> next_action(after_sent(center, (n - 1) as nat), Event::Sent)
            == Action::Send(Nearby::Query(scan_query(center, n as int))),
        n == SCAN_LEN ==> next_action(after_sent(center, (n - 1) as nat), Event::Sent)
            == Action::Receive,
    decreases n,
{
    if n > 0 {
        lemma_scan_runs_in_order(center, (n - 1) as nat);
    }
}

/// What a worker asks for in the cycle that begins with the observer at the
/// voxel `(x, y, z)`, once `n` of its messages have been sent and the
/// channel has stayed open.
pub open spec fn asked_after(x: i64, y: i64, z: i64, n: nat) -> Action {
    if n == 0 {
        next_action(Phase::Observing, Event::Observed { x, y, z })
    } else {
        next_action(
            after_sent(spec_scan_center(x as int, y as int, z as int), (n - 1) as nat),
            Event::Sent,
        )
    }
}

/// A cycle starts at the observer: its first message asks about the sector
/// around which the worker scans, and marks it as one to render. That
/// sector is the one that holds the observer, wherever a scan around it
/// fits into the lattice.
pub proof fn lemma_cycle_starts_at_the_observer(x: i64, y: i64, z: i64)
    ensures
        asked_after(x, y, z, 0) == Action::Send(
            Nearby::Query(
                Query {
                    sector: spec_scan_center(x as int, y as int, z as int),
                    should_render: true,
                },
            ),
        ),
        scannable(spec_sector_at(x as int, y as int, z as int)) ==> spec_scan_center(
            x as int,
            y as int,
            z as int,
        ) == spec_sector_at(x as int, y as int, z as int),
{
    lemma_scan_starts_at_its_centre(spec_scan_center(x as int, y as int, z as int));
}

/// While the channel stays open a cycle sends the queries of the scan, in
/// their order, and nothing else before it turns to the consumer's
/// requests.
pub proof fn lemma_cycle_sends_the_scan(x: i64, y: i64, z: i64, n: nat)
    requires
        n <= SCAN_LEN,
    ensures
        n < SCAN_LEN ==> asked_after(x, y, z, n) == Action::Send(
            Nearby::Query(scan_query(spec_scan_center(x as int, y as int, z as int), n as int)),
        ),
        n == SCAN_LEN ==> asked_after(x, y, z, n) == Action::Receive,
{
    if n > 0 {
        lemma_scan_runs_in_order(spec_scan_center(x as int, y as int, z as int), n);
    }
}

/// Where the scan around the observer's sector fits into the lattice, a
/// cycle asks about each sector of the box around that sector exactly once:
/// the sector at the offset `(dx, dy, dz)` is the subject of message
/// `scan_index(dx, dy, dz)`, with the flag of that offset, and of no other
/// message.
pub proof fn lemma_cycle_asks_about_each_sector_once(
    x: i64,
    y: i64,
    z: i64,
    dx: int,
    dy: int,
    dz: int,
    n: nat,
)
    requires
        scannable(spec_sector_at(x as int, y as int, z as int)),
        in_scan(dx, dy, dz),
        n < SCAN_LEN,
    ensures
        ({
            let held = spec_sector_at(x as int, y as int, z as int);
            let place = scan_index(dx, dy, dz);
            let wanted = SectorCoords {
                x: (held.x + dx) as i32,
                y: (held.y + dy) as i32,
                z: (held.z + dz) as i32,
            };
            &&& 0 <= place < SCAN_LEN
            &&& wanted.x == held.x + dx && wanted.y == held.y + dy && wanted.z == held.z + dz
            &&& asked_after(x, y, z, place as nat) == Action::Send(
                Nearby::Query(
                    Query { sector: wanted, should_render: should_render(dx, dy, dz) },
                ),
            )
            &&& asked_after(x, y, z, n) matches Action::Send(Nearby::Query(query))
            &&& query.sector == wanted <==> n == place
        }),
{
    let held = spec_sector_at(x as int, y as int, z as int);
    assert(spec_scan_center(x as int, y as int, z as int) == held);
    lemma_scan_asks_about_each_sector_once(held, dx, dy, dz, n as int);
    lemma_cycle_sends_the_scan(x, y, z, n);
    lemma_cycle_sends_the_scan(x, y, z, scan_index(dx, dy, dz) as nat);
}

/// A closed channel ends the worker, whatever it was doing.
pub proof fn lemma_closed_channel_stops(phase: Phase)
    ensures
        next_phase(phase, Event::Closed) == Phase::Stopped,
        next_action(phase, Event::Closed) == Action::Stop,
{
}

/// A worker that has ended stays so and asks for nothing more.
pub proof fn lemma_stopped_for_good(event: Event)
    ensures
        next_phase(Phase::Stopped, event) == Phase::Stopped,
        next_action(Phase::Stopped, event) == Action::Stop,
{
}

/// The worker ends on nothing but a closed channel, as long as it is told
/// what it waits for.
pub proof fn lemma_stops_on_closure_alone(phase: Phase, event: Event)
    requires
        phase != Phase::Stopped,
        awaits(phase, event),
    ensures
        next_phase(phase, event) == Phase::Stopped <==> event is Closed,
{
}

/// Every request is answered with the sector that was asked for: what is
/// generated for it is sent under its coordinates.
pub proof fn lemma_need_is_answered(coords: SectorCoords, blocks: BlockList)
    ensures
        next_action(Phase::Serving, Event::Needed(coords)) == Action::Generate(coords),
        next_action(next_phase(Phase::Serving, Event::Needed(coords)), Event::Generated(blocks))
            == Action::Send(Nearby::Generated(coords, blocks)),
{
}

} // verus!
