//! The poll cycle as a state machine: the caller performs each action it
//! returns (wait for the next tick, fetch, send one alert) and hands back
//! what happened as the next event.
use vstd::prelude::*;

use crate::decode::{
    decode_response, decoded_location, decoded_portal, response_fault, RawLocation, RawPortal,
    RawResponse,
};
use crate::model::{Location, Portal, Snapshot};
use crate::notify::{
    available_indices, available_positions, available_positions_exact, compose_body, find_portal, message_body,
    resolved_portal,
};

verus! {

/// Why the process stops; each kind ends it.
#[derive(Clone, Copy, Debug, PartialEq, Eq, Structural)]
pub enum Fault {
    /// A credential was missing at start-up.
    Config,
    /// The dashboard could not be reached, or answered with a failure status.
    Fetch,
    /// The payload did not decode.
    Decode,
    /// The mail transport did not take an alert.
    Send,
}

/// Where the cycle stands.
#[derive(Clone, Copy, Debug, PartialEq, Eq, Structural)]
pub enum Phase {
    /// Waiting for the next tick.
    Waiting,
    /// One fetch is in flight.
    Fetching,
    /// Alerts of the current snapshot are being sent, one at a time.
    Sending,
    /// A fault ended the cycle for good.
    Stopped(Fault),
}

/// What happened since the last action.
#[derive(Debug)]
pub enum Event {
    /// The interval elapsed.
    Tick,
    /// The fetch failed in transport or with a failure status.
    FetchFailed,
    /// The body was no well-formed payload (bad syntax, a missing field or
    /// a field of the wrong type).
    Malformed,
    /// The fetch brought a payload, split into its fields.
    Fetched(RawResponse),
    /// The last alert was sent.
    Sent,
    /// The mail transport refused the last alert.
    SendFailed,
}

/// What the caller is to do next.
#[derive(Debug)]
pub enum Action {
    /// Wait for the next tick.
    Wait,
    /// Fetch the dashboard once.
    Fetch,
    /// Send one alert with this body.
    Send(String),
    /// Stop the process with this fault.
    Stop(Fault),
}

/// An action as the contracts see it.
pub enum ActionView {
    Wait,
    Fetch,
    Send(Seq<char>),
    Stop(Fault),
}

impl View for Action {
    type V = ActionView;

    open spec fn view(&self) -> ActionView {
        match self {
            Action::Wait => ActionView::Wait,
            Action::Fetch => ActionView::Fetch,
            Action::Send(b) => ActionView::Send(b@),
            Action::Stop(f) => ActionView::Stop(*f),
        }
    }
}

/// The state of the cycle: its phase, the alerts of the current snapshot
/// and how many of them were sent.
pub struct Scheduler {
    phase: Phase,
    outbox: Vec<String>,
    sent: usize,
}

/// The scheduler as the contracts see it.
pub struct SchedulerView {
    pub phase: Phase,
    pub outbox: Seq<Seq<char>>,
    pub sent: nat,
}

impl View for Scheduler {
    type V = SchedulerView;

    closed spec fn view(&self) -> SchedulerView {
        SchedulerView {
            phase: self.phase,
            outbox: self.outbox@.map_values(|s: String| s@),
            sent: self.sent as nat,
        }
    }
}

/// The alert bodies for a snapshot's locations and portals: one for each
/// available location, in list order, with the portal it refers to.
pub open spec fn planned_bodies(locations: Seq<Location>, portals: Seq<Portal>) -> Seq<Seq<char>> {
    available_positions(locations).map_values(
        |i: usize| message_body(locations[i as int], resolved_portal(portals, locations[i as int].portal@)),
    )
}

/// The alert bodies for a well-formed payload.
pub open spec fn payload_bodies(raw: RawResponse) -> Seq<Seq<char>> {
    planned_bodies(
        raw.locations@.map_values(|l: RawLocation| decoded_location(l)),
        raw.portals@.map_values(|p: RawPortal| decoded_portal(p)),
    )
}

/// The state and action after the planned alerts of a snapshot are known.
pub open spec fn begin_sending(bodies: Seq<Seq<char>>) -> (SchedulerView, ActionView) {
    if bodies.len() == 0 {
        (SchedulerView { phase: Phase::Waiting, outbox: Seq::empty(), sent: 0 }, ActionView::Wait)
    } else {
        (SchedulerView { phase: Phase::Sending, outbox: bodies, sent: 0 }, ActionView::Send(bodies[0]))
    }
}

/// One transition. An event that the phase does not await changes nothing
/// and repeats the pending action (wait, fetch, or send the current alert);
/// a stopped cycle stays stopped.
pub open spec fn step_result(s: SchedulerView, e: Event) -> (SchedulerView, ActionView) {
    let stop = |f: Fault| (SchedulerView { phase: Phase::Stopped(f), outbox: Seq::empty(), sent: 0 }, ActionView::Stop(f));
    match s.phase {
        Phase::Stopped(f) => (s, ActionView::Stop(f)),
        Phase::Waiting => match e {
            Event::Tick => (SchedulerView { phase: Phase::Fetching, outbox: Seq::empty(), sent: 0 }, ActionView::Fetch),
            _ => (s, ActionView::Wait),
        },
        Phase::Fetching => match e {
            Event::FetchFailed => stop(Fault::Fetch),
            Event::Malformed => stop(Fault::Decode),
            Event::Fetched(raw) => if response_fault(raw) is Some {
                stop(Fault::Decode)
            } else {
                begin_sending(payload_bodies(raw))
            },
            _ => (s, ActionView::Fetch),
        },
        Phase::Sending => match e {
            Event::SendFailed => stop(Fault::Send),
            Event::Sent => if s.sent + 1 < s.outbox.len() {
                (
                    SchedulerView { phase: Phase::Sending, outbox: s.outbox, sent: s.sent + 1 },
                    ActionView::Send(s.outbox[s.sent + 1 as int]),
                )
            } else {
                (SchedulerView { phase: Phase::Waiting, outbox: Seq::empty(), sent: 0 }, ActionView::Wait)
            },
            _ => (s, ActionView::Send(s.outbox[s.sent as int])),
        },
    }
}

/// Composes the alerts of a snapshot: one per available location, in list
/// order, each with the first portal whose key the location names.
pub fn plan_alerts(snapshot: &Snapshot) -> (r: Vec<String>)
    ensures
        r@.map_values(|s: String| s@) == planned_bodies(snapshot.locations@, snapshot.portals@),
{
    let positions = available_indices(&snapshot.locations);
    let ghost plan = planned_bodies(snapshot.locations@, snapshot.portals@);
    let mut r: Vec<String> = Vec::new();
    let n = positions.len();
    let m = snapshot.locations.len();
    for k in 0..n
        invariant
            m == snapshot.locations@.len(),
            n == positions@.len(),
            positions@ == available_positions(snapshot.locations@),
            plan == planned_bodies(snapshot.locations@, snapshot.portals@),
            r@.map_values(|s: String| s@) == plan.subrange(0, k as int),
    {
        proof { available_positions_exact(snapshot.locations@); }
        let i = positions[k];
        let location = &snapshot.locations[i];
        let body = match find_portal(&snapshot.portals, &location.portal) {
            Some(j) => compose_body(location, Some(&snapshot.portals[j])),
            None => compose_body(location, None),
        };
        assert(body@ == plan[k as int]);
        let ghost prev = r@.map_values(|s: String| s@);
        r.push(body);
        assert(r@.map_values(|s: String| s@) =~= prev.push(plan[k as int]));
        assert(plan.subrange(0, k + 1) =~= plan.subrange(0, k as int).push(plan[k as int]));
    }
    assert(plan.subrange(0, n as int) == plan);
    r
}

impl Scheduler {
    /// The outbox is empty but while alerts are being sent, and then the
    /// count of sent alerts stays below its length.
    #[verifier::type_invariant]
    spec fn well_formed(&self) -> bool {
        match self.phase {
            Phase::Sending => self.sent < self.outbox@.len(),
            _ => self.outbox@.len() == 0 && self.sent == 0,
        }
    }

    /// A scheduler waiting for its first tick.
    pub fn new() -> (r: Scheduler)
        ensures
            r@ == (SchedulerView { phase: Phase::Waiting, outbox: Seq::empty(), sent: 0 }),
    {
        let r = Scheduler { phase: Phase::Waiting, outbox: Vec::new(), sent: 0 };
        assert(r@.outbox == Seq::<Seq<char>>::empty());
        r
    }

    /// The current phase.
    pub fn phase(&self) -> (r: Phase)
        ensures
            r == self@.phase,
    {
        self.phase
    }

    fn stop(&mut self, f: Fault) -> (a: Action)
        ensures
            final(self)@ == (SchedulerView { phase: Phase::Stopped(f), outbox: Seq::empty(), sent: 0 }),
            a@ == ActionView::Stop(f),
    {
        *self = Scheduler { phase: Phase::Stopped(f), outbox: Vec::new(), sent: 0 };
        assert(self@.outbox == Seq::<Seq<char>>::empty());
        Action::Stop(f)
    }

    fn rest(&mut self) -> (a: Action)
        ensures
            final(self)@ == (SchedulerView { phase: Phase::Waiting, outbox: Seq::empty(), sent: 0 }),
            a@ == ActionView::Wait,
    {
        *self = Scheduler { phase: Phase::Waiting, outbox: Vec::new(), sent: 0 };
        assert(self@.outbox == Seq::<Seq<char>>::empty());
        Action::Wait
    }

    /// Takes one event and returns the next action, as `step_result` states.
    pub fn step(&mut self, event: Event) -> (a: Action)
        ensures
            (final(self)@, a@) == step_result(old(self)@, event),
    {
        proof {
            use_type_invariant(&*self);
        }
        assert(self.outbox@.len() == self@.outbox.len());
        match self.phase {
            Phase::Stopped(f) => Action::Stop(f),
            Phase::Waiting => match event {
                Event::Tick => {
                    self.phase = Phase::Fetching;
                    assert(self@.outbox =~= Seq::<Seq<char>>::empty());
                    Action::Fetch
                },
                _ => Action::Wait,
            },
            Phase::Fetching => match event {
                Event::FetchFailed => self.stop(Fault::Fetch),
                Event::Malformed => self.stop(Fault::Decode),
                Event::Fetched(raw) => match decode_response(&raw) {
                    Err(_) => self.stop(Fault::Decode),
                    Ok(snapshot) => {
                        let bodies = plan_alerts(&snapshot);
                        assert(bodies@.map_values(|s: String| s@) == payload_bodies(raw));
                        if bodies.len() == 0 {
                            self.rest()
                        } else {
                            let first = bodies[0].clone();
                            *self = Scheduler { phase: Phase::Sending, outbox: bodies, sent: 0 };
                            Action::Send(first)
                        }
                    },
                },
                _ => Action::Fetch,
            },
            Phase::Sending => match event {
                Event::SendFailed => self.stop(Fault::Send),
                Event::Sent => {
                    let len = self.outbox.len();
                    if self.sent + 1 < len {
                        self.sent = self.sent + 1;
                        Action::Send(self.outbox[self.sent].clone())
                    } else {
                        self.rest()
                    }
                },
                _ => Action::Send(self.outbox[self.sent].clone()),
            },
        }
    }
}

/// The actions that a run of events draws from a state, in order.
pub open spec fn run(s: SchedulerView, events: Seq<Event>) -> Seq<ActionView>
    decreases events.len(),
{
    if events.len() == 0 {
        Seq::empty()
    } else {
        let (t, a) = step_result(s, events[0]);
        seq![a] + run(t, events.drop_first())
    }
}

/// Whether `e`, arriving in state `s`, is a failure of kind `f`: a failed
/// fetch, a body that is no payload, a payload that does not decode, or a
/// refused alert.
pub open spec fn is_failure(s: SchedulerView, e: Event, f: Fault) -> bool {
    match s.phase {
        Phase::Fetching => match e {
            Event::FetchFailed => f == Fault::Fetch,
            Event::Malformed => f == Fault::Decode,
            Event::Fetched(raw) => response_fault(raw) is Some && f == Fault::Decode,
            _ => false,
        },
        Phase::Sending => e is SendFailed && f == Fault::Send,
        _ => false,
    }
}

/// Once stopped, the scheduler answers every event with the same stop: it
/// never fetches or sends again.
pub proof fn stopped_stays_stopped(s: SchedulerView, f: Fault, events: Seq<Event>)
    requires
        s.phase == Phase::Stopped(f),
    ensures
        run(s, events) == Seq::new(events.len(), |i: int| ActionView::Stop(f)),
    decreases events.len(),
{
    if events.len() > 0 {
        stopped_stays_stopped(s, f, events.drop_first());
        assert(run(s, events) =~= Seq::new(events.len(), |i: int| ActionView::Stop(f)));
    } else {
        assert(run(s, events) =~= Seq::new(events.len(), |i: int| ActionView::Stop(f)));
    }
}

/// A failure stops the scheduler at once with its kind, and whatever
/// follows draws only that stop: no second cycle begins.
pub proof fn failure_is_fatal(s: SchedulerView, e: Event, f: Fault, rest: Seq<Event>)
    requires
        is_failure(s, e, f),
    ensures
        step_result(s, e).0.phase == Phase::Stopped(f),
        run(s, seq![e] + rest) == Seq::new(rest.len() + 1, |i: int| ActionView::Stop(f)),
{
    let events = seq![e] + rest;
    assert(events[0] == e);
    assert(events.drop_first() =~= rest);
    stopped_stays_stopped(step_result(s, e).0, f, rest);
    assert(run(s, events) =~= Seq::new(rest.len() + 1, |i: int| ActionView::Stop(f)));
}

/// One cycle over a well-formed payload: with no available location it
/// fetches and waits again without sending; with exactly one it sends one
/// alert, whose body is that location's message with its portal, and then
/// waits for the next tick.
pub proof fn one_cycle(s: SchedulerView, raw: RawResponse)
    requires
        s.phase == Phase::Waiting,
        response_fault(raw) is None,
    ensures
        ({
            let locations = raw.locations@.map_values(|l: RawLocation| decoded_location(l));
            let portals = raw.portals@.map_values(|p: RawPortal| decoded_portal(p));
            let positions = available_positions(locations);
            &&& positions.len() == 0 ==> run(s, seq![Event::Tick, Event::Fetched(raw)]) == seq![
                ActionView::Fetch,
                ActionView::Wait,
            ]
            &&& positions.len() == 1 ==> run(s, seq![Event::Tick, Event::Fetched(raw), Event::Sent])
                == seq![
                ActionView::Fetch,
                ActionView::Send(
                    message_body(
                        locations[positions[0] as int],
                        resolved_portal(portals, locations[positions[0] as int].portal@),
                    ),
                ),
                ActionView::Wait,
            ]
        }),
{
    let tick = step_result(s, Event::Tick).0;
    let plan = payload_bodies(raw);
    let fetched = step_result(tick, Event::Fetched(raw)).0;
    let e2 = seq![Event::Tick, Event::Fetched(raw)];
    assert(e2.drop_first() =~= seq![Event::Fetched(raw)]);
    assert(e2.drop_first().drop_first() =~= Seq::<Event>::empty());
    let e3 = seq![Event::Tick, Event::Fetched(raw), Event::Sent];
    assert(e3.drop_first() =~= seq![Event::Fetched(raw), Event::Sent]);
    assert(e3.drop_first().drop_first() =~= seq![Event::Sent]);
    assert(e3.drop_first().drop_first().drop_first() =~= Seq::<Event>::empty());
    assert(tick.phase == Phase::Fetching);
    assert(step_result(s, Event::Tick).1 == ActionView::Fetch);
    assert(run(fetched, Seq::<Event>::empty()) == Seq::<ActionView>::empty());
    if plan.len() == 0 {
        assert(step_result(tick, Event::Fetched(raw)).1 == ActionView::Wait);
        assert(run(tick, e2.drop_first()) =~= seq![ActionView::Wait]);
        assert(run(s, e2) =~= seq![ActionView::Fetch, ActionView::Wait]);
    }
    if plan.len() == 1 {
        assert(step_result(tick, Event::Fetched(raw)).1 == ActionView::Send(plan[0]));
        assert(fetched.phase == Phase::Sending && fetched.sent == 0 && fetched.outbox.len() == 1);
        let done = step_result(fetched, Event::Sent).0;
        assert(step_result(fetched, Event::Sent).1 == ActionView::Wait);
        assert(run(done, Seq::<Event>::empty()) == Seq::<ActionView>::empty());
        assert(run(fetched, e3.drop_first().drop_first()) =~= seq![ActionView::Wait]);
        assert(run(tick, e3.drop_first()) =~= seq![ActionView::Send(plan[0]), ActionView::Wait]);
        assert(run(s, e3) =~= seq![ActionView::Fetch, ActionView::Send(plan[0]), ActionView::Wait]);
    }
}

/// While alerts are being sent, each confirmed alert is followed by the next
/// one in list order; a refused alert stops the scheduler, and nothing is
/// sent or fetched after it.
pub proof fn sends_in_order_until_refused(s: SchedulerView, k: nat, rest: Seq<Event>)
    requires
        s.phase == Phase::Sending,
        s.sent + k < s.outbox.len(),
    ensures
        run(s, Seq::new(k, |i: int| Event::Sent) + seq![Event::SendFailed] + rest) == Seq::new(
            k,
            |i: int| ActionView::Send(s.outbox[s.sent + 1 + i]),
        ) + Seq::new(rest.len() + 1, |i: int| ActionView::Stop(Fault::Send)),
    decreases k,
{
    let events = Seq::new(k, |i: int| Event::Sent) + seq![Event::SendFailed] + rest;
    let stops = Seq::new(rest.len() + 1, |i: int| ActionView::Stop(Fault::Send));
    if k == 0 {
        assert(events =~= seq![Event::SendFailed] + rest);
        failure_is_fatal(s, Event::SendFailed, Fault::Send, rest);
        assert(Seq::new(k, |i: int| ActionView::Send(s.outbox[s.sent + 1 + i])) + stops =~= stops);
    } else {
        let (t, a) = step_result(s, Event::Sent);
        assert(events[0] == Event::Sent);
        assert(events.drop_first() =~= Seq::new((k - 1) as nat, |i: int| Event::Sent) + seq![Event::SendFailed] + rest);
        sends_in_order_until_refused(t, (k - 1) as nat, rest);
        assert(a == ActionView::Send(s.outbox[s.sent + 1 as int]));
        assert(run(s, events) =~= Seq::new(k, |i: int| ActionView::Send(s.outbox[s.sent + 1 + i])) + stops);
    }
}

/// In a cycle over a well-formed payload whose alert after `k` confirmed
/// ones is refused, exactly the first `k + 1` planned alerts go out, in list
/// order, and the scheduler then stops for good.
pub proof fn cycle_sends_in_order_until_refused(s: SchedulerView, raw: RawResponse, k: nat, rest: Seq<Event>)
    requires
        s.phase == Phase::Fetching,
        response_fault(raw) is None,
        k < payload_bodies(raw).len(),
    ensures
        run(s, seq![Event::Fetched(raw)] + Seq::new(k, |i: int| Event::Sent) + seq![Event::SendFailed] + rest)
            == Seq::new(k + 1, |i: int| ActionView::Send(payload_bodies(raw)[i])) + Seq::new(
            rest.len() + 1,
            |i: int| ActionView::Stop(Fault::Send),
        ),
{
    let plan = payload_bodies(raw);
    let tail = Seq::new(k, |i: int| Event::Sent) + seq![Event::SendFailed] + rest;
    let events = seq![Event::Fetched(raw)] + Seq::new(k, |i: int| Event::Sent) + seq![Event::SendFailed] + rest;
    assert(events[0] == Event::Fetched(raw));
    assert(events.drop_first() =~= tail);
    let t = step_result(s, Event::Fetched(raw)).0;
    assert(t.phase == Phase::Sending && t.sent == 0 && t.outbox == plan);
    sends_in_order_until_refused(t, k, rest);
    assert(run(s, events) =~= Seq::new(k + 1, |i: int| ActionView::Send(plan[i])) + Seq::new(
        rest.len() + 1,
        |i: int| ActionView::Stop(Fault::Send),
    ));
}

} // verus!
