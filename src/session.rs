//! The session: one logical connection to the message source, kept alive
//! forever. It is a state machine from phase and event to next phase and action;
//! whoever drives it performs the action and reports what came of it.

use vstd::prelude::*;
use crate::sink::{DeviceError, PrintSink};
use crate::ticket::{header_label, ticket_layout, Command, Ticket};

verus! {

/// The fixed wait between a failure or a drop and the next connection attempt.
pub const COOLDOWN_SECS: u64 = 5;

#[derive(PartialEq, Eq, Structural, Clone, Copy, Debug)]
pub enum Phase {
    /// Establishing the connection, or waiting to try again after a failed
    /// attempt.
    Connecting,
    /// Open: waiting for the next inbound unit.
    Connected,
    /// The connection dropped: waiting out the cooldown.
    Disconnected,
}

/// What the driver of a session must do next.
#[derive(PartialEq, Eq, Structural, Clone, Copy, Debug)]
pub enum Action {
    /// Attempt to open the connection.
    Connect,
    /// Wait for the next inbound unit on the open connection.
    Receive,
    /// Sleep this many seconds, then report that the cooldown elapsed.
    Wait(u64),
}

/// What happened, as a value.
pub enum EventKind {
    ConnectSucceeded,
    ConnectFailed,
    Text(Seq<char>),
    NonText,
    ReadFailed,
    Closed,
    CooldownElapsed,
}

/// What the driver of a session reports.
#[derive(Clone, Debug)]
pub enum Event {
    /// A connection attempt succeeded.
    ConnectSucceeded,
    /// A connection attempt failed.
    ConnectFailed,
    /// A text unit arrived, with its payload.
    Text(String),
    /// A unit that is not text arrived (binary, ping, pong, ...).
    NonText,
    /// Reading from the connection failed.
    ReadFailed,
    /// The connection was closed.
    Closed,
    /// A cooldown wait is over.
    CooldownElapsed,
}

impl View for Event {
    type V = EventKind;

    open spec fn view(&self) -> EventKind {
        match self {
            Event::ConnectSucceeded => EventKind::ConnectSucceeded,
            Event::ConnectFailed => EventKind::ConnectFailed,
            Event::Text(t) => EventKind::Text(t@),
            Event::NonText => EventKind::NonText,
            Event::ReadFailed => EventKind::ReadFailed,
            Event::Closed => EventKind::Closed,
            Event::CooldownElapsed => EventKind::CooldownElapsed,
        }
    }
}

/// What a phase is waiting on when nothing moves it on.
pub open spec fn pending(p: Phase, cooldown: u64) -> Action {
    match p {
        Phase::Connecting => Action::Connect,
        Phase::Connected => Action::Receive,
        Phase::Disconnected => Action::Wait(cooldown),
    }
}

/// Next phase and action after event `e` in phase `p`. An event that does not
/// belong to the phase leaves it as it is.
pub open spec fn transition(p: Phase, e: EventKind, cooldown: u64) -> (Phase, Action) {
    match (p, e) {
        (Phase::Connecting, EventKind::ConnectSucceeded) => (Phase::Connected, Action::Receive),
        (Phase::Connecting, EventKind::ConnectFailed) => (Phase::Connecting, Action::Wait(cooldown)),
        (Phase::Connected, EventKind::ReadFailed) => (Phase::Disconnected, Action::Wait(cooldown)),
        (Phase::Connected, EventKind::Closed) => (Phase::Disconnected, Action::Wait(cooldown)),
        (Phase::Disconnected, EventKind::CooldownElapsed) => (Phase::Connecting, Action::Connect),
        _ => (p, pending(p, cooldown)),
    }
}

/// The bodies handed to the print sink on event `e` in phase `p`: the payload
/// of a text unit that arrives while connected, and nothing else.
pub open spec fn dispatched(p: Phase, e: EventKind) -> Seq<Seq<char>> {
    match (p, e) {
        (Phase::Connected, EventKind::Text(t)) => seq![t],
        _ => Seq::empty(),
    }
}

/// The phase after a sequence of events.
pub open spec fn run_phase(p: Phase, es: Seq<EventKind>, cooldown: u64) -> Phase
    decreases es.len(),
{
    if es.len() == 0 {
        p
    } else {
        run_phase(transition(p, es[0], cooldown).0, es.drop_first(), cooldown)
    }
}

/// The bodies handed to the print sink over a sequence of events, in order.
pub open spec fn run_dispatched(p: Phase, es: Seq<EventKind>, cooldown: u64) -> Seq<Seq<char>>
    decreases es.len(),
{
    if es.len() == 0 {
        Seq::empty()
    } else {
        dispatched(p, es[0]) + run_dispatched(
            transition(p, es[0], cooldown).0,
            es.drop_first(),
            cooldown,
        )
    }
}

/// The tickets that the sink is asked to render for a sequence of bodies.
pub open spec fn as_jobs(bodies: Seq<Seq<char>>) -> Seq<(Seq<char>, Seq<char>)> {
    bodies.map_values(|b: Seq<char>| (header_label(), b))
}

pub struct Session {
    url: String,
    phase: Phase,
    cooldown: u64,
}

impl Session {
    /// Address of the message source.
    pub closed spec fn target(&self) -> Seq<char> {
        self.url@
    }

    pub closed spec fn phase_spec(&self) -> Phase {
        self.phase
    }

    pub closed spec fn cooldown_spec(&self) -> u64 {
        self.cooldown
    }

    /// A session to `url` that is about to connect. Sessions are made by
    /// `start`, which brings the printer up first.
    pub(crate) fn new(url: String) -> (s: Session)
        ensures
            s.target() == url@,
            s.phase_spec() == Phase::Connecting,
            s.cooldown_spec() == COOLDOWN_SECS,
    {
        Session { url, phase: Phase::Connecting, cooldown: COOLDOWN_SECS }
    }

    /// Brings the printer up and, only if that works, creates the session, so
    /// that a printer that cannot be initialised ends everything before any
    /// connection is attempted. escpos's initialisation only queues its
    /// command, so with escpos it always works.
    pub fn start(url: String, sink: &mut PrintSink) -> (r: Result<Session, DeviceError>)
        ensures
            final(sink).jobs() == old(sink).jobs(),
            r is Ok,
            final(sink).queue() == old(sink).queue().push(Command::Init),
            final(sink).output() == old(sink).output(),
            r matches Ok(s) ==> s.target() == url@ && s.phase_spec() == Phase::Connecting
                && s.cooldown_spec() == COOLDOWN_SECS,
    {
        match sink.initialize() {
            Ok(()) => Ok(Session::new(url)),
            Err(e) => Err(e),
        }
    }

    /// Address of the message source.
    pub fn url(&self) -> (r: &str)
        ensures
            r@ == self.target(),
    {
        self.url.as_str()
    }

    pub fn phase(&self) -> (r: Phase)
        ensures
            r == self.phase_spec(),
    {
        self.phase
    }

    /// Seconds to wait after a failure or a drop.
    pub fn cooldown(&self) -> (r: u64)
        ensures
            r == self.cooldown_spec(),
    {
        self.cooldown
    }

    /// What the current phase is waiting on.
    pub fn next_action(&self) -> (r: Action)
        ensures
            r == pending(self.phase_spec(), self.cooldown_spec()),
    {
        match self.phase {
            Phase::Connecting => Action::Connect,
            Phase::Connected => Action::Receive,
            Phase::Disconnected => Action::Wait(self.cooldown),
        }
    }

    /// Takes one event: moves to the next phase and returns the action to
    /// perform. A text unit that arrives while connected is rendered as a
    /// ticket before this returns, and the outcome of that job is handed back;
    /// whatever it is, the session stays connected.
    pub fn step(&mut self, event: Event, sink: &mut PrintSink) -> (r: (
        Action,
        Option<Result<(), DeviceError>>,
    ))
        ensures
            (final(self).phase_spec(), r.0) == transition(
                old(self).phase_spec(),
                event@,
                old(self).cooldown_spec(),
            ),
            final(self).target() == old(self).target(),
            final(self).cooldown_spec() == old(self).cooldown_spec(),
            final(sink).jobs() == old(sink).jobs() + as_jobs(dispatched(old(self).phase_spec(), event@)),
            r.1 is Some <==> dispatched(old(self).phase_spec(), event@).len() == 1,
            r.1 is None ==> final(sink).queue() == old(sink).queue() && final(sink).output()
                == old(sink).output(),
            r.1 is Some ==> final(sink).queue() == Seq::<Command>::empty(),
            r.1 == Some(Ok::<(), DeviceError>(())) ==> event@ is Text && final(sink).output()
                == old(sink).output() + old(sink).queue() + ticket_layout(
                header_label(),
                event@->Text_0,
            ),
    {
        let c = self.cooldown;
        match (self.phase, event) {
            (Phase::Connecting, Event::ConnectSucceeded) => {
                self.phase = Phase::Connected;
                (Action::Receive, None)
            },
            (Phase::Connecting, Event::ConnectFailed) => (Action::Wait(c), None),
            (Phase::Connected, Event::Text(body)) => {
                let ticket = Ticket::new(body.as_str());
                let printed = sink.render(&ticket);
                proof {
                    assert(as_jobs(seq![body@]) =~= seq![(header_label(), body@)]);
                }
                (Action::Receive, Some(printed))
            },
            (Phase::Connected, Event::ReadFailed) | (Phase::Connected, Event::Closed) => {
                self.phase = Phase::Disconnected;
                (Action::Wait(c), None)
            },
            (Phase::Disconnected, Event::CooldownElapsed) => {
                self.phase = Phase::Connecting;
                (Action::Connect, None)
            },
            _ => {
                proof {
                    assert(as_jobs(Seq::empty()) =~= Seq::empty());
                }
                (self.next_action(), None)
            },
        }
    }
}

} // verus!
