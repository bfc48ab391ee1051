//! What holds of the session and of ticket rendering over every input.

use vstd::prelude::*;
use crate::session::{
    dispatched, pending, run_dispatched, run_phase, transition, Action, EventKind, Phase,
};
use crate::ticket::{header_label, ticket_layout, Command};

verus! {

/// The events of a sequence of text units.
pub open spec fn text_events(texts: Seq<Seq<char>>) -> Seq<EventKind> {
    texts.map_values(|t: Seq<char>| EventKind::Text(t))
}

/// Any number of text units that arrive while connected are handed to the
/// print sink one by one, all of them and in the order they came, and the
/// session is still connected afterwards.
pub proof fn texts_are_dispatched_in_order(texts: Seq<Seq<char>>, cooldown: u64)
    ensures
        run_phase(Phase::Connected, text_events(texts), cooldown) == Phase::Connected,
        run_dispatched(Phase::Connected, text_events(texts), cooldown) == texts,
    decreases texts.len(),
{
    if texts.len() > 0 {
        let rest = texts.drop_first();
        assert(text_events(texts).drop_first() =~= text_events(rest));
        texts_are_dispatched_in_order(rest, cooldown);
        assert(seq![texts[0]] + rest =~= texts);
    }
}

/// Whether event `e` can report the outcome of action `a`.
pub open spec fn answers(a: Action, e: EventKind) -> bool {
    match e {
        EventKind::ConnectSucceeded | EventKind::ConnectFailed => a == Action::Connect,
        EventKind::CooldownElapsed => a is Wait,
        _ => a == Action::Receive,
    }
}

/// Whether `es` can be what a driver reports to a session in phase `p` with
/// action `a` pending: each event is the outcome of the action asked for just
/// before it.
pub open spec fn driven(p: Phase, a: Action, es: Seq<EventKind>, cooldown: u64) -> bool
    decreases es.len(),
{
    es.len() == 0 || (answers(a, es[0]) && driven(
        transition(p, es[0], cooldown).0,
        transition(p, es[0], cooldown).1,
        es.drop_first(),
        cooldown,
    ))
}

/// The payloads of the text units among `es`, in order.
pub open spec fn texts_of(es: Seq<EventKind>) -> Seq<Seq<char>>
    decreases es.len(),
{
    if es.len() == 0 {
        Seq::empty()
    } else {
        (match es[0] {
            EventKind::Text(t) => seq![t],
            _ => Seq::empty(),
        }) + texts_of(es.drop_first())
    }
}

proof fn lemma_driven_dispatches_every_text(
    p: Phase,
    a: Action,
    es: Seq<EventKind>,
    cooldown: u64,
)
    requires
        a == Action::Receive <==> p == Phase::Connected,
        driven(p, a, es, cooldown),
    ensures
        run_dispatched(p, es, cooldown) == texts_of(es),
    decreases es.len(),
{
    if es.len() > 0 {
        let next = transition(p, es[0], cooldown);
        lemma_driven_dispatches_every_text(next.0, next.1, es.drop_first(), cooldown);
    }
}

/// Every text unit delivered over the life of a session, over any number of
/// connections and with failures, drops, cooldowns and non-text units between
/// them, is handed to the print sink exactly once, in the order of delivery.
pub proof fn every_delivered_text_is_dispatched_in_order(
    p: Phase,
    es: Seq<EventKind>,
    cooldown: u64,
)
    requires
        driven(p, pending(p, cooldown), es, cooldown),
    ensures
        run_dispatched(p, es, cooldown) == texts_of(es),
{
    lemma_driven_dispatches_every_text(p, pending(p, cooldown), es, cooldown);
}

/// After a text unit has been dispatched the session goes on exactly as if it
/// had not come: the next unit is dispatched whether the job printed or
/// failed, since the job's outcome does not enter the transition.
pub proof fn failed_job_does_not_halt(t: Seq<char>, rest: Seq<EventKind>, cooldown: u64)
    ensures
        transition(Phase::Connected, EventKind::Text(t), cooldown) == (
        Phase::Connected,
        Action::Receive,
    ),
        run_phase(Phase::Connected, seq![EventKind::Text(t)] + rest, cooldown) == run_phase(
            Phase::Connected,
            rest,
            cooldown,
        ),
        run_dispatched(Phase::Connected, seq![EventKind::Text(t)] + rest, cooldown) == seq![t]
            + run_dispatched(Phase::Connected, rest, cooldown),
{
    let es = seq![EventKind::Text(t)] + rest;
    assert(es.drop_first() =~= rest);
}

/// A failed connection attempt, a read error and a close each lead to exactly
/// one cooldown wait, after which the session is connecting again; this holds
/// in every round, so retries never end and never escalate.
pub proof fn retry_after_one_cooldown(p: Phase, e: EventKind, cooldown: u64)
    requires
        (p == Phase::Connecting && e == EventKind::ConnectFailed) || (p == Phase::Connected && (
        e == EventKind::ReadFailed || e == EventKind::Closed)),
    ensures
        transition(p, e, cooldown).1 == Action::Wait(cooldown),
        transition(transition(p, e, cooldown).0, EventKind::CooldownElapsed, cooldown) == (
        Phase::Connecting,
        Action::Connect,
    ),
{
}

/// A unit that is not text dispatches nothing and changes no phase.
pub proof fn non_text_is_ignored(p: Phase, cooldown: u64)
    ensures
        transition(p, EventKind::NonText, cooldown) == (p, pending(p, cooldown)),
        dispatched(p, EventKind::NonText) == Seq::<Seq<char>>::empty(),
{
}

/// The body of a dispatched text unit reaches the device as it came: it is the
/// ticket's one line besides the header, unchanged.
pub proof fn body_reaches_device_unchanged(body: Seq<char>)
    ensures
        dispatched(Phase::Connected, EventKind::Text(body)) == seq![body],
        ticket_layout(header_label(), body)[8] == Command::Line(body),
        forall|i: int|
            0 <= i < ticket_layout(header_label(), body).len() && #[trigger] ticket_layout(
                header_label(),
                body,
            )[i] is Line ==> i == 4 || i == 8,
{
}

} // verus!
