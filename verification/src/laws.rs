//! What holds of the client in every state and over every run.

use crate::frame::{FrameView, SendFailure, KEEPALIVE_INTERVAL};
use crate::model::{ClientState, EffectsView, Event};
use crate::status::{is_status_text, ConnectionStatus};
use vstd::prelude::*;

verus! {

/// No move leads out of the states that a client can be in.
pub proof fn step_preserves_wf<O>(s: ClientState<O>, event: Event<O>)
    requires
        s.wf(),
    ensures
        s.step(event).0.wf(),
{
}

/// No run leads out of the states that a client can be in.
pub proof fn run_preserves_wf<O>(s: ClientState<O>, events: Seq<Event<O>>)
    requires
        s.wf(),
    ensures
        s.after(events).wf(),
    decreases events.len(),
{
    if events.len() > 0 {
        run_preserves_wf(s, events.drop_last());
        step_preserves_wf(s.after(events.drop_last()), events.last());
    }
}

/// Whatever the host calls and whatever the transport reports, in whatever
/// order: the status is one of stopped, connected and disconnected, and so is
/// every value that an observer is told.
pub proof fn status_is_one_of_three<O>(s: ClientState<O>, events: Seq<Event<O>>)
    requires
        s.wf(),
    ensures
        s.after(events).wf(),
        is_status_text(s.after(events).status.text()),
        forall|at: int|
            0 <= at < events.len() ==> (#[trigger] s.output_at(events, at).notified matches Some(
                status,
            ) ==> is_status_text(status.text())),
{
    run_preserves_wf(s, events);
    assert forall|at: int| 0 <= at < events.len() implies (#[trigger] s.output_at(
        events,
        at,
    ).notified matches Some(status) ==> is_status_text(status.text())) by {
        if s.output_at(events, at).notified is Some {
            let status = s.output_at(events, at).notified->0;
            assert(status.text() == status.text());
        }
    }
}

/// A client that knows no connection below `floor` neither comes to know one
/// nor asks anything for one.
pub proof fn step_keeps_floor<O>(s: ClientState<O>, event: Event<O>, floor: u64)
    requires
        s.wf(),
        s.knows_none_below(floor),
    ensures
        s.step(event).0.knows_none_below(floor),
        s.step(event).1.send matches Some(frame) ==> floor <= frame.0,
        s.step(event).1.spawned matches Some(connection) ==> floor <= connection,
        s.step(event).1.connect matches Some(attempt) ==> floor <= attempt.0,
{
}

proof fn run_keeps_floor<O>(s: ClientState<O>, events: Seq<Event<O>>, floor: u64)
    requires
        s.wf(),
        s.knows_none_below(floor),
    ensures
        s.after(events).wf(),
        s.after(events).knows_none_below(floor),
    decreases events.len(),
{
    if events.len() > 0 {
        run_keeps_floor(s, events.drop_last(), floor);
        step_keeps_floor(s.after(events.drop_last()), events.last(), floor);
    }
}

/// Once `stop` has returned, nothing is sent on a connection that was made
/// before it, whatever happens afterwards: no ping and no other frame goes
/// out on it, no keepalive task is started for it, and a keepalive task of it
/// that comes back is told to end without waiting for another round. The
/// `stop` itself names the connection that was in service as ended.
pub proof fn nothing_is_sent_after_stop<O>(s: ClientState<O>, later: Seq<Event<O>>, at: int)
    requires
        s.wf(),
        0 <= at < later.len(),
    ensures
        s.step(Event::Stop).1.ended == s.keepalive,
        s.step(Event::Stop).0.keepalive is None,
        ({
            let out = s.step(Event::Stop).0.output_at(later, at);
            &&& out.send matches Some(frame) ==> s.issued <= frame.0
            &&& out.spawned matches Some(connection) ==> s.issued <= connection
            &&& later[at] matches Event::PingDue(connection) ==> connection < s.issued ==> out
                == EffectsView::dismiss(connection)
            &&& later[at] matches Event::PingResult(connection, _) ==> connection < s.issued
                ==> out == EffectsView::dismiss(connection)
        }),
{
    let stopped = s.step(Event::Stop).0;
    step_preserves_wf(s, Event::Stop);
    run_keeps_floor(stopped, later.take(at), s.issued);
    step_keeps_floor(stopped.after(later.take(at)), later[at], s.issued);
}

/// At most one keepalive task is alive at any time, however often and
/// however quickly `start` is called: over every run the tasks alive are
/// that of the connection in service and no other.
pub proof fn at_most_one_keepalive_task<O>(s: ClientState<O>, events: Seq<Event<O>>)
    requires
        s.wf(),
    ensures
        s.tasks_after(events) == s.after(events).live(),
        s.tasks_after(events).finite(),
        s.tasks_after(events).len() <= 1,
    decreases events.len(),
{
    if events.len() > 0 {
        let before = s.after(events.drop_last());
        at_most_one_keepalive_task(s, events.drop_last());
        run_preserves_wf(s, events.drop_last());
        step_moves_tasks(before, events.last());
    }
    let end = s.after(events);
    if end.keepalive is Some {
        assert(end.live().len() == 1);
    }
}

/// One move leaves alive the task of the connection in service and no other.
pub proof fn step_moves_tasks<O>(s: ClientState<O>, event: Event<O>)
    requires
        s.wf(),
    ensures
        s.step(event).1.tasks(s.live()) == s.step(event).0.live(),
{
    let (next, out) = s.step(event);
    assert(out.tasks(s.live()) =~= next.live());
}

/// A connection that the peer has closed is noticed by the next ping, with
/// no call from the host: a ping that fails on the connection in service
/// makes the status disconnected, tells the observer so and ends the task,
/// and so does a read that fails or brings a close frame. Until then a ping
/// is due every keepalive interval, which is 30 seconds, and never later.
pub proof fn lost_connection_is_noticed<O>(
    s: ClientState<O>,
    connection: u64,
    failure: SendFailure,
)
    requires
        s.wf(),
        s.keepalive == Some(connection),
    ensures
        KEEPALIVE_INTERVAL == 30,
        s.step(Event::PingDue(connection)) == (
            s,
            EffectsView {
                send: Some((connection, FrameView::keepalive_ping())),
                ..EffectsView::quiet()
            },
        ),
        s.step(Event::PingResult(connection, Ok(()))).1.wait == Some(KEEPALIVE_INTERVAL),
        s.step(Event::PingResult(connection, Ok(()))).0.keepalive == Some(connection),
        s.step(Event::PingResult(connection, Ok(()))).0.status == ConnectionStatus::Connected,
        s.step(Event::PingResult(connection, Err(failure))) == s.lose(
            connection,
            failure.is_unexpected(),
        ),
        s.step(Event::Received(connection, None)) == s.lose(connection, false),
        s.step(Event::Received(connection, Some(FrameView::Close))) == s.lose(connection, false),
        forall|diagnostic: bool|
            {
                let (next, out) = #[trigger] s.lose(connection, diagnostic);
                &&& next.status == ConnectionStatus::Disconnected
                &&& next.keepalive is None
                &&& out.notified == Some(ConnectionStatus::Disconnected)
                &&& out.ended == Some(connection)
                &&& out.wait is None
                &&& out.send is None
            },
{
}

/// `rounds` keepalive rounds on one connection: the ping is due, and goes
/// out.
pub open spec fn ping_rounds<O>(connection: u64, rounds: nat) -> Seq<Event<O>>
    decreases rounds,
{
    if rounds == 0 {
        Seq::empty()
    } else {
        ping_rounds::<O>(connection, (rounds - 1) as nat).push(Event::PingDue(connection)).push(
            Event::PingResult(connection, Ok(())),
        )
    }
}

/// The keepalive never gives up a connection that carries its pings, and
/// gives it up at the first ping that fails: after any number of rounds the
/// connection is still in service, and the failure of the next ping makes
/// the status disconnected.
pub proof fn first_failed_ping_disconnects<O>(
    s: ClientState<O>,
    connection: u64,
    rounds: nat,
    failure: SendFailure,
)
    requires
        s.wf(),
        s.keepalive == Some(connection),
    ensures
        s.after(ping_rounds(connection, rounds)).wf(),
        s.after(ping_rounds(connection, rounds)).keepalive == Some(connection),
        rounds > 0 ==> s.after(ping_rounds(connection, rounds)).status
            == ConnectionStatus::Connected,
        s.after(ping_rounds(connection, rounds)).step(
            Event::PingResult(connection, Err(failure)),
        ).0.status == ConnectionStatus::Disconnected,
    decreases rounds,
{
    if rounds > 0 {
        let shorter = ping_rounds::<O>(connection, (rounds - 1) as nat);
        let due = shorter.push(Event::PingDue(connection));
        let all = ping_rounds::<O>(connection, rounds);
        first_failed_ping_disconnects(s, connection, (rounds - 1) as nat, failure);
        assert(all.drop_last() == due);
        assert(due.drop_last() == shorter);
        assert(s.after(due) == s.after(shorter));
    }
}

/// Once an observer is registered it is the only one that is told of a
/// status, until another is registered in its place: registering tells
/// nobody, and every later transition goes to the new observer and to no
/// other, so the one it replaced is told nothing more.
pub proof fn only_latest_observer_is_told<O>(
    s: ClientState<O>,
    observer: O,
    later: Seq<Event<O>>,
    at: int,
)
    requires
        s.wf(),
        0 <= at < later.len(),
        forall|i: int| 0 <= i < later.len() ==> !(#[trigger] later[i] is Register),
    ensures
        s.step(Event::Register(observer)).1 == EffectsView::quiet(),
        s.step(Event::Register(observer)).0.after(later).observer == Some(observer),
        s.step(Event::Register(observer)).0.notified_at(later, at) matches Some(told) ==> told
            == observer,
{
    let registered = s.step(Event::Register(observer)).0;
    run_keeps_observer(registered, later);
    assert forall|i: int| 0 <= i < later.take(at).len() implies !(#[trigger] later.take(
        at,
    )[i] is Register) by {
        assert(later.take(at)[i] == later[i]);
    }
    run_keeps_observer(registered, later.take(at));
}

proof fn run_keeps_observer<O>(s: ClientState<O>, events: Seq<Event<O>>)
    requires
        forall|i: int| 0 <= i < events.len() ==> !(#[trigger] events[i] is Register),
    ensures
        s.after(events).observer == s.observer,
    decreases events.len(),
{
    if events.len() > 0 {
        assert forall|i: int| 0 <= i < events.drop_last().len() implies !(
        #[trigger] events.drop_last()[i] is Register) by {
            assert(events.drop_last()[i] == events[i]);
        }
        run_keeps_observer(s, events.drop_last());
        assert(!(events[events.len() - 1] is Register));
    }
}

/// A connection attempt that fails leaves the client as it was, but for the
/// count of attempts: same status, same connection in service, nothing to
/// do and nobody told. A client that has used up its attempts asks for none.
pub proof fn failed_attempt_changes_nothing<O>(s: ClientState<O>)
    requires
        s.wf(),
    ensures
        s.issued < u64::MAX ==> s.step(Event::Start).1.connect == Some((s.issued, s.target())),
        s.issued < u64::MAX ==> s.step(Event::Start).0.step(Event::Refused(s.issued)) == (
            ClientState { issued: (s.issued + 1) as u64, pending: None, ..s },
            EffectsView::quiet(),
        ),
        s.issued == u64::MAX ==> s.step(Event::Start) == (s, EffectsView::quiet()),
{
}

/// Every change of the status is told, one by one and as it happens: a move
/// that leaves the status other than it was names the new status as told,
/// and a status that is told is the one that the move has stored.
pub proof fn every_change_is_told<O>(s: ClientState<O>, event: Event<O>)
    requires
        s.wf(),
    ensures
        s.step(event).0.status != s.status ==> s.step(event).1.notified == Some(
            s.step(event).0.status,
        ),
        s.step(event).1.notified matches Some(status) ==> s.step(event).0.status == status,
{
}

/// A request that waits is never forgotten: the move that ends its wait
/// hands it a result, which is the text of the reply frame or else empty; a
/// lost connection, a new connection and a stop all end the wait. No move
/// hands out a result unless a request waits or is just being submitted.
pub proof fn waiting_request_is_released<O>(s: ClientState<O>, event: Event<O>)
    requires
        s.wf(),
    ensures
        s.awaiting && !s.step(event).0.awaiting ==> s.step(event).1.reply is Some,
        s.awaiting && s.step(event).0.keepalive != s.keepalive ==> s.step(event).1.reply == Some(
            Seq::<char>::empty(),
        ),
        s.step(event).1.reply is Some ==> s.awaiting || event is Request,
        s.step(event).1.reply is Some && !(event is Request) ==> !s.step(event).0.awaiting,
{
}

/// The instant of the ping of round `round`, for a keepalive task whose
/// first ping went out at `first` and whose every wait lasted as asked.
pub open spec fn ping_instant(first: int, round: nat) -> int {
    first + round * KEEPALIVE_INTERVAL
}

/// Pings are one keepalive interval apart, so that whenever the peer closes
/// the connection, a ping follows within one interval: it is the one that
/// fails and makes the status disconnected.
pub proof fn ping_follows_within_interval(first: int, closed: int)
    requires
        first <= closed,
    ensures
        exists|round: nat|
            closed <= #[trigger] ping_instant(first, round) < closed + KEEPALIVE_INTERVAL,
{
    let round = ((closed - first + KEEPALIVE_INTERVAL - 1) / (KEEPALIVE_INTERVAL as int)) as nat;
    assert(closed <= ping_instant(first, round) < closed + KEEPALIVE_INTERVAL);
}

} // verus!
