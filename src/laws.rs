use vstd::prelude::*;
use crate::message::Event;
use crate::session::{connected_line, disconnected_line, reaction, step, Command, Connection, Session};

verus! {

/// The session after the events, applied in order, oldest first.
pub open spec fn run(s: Session, events: Seq<Event>) -> Session
    decreases events.len(),
{
    if events.len() == 0 {
        s
    } else {
        step(run(s, events.drop_last()), events.last())
    }
}

/// After a nonempty run of input changes the draft is the text of the last
/// one, and nothing else of the session has changed.
pub proof fn lemma_draft_is_last_input(s: Session, events: Seq<Event>)
    requires
        events.len() > 0,
        forall|i: int| 0 <= i < events.len() ==> (#[trigger] events[i]) is UpdateInput,
    ensures
        run(s, events).draft == events.last()->UpdateInput_0,
        run(s, events).log == s.log,
        run(s, events).connection == s.connection,
        run(s, events).socket == s.socket,
    decreases events.len(),
{
    let prefix = events.drop_last();
    if prefix.len() > 0 {
        assert forall|i: int| 0 <= i < prefix.len() implies (#[trigger] prefix[i]) is UpdateInput by {
            assert(prefix[i] == events[i]);
        }
        lemma_draft_is_last_input(s, prefix);
    } else {
        assert(run(s, prefix) == s);
    }
    assert(events.last() == events[events.len() - 1]);
    assert(events.last() is UpdateInput);
}

/// A send request leaves an empty draft, whether a socket is held or not.
pub proof fn lemma_send_clears_draft(s: Session)
    ensures
        step(s, Event::Send).draft == Seq::<char>::empty(),
{
}

/// One event never removes or reorders a logged line: the old log is a
/// prefix of the new one.
pub proof fn lemma_step_extends_log(s: Session, e: Event)
    ensures
        s.log.len() <= step(s, e).log.len(),
        step(s, e).log.subrange(0, s.log.len() as int) == s.log,
{
    assert(step(s, e).log.subrange(0, s.log.len() as int) =~= s.log);
}

/// Along any run of events, the log after the first `i` events is a prefix of
/// the log after the first `j`, for `i <= j`: its length never decreases.
pub proof fn lemma_log_grows(s: Session, events: Seq<Event>, i: int, j: int)
    requires
        0 <= i <= j <= events.len(),
    ensures
        run(s, events.take(i)).log.len() <= run(s, events.take(j)).log.len(),
        run(s, events.take(j)).log.subrange(0, run(s, events.take(i)).log.len() as int)
            == run(s, events.take(i)).log,
    decreases j - i,
{
    if i < j {
        lemma_log_grows(s, events, i, j - 1);
        let mid = run(s, events.take(j - 1));
        assert(events.take(j).drop_last() =~= events.take(j - 1));
        assert(events.take(j).last() == events[j - 1]);
        lemma_step_extends_log(mid, events[j - 1]);
        let a = run(s, events.take(i)).log;
        let b = mid.log;
        let c = run(s, events.take(j)).log;
        assert(c.subrange(0, a.len() as int) =~= a) by {
            assert forall|k: int| 0 <= k < a.len() implies c[k] == a[k] by {
                assert(c[k] == c.subrange(0, b.len() as int)[k]);
                assert(b[k] == b.subrange(0, a.len() as int)[k]);
            }
        }
    } else {
        assert(run(s, events.take(j)).log.subrange(0, run(s, events.take(i)).log.len() as int)
            =~= run(s, events.take(i)).log);
    }
}

/// When disconnected, the transport reporting the socket open connects the
/// session and logs exactly one line, "Connected".
pub proof fn lemma_open_connects(s: Session)
    requires
        s.connection == Connection::Disconnected,
    ensures
        step(s, Event::Connected).connection == Connection::Connected,
        step(s, Event::Connected).log == s.log.push(connected_line()),
        step(s, Event::Connected).draft == s.draft,
{
}

/// When connected, the transport reporting the socket closed disconnects the
/// session, logs exactly one line, "Disconnected", releases the socket, and a
/// send requested afterwards asks nothing of the transport.
pub proof fn lemma_close_disconnects(s: Session)
    requires
        s.connection == Connection::Connected,
    ensures
        step(s, Event::Disconnected).connection == Connection::Disconnected,
        step(s, Event::Disconnected).log == s.log.push(disconnected_line()),
        reaction(s, Event::Disconnected) == Command::Release,
        !step(s, Event::Disconnected).socket,
        reaction(step(s, Event::Disconnected), Event::Send) == Command::Nothing,
{
}

} // verus!
