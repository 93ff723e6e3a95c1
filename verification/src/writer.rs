//! Saving the state in the background: of several states that wait to be
//! written only the last one is.

use vstd::prelude::*;

use crate::state::PersistedState;

verus! {

/// What the writer meets with.
#[derive(Debug)]
pub enum WriterEvent {
    /// A state was sent.
    Sent(PersistedState),
    /// No state waits at the moment.
    NothingWaits,
    /// No state will be sent any more.
    Closed,
}

/// What the writer does next.
#[derive(Debug)]
pub enum WriterStep {
    /// It keeps a state, and looks whether another one waits already.
    Look(PersistedState),
    /// It writes a state.
    Write(PersistedState),
    /// It waits until a state is sent.
    Wait,
    /// It ends.
    End,
}

/// What the writer does next, if it keeps a state or none.
pub open spec fn after_event(latest: Option<PersistedState>, event: WriterEvent) -> WriterStep {
    match event {
        WriterEvent::Sent(state) => WriterStep::Look(state),
        WriterEvent::NothingWaits => match latest {
            Some(state) => WriterStep::Write(state),
            None => WriterStep::Wait,
        },
        WriterEvent::Closed => match latest {
            Some(state) => WriterStep::Write(state),
            None => WriterStep::End,
        },
    }
}

/// What the writer does next, if it keeps a state or none. A state that is sent
/// takes the place of one that is kept; a kept one is written once no other
/// waits.
pub fn writer_step(latest: Option<PersistedState>, event: WriterEvent) -> (step: WriterStep)
    ensures
        step == after_event(latest, event),
{
    match event {
        WriterEvent::Sent(state) => WriterStep::Look(state),
        WriterEvent::NothingWaits => match latest {
            Some(state) => WriterStep::Write(state),
            None => WriterStep::Wait,
        },
        WriterEvent::Closed => match latest {
            Some(state) => WriterStep::Write(state),
            None => WriterStep::End,
        },
    }
}

/// How far the writer has come.
pub struct WriterRun {
    /// The state that it keeps.
    pub latest: Option<PersistedState>,
    /// The states that it wrote, in their order.
    pub written: Seq<PersistedState>,
    /// Whether it ended.
    pub ended: bool,
}

/// How far the writer has come after one more step.
pub open spec fn stepped(run: WriterRun, step: WriterStep) -> WriterRun {
    match step {
        WriterStep::Look(state) => WriterRun { latest: Some(state), ..run },
        WriterStep::Write(state) => WriterRun {
            latest: None,
            written: run.written.push(state),
            ..run
        },
        WriterStep::Wait => WriterRun { latest: None, ..run },
        WriterStep::End => WriterRun { latest: None, ended: true, ..run },
    }
}

/// How far the writer has come after a row of events; it meets with none after
/// its end.
pub open spec fn run_of(events: Seq<WriterEvent>) -> WriterRun
    decreases events.len(),
{
    if events.len() == 0 {
        WriterRun { latest: None, written: Seq::empty(), ended: false }
    } else {
        let run = run_of(events.drop_last());
        if run.ended {
            run
        } else {
            stepped(run, after_event(run.latest, events.last()))
        }
    }
}

/// The last state of a row of events that was sent.
pub open spec fn last_sent(events: Seq<WriterEvent>) -> Option<PersistedState>
    decreases events.len(),
{
    if events.len() == 0 {
        None
    } else {
        match events.last() {
            WriterEvent::Sent(state) => Some(state),
            _ => last_sent(events.drop_last()),
        }
    }
}

/// The last state that was written.
pub open spec fn last_written(run: WriterRun) -> Option<PersistedState> {
    if run.written.len() > 0 {
        Some(run.written.last())
    } else {
        None
    }
}

/// As long as the writer runs, the last state that was sent is kept or was the
/// last to be written.
proof fn lemma_last_is_kept(events: Seq<WriterEvent>)
    requires
        !run_of(events).ended,
    ensures
        last_sent(events) == (if run_of(events).latest is Some {
            run_of(events).latest
        } else {
            last_written(run_of(events))
        }),
    decreases events.len(),
{
    if events.len() > 0 {
        lemma_last_is_kept(events.drop_last());
    }
}

/// Once no state waits, or none will be sent any more, the last state that was
/// written is the last one that was sent.
pub proof fn the_last_state_sent_is_written(events: Seq<WriterEvent>)
    requires
        events.len() > 0,
        !run_of(events.drop_last()).ended,
        events.last() !is Sent,
    ensures
        last_written(run_of(events)) == last_sent(events),
        run_of(events).latest is None,
{
    lemma_last_is_kept(events.drop_last());
}

/// Whether a state is among those that were sent.
pub open spec fn was_sent(events: Seq<WriterEvent>, state: PersistedState) -> bool {
    exists|i: int| 0 <= i < events.len() && #[trigger] events[i] == WriterEvent::Sent(state)
}

/// What was sent before one more event was sent after it too.
proof fn lemma_was_sent(events: Seq<WriterEvent>, state: PersistedState)
    requires
        events.len() > 0,
        was_sent(events.drop_last(), state),
    ensures
        was_sent(events, state),
{
    let front = events.drop_last();
    let i = choose|i: int| 0 <= i < front.len() && #[trigger] front[i] == WriterEvent::Sent(state);
    assert(events[i] == WriterEvent::Sent(state));
}

/// Only states that were sent are kept or written.
pub proof fn only_states_that_were_sent_are_written(events: Seq<WriterEvent>)
    ensures
        run_of(events).latest matches Some(state) ==> was_sent(events, state),
        forall|i: int|
            0 <= i < run_of(events).written.len() ==> was_sent(
                events,
                #[trigger] run_of(events).written[i],
            ),
    decreases events.len(),
{
    if events.len() > 0 {
        let front = events.drop_last();
        let before = run_of(front);
        let run = run_of(events);
        only_states_that_were_sent_are_written(front);
        assert(events[events.len() - 1] == events.last());
        if let Some(state) = before.latest {
            lemma_was_sent(events, state);
        }
        assert forall|i: int| 0 <= i < run.written.len() implies was_sent(
            events,
            #[trigger] run.written[i],
        ) by {
            if i < before.written.len() {
                assert(run.written[i] == before.written[i]);
                lemma_was_sent(events, before.written[i]);
            }
        }
    }
}

/// A state that is sent while another one is kept is written in its place: of a
/// row of states that are sent at once only the last is written.
pub proof fn waiting_states_are_merged(
    events: Seq<WriterEvent>,
    first: PersistedState,
    second: PersistedState,
)
    requires
        !run_of(events).ended,
    ensures
        run_of(
            events.push(WriterEvent::Sent(first)).push(WriterEvent::Sent(second)).push(
                WriterEvent::NothingWaits,
            ),
        ).written == run_of(events).written.push(second),
{
    let one = events.push(WriterEvent::Sent(first));
    let two = one.push(WriterEvent::Sent(second));
    let three = two.push(WriterEvent::NothingWaits);
    assert(one.drop_last() =~= events);
    assert(two.drop_last() =~= one);
    assert(three.drop_last() =~= two);
    assert(run_of(one) == stepped(run_of(events), WriterStep::Look(first)));
    assert(run_of(two) == stepped(run_of(one), WriterStep::Look(second)));
}

/// The writer ends exactly where it keeps no state and none will be sent any
/// more; it waits where it keeps none and none waits; and a state that is sent
/// never ends it, nor is it written before it is known whether another waits.
pub proof fn writers_end_when_nothing_is_left(latest: Option<PersistedState>, event: WriterEvent)
    ensures
        after_event(latest, event) is End <==> latest is None && event is Closed,
        after_event(latest, event) is Wait <==> latest is None && event is NothingWaits,
        after_event(latest, event) is Look <==> event is Sent,
        latest is Some && event !is Sent ==> after_event(latest, event) == WriterStep::Write(
            latest->0,
        ),
        event matches WriterEvent::Sent(state) ==> after_event(latest, event) == WriterStep::Look(
            state,
        ),
{
}

} // verus!
