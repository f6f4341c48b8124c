//! What holds of every run: the laws of the run loop, stated over whole
//! sequences of steps.

use vstd::prelude::*;
use crate::listeners::engine::{Action, Course, Phase, PollEvent, StopReason, StreamEvent};
use crate::listeners::finality::law_final_stays_final;
use crate::listeners::observation::{BlockId, BlockObservation, ChainEvent, Sighting};
use crate::listeners::pacing::Span;

verus! {

/// What one step of realtime mode is given: whether the shutdown signal had
/// fired when the step looked at it, and the event.
pub struct StreamInput {
    pub fired: bool,
    pub event: StreamEvent,
}

/// What one step of paced mode is given.
pub struct PollInput {
    pub fired: bool,
    pub event: PollEvent,
}

/// A run of realtime steps: the state it ends in and the actions it asked
/// for, in order.
pub open spec fn stream_run(course: Course, inputs: Seq<StreamInput>) -> (Course, Seq<Action>)
    decreases inputs.len(),
{
    if inputs.len() == 0 {
        (course, Seq::empty())
    } else {
        let (mid, actions) = stream_run(course, inputs.drop_last());
        let (next, action) = mid.stream(inputs.last().fired, inputs.last().event);
        (next, actions.push(action))
    }
}

/// A run of paced steps: the state it ends in and the actions it asked for,
/// in order.
pub open spec fn poll_run(course: Course, inputs: Seq<PollInput>) -> (Course, Seq<Action>)
    decreases inputs.len(),
{
    if inputs.len() == 0 {
        (course, Seq::empty())
    } else {
        let (mid, actions) = poll_run(course, inputs.drop_last());
        let (next, action) = mid.poll(inputs.last().fired, inputs.last().event);
        (next, actions.push(action))
    }
}

/// The events that a sequence of actions hands to the sink, in order.
pub open spec fn deliveries(actions: Seq<Action>) -> Seq<ChainEvent>
    decreases actions.len(),
{
    if actions.len() == 0 {
        Seq::empty()
    } else {
        let earlier = deliveries(actions.drop_last());
        match actions.last() {
            Action::Deliver(event) => earlier.push(event),
            _ => earlier,
        }
    }
}

/// The moments of the ticks that a run of paced steps honoured, in order.
pub open spec fn honoured(course: Course, inputs: Seq<PollInput>) -> Seq<Span>
    decreases inputs.len(),
{
    if inputs.len() == 0 {
        Seq::empty()
    } else {
        let earlier = honoured(course, inputs.drop_last());
        let mid = poll_run(course, inputs.drop_last()).0;
        match (mid.poll(inputs.last().fired, inputs.last().event).1, inputs.last().event) {
            (Action::FetchHeight, PollEvent::Tick(at)) => earlier.push(at),
            _ => earlier,
        }
    }
}

/// Announced blocks as the inputs of steps at which the signal had not
/// fired.
pub open spec fn quiet_blocks(blocks: Seq<Sighting>) -> Seq<StreamInput> {
    Seq::new(
        blocks.len(),
        |i: int| StreamInput { fired: false, event: StreamEvent::Block(blocks[i]) },
    )
}

/// One if a height query is under way, else zero.
pub open spec fn queries_under_way(phase: Phase) -> nat {
    if phase is AwaitingHeight {
        1
    } else {
        0
    }
}

/// The deliveries of a sequence of actions with one more at its end.
pub proof fn lemma_deliveries_push(actions: Seq<Action>, action: Action)
    ensures
        deliveries(actions.push(action)) == match action {
            Action::Deliver(event) => deliveries(actions).push(event),
            _ => deliveries(actions),
        },
{
    assert(actions.push(action).drop_last() =~= actions);
}

/// The deliveries of two sequences of actions, one after the other.
pub proof fn lemma_deliveries_split(first: Seq<Action>, second: Seq<Action>)
    ensures
        deliveries(first + second) == deliveries(first) + deliveries(second),
    decreases second.len(),
{
    if second.len() == 0 {
        assert(first + second =~= first);
        assert(deliveries(first) + deliveries(second) =~= deliveries(first));
    } else {
        assert((first + second).drop_last() =~= first + second.drop_last());
        assert((first + second).last() == second.last());
        lemma_deliveries_split(first, second.drop_last());
        assert(deliveries(first + second) =~= deliveries(first) + deliveries(second));
    }
}

/// A run of realtime steps in two parts.
pub proof fn lemma_stream_run_split(course: Course, first: Seq<StreamInput>, second: Seq<StreamInput>)
    ensures
        stream_run(course, first + second).0 == stream_run(
            stream_run(course, first).0,
            second,
        ).0,
        stream_run(course, first + second).1 == stream_run(course, first).1 + stream_run(
            stream_run(course, first).0,
            second,
        ).1,
    decreases second.len(),
{
    let mid = stream_run(course, first).0;
    if second.len() == 0 {
        assert(first + second =~= first);
        assert(stream_run(course, first).1 + stream_run(mid, second).1 =~= stream_run(
            course,
            first,
        ).1);
    } else {
        assert((first + second).drop_last() =~= first + second.drop_last());
        assert((first + second).last() == second.last());
        lemma_stream_run_split(course, first, second.drop_last());
        assert(stream_run(course, first + second).1 =~= stream_run(course, first).1 + stream_run(
            mid,
            second,
        ).1);
    }
}

/// Realtime steps change nothing and deliver nothing unless the run is in
/// realtime mode and under way.
pub proof fn lemma_stream_run_at_rest(course: Course, inputs: Seq<StreamInput>)
    requires
        !(course.phase is Subscribing || course.phase is Streaming),
    ensures
        stream_run(course, inputs).0 == course,
        deliveries(stream_run(course, inputs).1) == Seq::<ChainEvent>::empty(),
    decreases inputs.len(),
{
    if inputs.len() > 0 {
        lemma_stream_run_at_rest(course, inputs.drop_last());
        lemma_deliveries_push(
            stream_run(course, inputs.drop_last()).1,
            course.stream(inputs.last().fired, inputs.last().event).1,
        );
    }
}

/// How many of `count` announced blocks a run can still observe: all of
/// them, unless the positions run out first.
pub open spec fn served(course: Course, count: nat) -> nat {
    if course.next_position + count <= u64::MAX {
        count
    } else {
        (u64::MAX - course.next_position) as nat
    }
}

/// Announced blocks, taken while the signal is quiet, become one
/// observation each, in the order of announcement, for as long as positions
/// are left; the run ends where they run out.
pub proof fn lemma_blocks_are_observed(course: Course, blocks: Seq<Sighting>)
    requires
        course.phase is Streaming,
    ensures
        stream_run(course, quiet_blocks(blocks)).0.phase == if course.next_position + blocks.len()
            <= u64::MAX {
            Phase::Streaming
        } else {
            Phase::Stopped(StopReason::PositionsExhausted)
        },
        stream_run(course, quiet_blocks(blocks)).0.next_position == course.next_position + served(
            course,
            blocks.len(),
        ),
        deliveries(stream_run(course, quiet_blocks(blocks)).1).len() == served(
            course,
            blocks.len(),
        ),
        forall|i: int|
            0 <= i < served(course, blocks.len()) ==> (#[trigger] deliveries(
                stream_run(course, quiet_blocks(blocks)).1,
            )[i]).observation == (BlockObservation {
                height: blocks[i].height,
                id: blocks[i].id,
                observed_at: (course.next_position + i) as u64,
            }),
    decreases blocks.len(),
{
    if blocks.len() > 0 {
        let earlier = blocks.drop_last();
        lemma_blocks_are_observed(course, earlier);
        assert(quiet_blocks(blocks).drop_last() =~= quiet_blocks(earlier));
        assert(quiet_blocks(blocks).last().event == StreamEvent::Block(blocks.last()));
        let mid = stream_run(course, quiet_blocks(earlier)).0;
        lemma_deliveries_push(
            stream_run(course, quiet_blocks(earlier)).1,
            mid.stream(false, StreamEvent::Block(blocks.last())).1,
        );
    }
}

/// Once the shutdown signal has been observed, nothing more is delivered:
/// the sink has received exactly what the steps before the signal handed to
/// it, whatever event stood beside the signal and whatever arrives after it.
pub proof fn law_shutdown_cuts_deliveries(
    course: Course,
    before: Seq<StreamInput>,
    beside: StreamEvent,
    after: Seq<StreamInput>,
)
    ensures
        deliveries(
            stream_run(
                course,
                before + seq![StreamInput { fired: true, event: beside }] + after,
            ).1,
        ) == deliveries(stream_run(course, before).1),
{
    let signal = seq![StreamInput { fired: true, event: beside }];
    let mid = stream_run(course, before).0;
    let halted = stream_run(mid, signal).0;
    lemma_stream_run_split(course, before + signal, after);
    lemma_stream_run_split(course, before, signal);
    assert(signal.drop_last() =~= Seq::<StreamInput>::empty());
    assert(stream_run(mid, signal.drop_last()).0 == mid);
    assert(stream_run(mid, signal.drop_last()).1 =~= Seq::<Action>::empty());
    assert(halted == mid.stream(true, beside).0);
    let step = mid.stream(true, beside).1;
    assert(stream_run(mid, signal).1 =~= seq![step]);
    assert(!(step is Deliver));
    lemma_deliveries_push(Seq::<Action>::empty(), step);
    assert(Seq::<Action>::empty().push(step) =~= seq![step]);
    lemma_stream_run_at_rest(halted, after);
    lemma_deliveries_split(stream_run(course, before + signal).1, stream_run(halted, after).1);
    lemma_deliveries_split(stream_run(course, before).1, stream_run(mid, signal).1);
    assert(deliveries(stream_run(course, before + signal + after).1) =~= deliveries(
        stream_run(course, before).1,
    ));
}

/// Blocks announced before the shutdown signal is observed reach the sink
/// once each, in the order of announcement and at consecutive positions, for
/// as long as positions are left; nothing that arrives with the signal or
/// after it does.
pub proof fn law_blocks_then_shutdown(
    course: Course,
    blocks: Seq<Sighting>,
    beside: StreamEvent,
    after: Seq<StreamInput>,
)
    requires
        course.phase is Streaming,
    ensures
        deliveries(
            stream_run(
                course,
                quiet_blocks(blocks) + seq![StreamInput { fired: true, event: beside }] + after,
            ).1,
        ).len() == served(course, blocks.len()),
        forall|i: int|
            0 <= i < served(course, blocks.len()) ==> (#[trigger] deliveries(
                stream_run(
                    course,
                    quiet_blocks(blocks) + seq![StreamInput { fired: true, event: beside }]
                        + after,
                ).1,
            )[i]).observation == (BlockObservation {
                height: blocks[i].height,
                id: blocks[i].id,
                observed_at: (course.next_position + i) as u64,
            }),
{
    law_shutdown_cuts_deliveries(course, quiet_blocks(blocks), beside, after);
    lemma_blocks_are_observed(course, blocks);
}

/// A run of paced steps in two parts.
pub proof fn lemma_poll_run_split(course: Course, first: Seq<PollInput>, second: Seq<PollInput>)
    ensures
        poll_run(course, first + second).0 == poll_run(poll_run(course, first).0, second).0,
        poll_run(course, first + second).1 == poll_run(course, first).1 + poll_run(
            poll_run(course, first).0,
            second,
        ).1,
    decreases second.len(),
{
    let mid = poll_run(course, first).0;
    if second.len() == 0 {
        assert(first + second =~= first);
        assert(poll_run(course, first).1 + poll_run(mid, second).1 =~= poll_run(course, first).1);
    } else {
        assert((first + second).drop_last() =~= first + second.drop_last());
        assert((first + second).last() == second.last());
        lemma_poll_run_split(course, first, second.drop_last());
        assert(poll_run(course, first + second).1 =~= poll_run(course, first).1 + poll_run(
            mid,
            second,
        ).1);
    }
}

/// Paced steps change nothing and deliver nothing unless the run is in
/// paced mode and under way.
pub proof fn lemma_poll_run_at_rest(course: Course, inputs: Seq<PollInput>)
    requires
        !(course.phase is AwaitingTick || course.phase is AwaitingHeight),
    ensures
        poll_run(course, inputs).0 == course,
        deliveries(poll_run(course, inputs).1) == Seq::<ChainEvent>::empty(),
    decreases inputs.len(),
{
    if inputs.len() > 0 {
        lemma_poll_run_at_rest(course, inputs.drop_last());
        lemma_deliveries_push(
            poll_run(course, inputs.drop_last()).1,
            course.poll(inputs.last().fired, inputs.last().event).1,
        );
    }
}

/// In paced mode too, nothing is delivered once the shutdown signal has been
/// observed: a height that arrives beside the signal, or after it, is
/// dropped.
pub proof fn law_shutdown_cuts_polling(
    course: Course,
    before: Seq<PollInput>,
    beside: PollEvent,
    after: Seq<PollInput>,
)
    ensures
        deliveries(
            poll_run(course, before + seq![PollInput { fired: true, event: beside }] + after).1,
        ) == deliveries(poll_run(course, before).1),
{
    let signal = seq![PollInput { fired: true, event: beside }];
    let mid = poll_run(course, before).0;
    let halted = poll_run(mid, signal).0;
    lemma_poll_run_split(course, before + signal, after);
    lemma_poll_run_split(course, before, signal);
    assert(signal.drop_last() =~= Seq::<PollInput>::empty());
    assert(poll_run(mid, signal.drop_last()).0 == mid);
    assert(poll_run(mid, signal.drop_last()).1 =~= Seq::<Action>::empty());
    assert(halted == mid.poll(true, beside).0);
    let step = mid.poll(true, beside).1;
    assert(poll_run(mid, signal).1 =~= seq![step]);
    assert(!(step is Deliver));
    lemma_deliveries_push(Seq::<Action>::empty(), step);
    assert(Seq::<Action>::empty().push(step) =~= seq![step]);
    lemma_poll_run_at_rest(halted, after);
    lemma_deliveries_split(poll_run(course, before + signal).1, poll_run(halted, after).1);
    lemma_deliveries_split(poll_run(course, before).1, poll_run(mid, signal).1);
    assert(deliveries(poll_run(course, before + signal + after).1) =~= deliveries(
        poll_run(course, before).1,
    ));
}

/// No observation is delivered twice: whatever a realtime run is given, the
/// observations it delivers take consecutive positions, starting where the
/// run stood.
pub proof fn law_stream_positions_are_consecutive(course: Course, inputs: Seq<StreamInput>)
    ensures
        stream_run(course, inputs).0.next_position == course.next_position + deliveries(
            stream_run(course, inputs).1,
        ).len(),
        forall|i: int|
            0 <= i < deliveries(stream_run(course, inputs).1).len() ==> (#[trigger] deliveries(
                stream_run(course, inputs).1,
            )[i]).observation.observed_at == course.next_position + i,
    decreases inputs.len(),
{
    if inputs.len() > 0 {
        law_stream_positions_are_consecutive(course, inputs.drop_last());
        let mid = stream_run(course, inputs.drop_last()).0;
        lemma_deliveries_push(
            stream_run(course, inputs.drop_last()).1,
            mid.stream(inputs.last().fired, inputs.last().event).1,
        );
    }
}

/// The same of a paced run: the observations it delivers take consecutive
/// positions, starting where the run stood.
pub proof fn law_poll_positions_are_consecutive(course: Course, inputs: Seq<PollInput>)
    ensures
        poll_run(course, inputs).0.next_position == course.next_position + deliveries(
            poll_run(course, inputs).1,
        ).len(),
        forall|i: int|
            0 <= i < deliveries(poll_run(course, inputs).1).len() ==> (#[trigger] deliveries(
                poll_run(course, inputs).1,
            )[i]).observation.observed_at == course.next_position + i,
    decreases inputs.len(),
{
    if inputs.len() > 0 {
        law_poll_positions_are_consecutive(course, inputs.drop_last());
        let mid = poll_run(course, inputs.drop_last()).0;
        lemma_deliveries_push(
            poll_run(course, inputs.drop_last()).1,
            mid.poll(inputs.last().fired, inputs.last().event).1,
        );
    }
}

/// Ticks are honoured at least one interval apart: each honoured tick comes
/// no sooner than one interval after the honoured tick before it, the first
/// of a run no sooner than one interval after the last tick honoured before
/// the run.
pub proof fn law_ticks_keep_the_pace(course: Course, inputs: Seq<PollInput>)
    ensures
        poll_run(course, inputs).0.interval == course.interval,
        poll_run(course, inputs).0.last_tick == if honoured(course, inputs).len() > 0 {
            Some(honoured(course, inputs).last())
        } else {
            course.last_tick
        },
        honoured(course, inputs).len() > 0 && course.last_tick is Some ==> honoured(
            course,
            inputs,
        )[0].nanos >= course.last_tick->0.nanos + course.interval.nanos,
        forall|i: int|
            0 <= i < honoured(course, inputs).len() - 1 ==> (#[trigger] honoured(
                course,
                inputs,
            )[i + 1]).nanos >= honoured(course, inputs)[i].nanos + course.interval.nanos,
    decreases inputs.len(),
{
    if inputs.len() > 0 {
        law_ticks_keep_the_pace(course, inputs.drop_last());
    }
}

/// No observation without a tick of its own: a run delivers at most as many
/// observations as it honoured ticks, counting a query that was under way
/// when the run began and leaving out one that is under way when it ends.
pub proof fn law_one_observation_per_tick(course: Course, inputs: Seq<PollInput>)
    ensures
        deliveries(poll_run(course, inputs).1).len() + queries_under_way(
            poll_run(course, inputs).0.phase,
        ) <= honoured(course, inputs).len() + queries_under_way(course.phase),
    decreases inputs.len(),
{
    if inputs.len() > 0 {
        law_one_observation_per_tick(course, inputs.drop_last());
        let mid = poll_run(course, inputs.drop_last()).0;
        lemma_deliveries_push(
            poll_run(course, inputs.drop_last()).1,
            mid.poll(inputs.last().fired, inputs.last().event).1,
        );
    }
}

/// A height that is final stays final through every realtime step.
pub proof fn law_stream_keeps_final(course: Course, inputs: Seq<StreamInput>, height: u64)
    requires
        course.ledger.is_final(height),
    ensures
        stream_run(course, inputs).0.ledger.is_final(height),
    decreases inputs.len(),
{
    if inputs.len() > 0 {
        law_stream_keeps_final(course, inputs.drop_last(), height);
        let mid = stream_run(course, inputs.drop_last()).0;
        match inputs.last().event {
            StreamEvent::Block(sighting) => {
                law_final_stays_final(mid.ledger, mid.threshold, sighting, height);
            },
            _ => {},
        }
    }
}

/// A height that is final stays final through every paced step.
pub proof fn law_poll_keeps_final(course: Course, inputs: Seq<PollInput>, height: u64)
    requires
        course.ledger.is_final(height),
    ensures
        poll_run(course, inputs).0.ledger.is_final(height),
    decreases inputs.len(),
{
    if inputs.len() > 0 {
        law_poll_keeps_final(course, inputs.drop_last(), height);
        let mid = poll_run(course, inputs.drop_last()).0;
        match inputs.last().event {
            PollEvent::Height(at) => {
                law_final_stays_final(
                    mid.ledger,
                    mid.threshold,
                    Sighting { height: at, id: BlockId::Unknown },
                    height,
                );
            },
            _ => {},
        }
    }
}

} // verus!
