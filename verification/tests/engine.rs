use lasso::listeners::engine::{
    Action, Connection, Phase, PollEvent, Progress, StopReason, StreamEvent,
};
use lasso::listeners::observation::{
    BlockId, BlockObservation, ChainEvent, Sighting, Standing, Verdict,
};
use lasso::listeners::pacing::Span;

fn block(height: u64, lo: u128) -> StreamEvent {
    StreamEvent::Block(Sighting { height, id: BlockId::Hash { hi: 0, lo } })
}

fn streaming(threshold: u64) -> Progress {
    let mut progress = Progress::new();
    assert_eq!(
        progress.begin(1, threshold, None, Connection::Connected { chain_id: 1 }),
        Action::Subscribe
    );
    assert_eq!(progress.advance_stream(false, StreamEvent::Subscribed), Action::Idle);
    progress
}

fn polling(threshold: u64, interval: Span) -> Progress {
    let mut progress = Progress::new();
    assert_eq!(
        progress.begin(1, threshold, Some(interval), Connection::Connected { chain_id: 1 }),
        Action::StartTimer(interval)
    );
    progress
}

#[test]
fn new_run_is_idle() {
    let progress = Progress::new();
    assert_eq!(progress.phase(), Phase::Idle);
    assert_eq!(progress.observed(), 0);
    assert_eq!(progress.final_below(), 0);
}

#[test]
fn idle_run_takes_no_event() {
    let mut progress = Progress::new();
    assert_eq!(progress.advance_stream(false, block(1, 1)), Action::Idle);
    assert_eq!(progress.advance_stream(true, block(1, 1)), Action::Idle);
    assert_eq!(progress.advance_poll(false, PollEvent::Tick(Span::from_secs(0))), Action::Idle);
    assert_eq!(progress.advance_poll(true, PollEvent::Height(5)), Action::Idle);
    assert_eq!(progress.heed(true), Action::Idle);
    assert_eq!(progress.phase(), Phase::Idle);
    assert_eq!(progress.observed(), 0);
}

#[test]
fn unreachable_endpoint_ends_the_run_at_start() {
    let mut progress = Progress::new();
    let action = progress.begin(1, 7, None, Connection::Unreachable);
    assert_eq!(action, Action::Halt(StopReason::Unreachable));
    assert_eq!(progress.phase(), Phase::Stopped(StopReason::Unreachable));
    assert_eq!(
        progress.begin(1, 7, None, Connection::Connected { chain_id: 1 }),
        Action::Halt(StopReason::Unreachable)
    );
}

#[test]
fn other_chain_ends_the_run_at_start() {
    let mut progress = Progress::new();
    let action = progress.begin(1, 7, None, Connection::Connected { chain_id: 5 });
    assert_eq!(action, Action::Halt(StopReason::ChainMismatch));
    assert_eq!(progress.phase(), Phase::Stopped(StopReason::ChainMismatch));
}

#[test]
fn start_selects_the_mode_from_the_interval() {
    let mut realtime = Progress::new();
    assert_eq!(
        realtime.begin(10, 7, None, Connection::Connected { chain_id: 10 }),
        Action::Subscribe
    );
    assert_eq!(realtime.phase(), Phase::Subscribing);
    let mut paced = Progress::new();
    assert_eq!(
        paced.begin(10, 7, Some(Span::from_secs(5)), Connection::Connected { chain_id: 10 }),
        Action::StartTimer(Span { nanos: 5_000_000_000 })
    );
    assert_eq!(paced.phase(), Phase::AwaitingTick);
}

#[test]
fn second_start_changes_nothing() {
    let mut progress = streaming(7);
    progress.advance_stream(false, block(100, 1));
    assert_eq!(
        progress.begin(1, 0, Some(Span::from_secs(1)), Connection::Unreachable),
        Action::Idle
    );
    assert_eq!(progress.phase(), Phase::Streaming);
    assert_eq!(progress.observed(), 1);
}

#[test]
fn failed_subscription_ends_the_run() {
    let mut progress = Progress::new();
    progress.begin(1, 7, None, Connection::Connected { chain_id: 1 });
    assert_eq!(
        progress.advance_stream(false, StreamEvent::SubscribeFailed),
        Action::Halt(StopReason::SubscriptionFailed)
    );
    assert_eq!(progress.phase(), Phase::Stopped(StopReason::SubscriptionFailed));
}

#[test]
fn blocks_before_the_subscription_stands_are_not_observed() {
    let mut progress = Progress::new();
    progress.begin(1, 7, None, Connection::Connected { chain_id: 1 });
    assert_eq!(progress.advance_stream(false, block(100, 1)), Action::Idle);
    assert_eq!(progress.advance_stream(false, StreamEvent::Ended), Action::Idle);
    assert_eq!(progress.phase(), Phase::Subscribing);
    assert_eq!(progress.observed(), 0);
}

#[test]
fn each_block_becomes_one_observation_in_order() {
    let mut progress = streaming(7);
    let heights = vec![100u64, 101, 102];
    for (position, height) in heights.iter().enumerate() {
        let action = progress.advance_stream(false, block(*height, *height as u128));
        assert_eq!(
            action,
            Action::Deliver(ChainEvent {
                observation: BlockObservation {
                    height: *height,
                    id: BlockId::Hash { hi: 0, lo: *height as u128 },
                    observed_at: position as u64,
                },
                verdict: Verdict {
                    standing: Standing::Fresh,
                    settled_from: if position == 0 { 0 } else { *height - 8 },
                    settled_below: *height - 7,
                },
            })
        );
    }
    assert_eq!(progress.observed(), 3);
    assert_eq!(progress.final_below(), 95);
    assert_eq!(progress.phase(), Phase::Streaming);
}

#[test]
fn shutdown_wins_over_the_event_beside_it() {
    let mut progress = streaming(7);
    progress.advance_stream(false, block(100, 1));
    let action = progress.advance_stream(true, block(101, 2));
    assert_eq!(action, Action::Halt(StopReason::Shutdown));
    assert_eq!(progress.phase(), Phase::Stopped(StopReason::Shutdown));
    assert_eq!(progress.observed(), 1);
}

#[test]
fn nothing_is_observed_after_shutdown() {
    let mut progress = streaming(7);
    progress.advance_stream(false, block(100, 1));
    progress.advance_stream(true, StreamEvent::Ended);
    for height in 101..110u64 {
        assert_eq!(
            progress.advance_stream(false, block(height, 1)),
            Action::Halt(StopReason::Shutdown)
        );
    }
    assert_eq!(progress.advance_poll(false, PollEvent::Height(7)), Action::Halt(StopReason::Shutdown));
    assert_eq!(progress.heed(false), Action::Halt(StopReason::Shutdown));
    assert_eq!(progress.observed(), 1);
    assert_eq!(progress.final_below(), 93);
}

#[test]
fn end_of_stream_ends_the_run() {
    let mut progress = streaming(7);
    assert_eq!(
        progress.advance_stream(false, StreamEvent::Ended),
        Action::Halt(StopReason::StreamEnded)
    );
    assert_eq!(progress.phase(), Phase::Stopped(StopReason::StreamEnded));
    assert_eq!(progress.advance_stream(true, block(1, 1)), Action::Halt(StopReason::StreamEnded));
}

#[test]
fn heed_ends_a_run_under_way_only_when_fired() {
    let mut progress = streaming(7);
    assert_eq!(progress.heed(false), Action::Idle);
    assert_eq!(progress.phase(), Phase::Streaming);
    assert_eq!(progress.heed(true), Action::Halt(StopReason::Shutdown));
    let mut paced = polling(7, Span::from_secs(5));
    assert_eq!(paced.heed(true), Action::Halt(StopReason::Shutdown));
    assert_eq!(paced.phase(), Phase::Stopped(StopReason::Shutdown));
}

#[test]
fn realtime_run_takes_no_poll_event() {
    let mut progress = streaming(7);
    assert_eq!(progress.advance_poll(false, PollEvent::Tick(Span::from_secs(0))), Action::Idle);
    assert_eq!(progress.advance_poll(true, PollEvent::Height(5)), Action::Idle);
    assert_eq!(progress.phase(), Phase::Streaming);
    let mut paced = polling(7, Span::from_secs(5));
    assert_eq!(paced.advance_stream(false, block(5, 5)), Action::Idle);
    assert_eq!(paced.advance_stream(true, block(5, 5)), Action::Idle);
    assert_eq!(paced.phase(), Phase::AwaitingTick);
}

#[test]
fn tick_asks_for_one_height_query() {
    let mut progress = polling(7, Span::from_secs(5));
    assert_eq!(
        progress.advance_poll(false, PollEvent::Tick(Span::from_secs(0))),
        Action::FetchHeight
    );
    assert_eq!(progress.phase(), Phase::AwaitingHeight);
    assert_eq!(progress.advance_poll(false, PollEvent::Tick(Span::from_secs(5))), Action::Idle);
    assert_eq!(progress.phase(), Phase::AwaitingHeight);
}

#[test]
fn height_becomes_an_observation_without_identifier() {
    let mut progress = polling(7, Span::from_secs(5));
    progress.advance_poll(false, PollEvent::Tick(Span::from_secs(0)));
    let action = progress.advance_poll(false, PollEvent::Height(50));
    assert_eq!(
        action,
        Action::Deliver(ChainEvent {
            observation: BlockObservation { height: 50, id: BlockId::Unknown, observed_at: 0 },
            verdict: Verdict { standing: Standing::Fresh, settled_from: 0, settled_below: 43 },
        })
    );
    assert_eq!(progress.phase(), Phase::AwaitingTick);
}

#[test]
fn tick_that_comes_too_early_is_passed_over() {
    let mut progress = polling(7, Span::from_secs(5));
    progress.advance_poll(false, PollEvent::Tick(Span::from_secs(3)));
    progress.advance_poll(false, PollEvent::Height(50));
    assert_eq!(
        progress.advance_poll(false, PollEvent::Tick(Span::from_nanos(7_999_999_999))),
        Action::Idle
    );
    assert_eq!(progress.phase(), Phase::AwaitingTick);
    assert_eq!(progress.advance_poll(false, PollEvent::Tick(Span::from_secs(2))), Action::Idle);
    assert_eq!(
        progress.advance_poll(false, PollEvent::Tick(Span::from_secs(8))),
        Action::FetchHeight
    );
}

#[test]
fn no_observation_between_ticks() {
    let mut progress = polling(7, Span::from_secs(5));
    assert_eq!(progress.advance_poll(false, PollEvent::Height(50)), Action::Idle);
    assert_eq!(progress.advance_poll(false, PollEvent::QueryFailed), Action::Idle);
    progress.advance_poll(false, PollEvent::Tick(Span::from_secs(0)));
    assert!(matches!(progress.advance_poll(false, PollEvent::Height(50)), Action::Deliver(_)));
    assert_eq!(progress.advance_poll(false, PollEvent::Height(51)), Action::Idle);
    assert_eq!(progress.advance_poll(false, PollEvent::Height(52)), Action::Idle);
    assert_eq!(progress.observed(), 1);
    assert_eq!(progress.phase(), Phase::AwaitingTick);
}

#[test]
fn failed_height_query_ends_the_run() {
    let mut progress = polling(7, Span::from_secs(5));
    progress.advance_poll(false, PollEvent::Tick(Span::from_secs(0)));
    assert_eq!(
        progress.advance_poll(false, PollEvent::QueryFailed),
        Action::Halt(StopReason::HeightQueryFailed)
    );
    assert_eq!(progress.phase(), Phase::Stopped(StopReason::HeightQueryFailed));
    assert_eq!(
        progress.advance_poll(false, PollEvent::Tick(Span::from_secs(5))),
        Action::Halt(StopReason::HeightQueryFailed)
    );
}

#[test]
fn shutdown_during_a_query_drops_its_answer() {
    let mut progress = polling(7, Span::from_secs(5));
    progress.advance_poll(false, PollEvent::Tick(Span::from_secs(0)));
    assert_eq!(
        progress.advance_poll(true, PollEvent::Height(50)),
        Action::Halt(StopReason::Shutdown)
    );
    assert_eq!(progress.observed(), 0);
    assert_eq!(progress.final_below(), 0);
}

#[test]
fn run_uses_the_threshold_it_was_started_with() {
    let mut shallow = streaming(0);
    let action = shallow.advance_stream(false, block(100, 1));
    assert!(matches!(
        action,
        Action::Deliver(ChainEvent { verdict: Verdict { settled_below: 100, .. }, .. })
    ));
    let mut deep = streaming(1000);
    let action = deep.advance_stream(false, block(100, 1));
    assert!(matches!(
        action,
        Action::Deliver(ChainEvent { verdict: Verdict { settled_below: 0, .. }, .. })
    ));
}

#[test]
fn reorganisation_is_reported_and_final_heights_stay_final() {
    let mut progress = streaming(2);
    progress.advance_stream(false, block(10, 1));
    progress.advance_stream(false, block(11, 2));
    let action = progress.advance_stream(false, block(11, 3));
    assert_eq!(
        action,
        Action::Deliver(ChainEvent {
            observation: BlockObservation {
                height: 11,
                id: BlockId::Hash { hi: 0, lo: 3 },
                observed_at: 2,
            },
            verdict: Verdict { standing: Standing::Reorganized, settled_from: 9, settled_below: 9 },
        })
    );
    let action = progress.advance_stream(false, block(8, 4));
    assert_eq!(
        action,
        Action::Deliver(ChainEvent {
            observation: BlockObservation {
                height: 8,
                id: BlockId::Hash { hi: 0, lo: 4 },
                observed_at: 3,
            },
            verdict: Verdict { standing: Standing::Settled, settled_from: 9, settled_below: 9 },
        })
    );
    assert_eq!(progress.final_below(), 9);
}

#[test]
fn chain_id_out_of_range_ends_the_run_at_start() {
    let mut progress = Progress::new();
    let action = progress.begin(1, 7, None, Connection::ChainOutOfRange);
    assert_eq!(action, Action::Halt(StopReason::ChainMismatch));
    assert_eq!(progress.phase(), Phase::Stopped(StopReason::ChainMismatch));
}

#[test]
fn zero_interval_ends_the_run_at_start() {
    let mut progress = Progress::new();
    let action =
        progress.begin(1, 7, Some(Span::from_nanos(0)), Connection::Connected { chain_id: 1 });
    assert_eq!(action, Action::Halt(StopReason::ZeroInterval));
    assert_eq!(progress.phase(), Phase::Stopped(StopReason::ZeroInterval));
    let mut shortest = Progress::new();
    let action =
        shortest.begin(1, 7, Some(Span::from_nanos(1)), Connection::Connected { chain_id: 1 });
    assert_eq!(action, Action::StartTimer(Span { nanos: 1 }));
}

#[test]
fn endpoint_is_judged_before_the_interval() {
    let mut progress = Progress::new();
    let action = progress.begin(1, 7, Some(Span::from_nanos(0)), Connection::Unreachable);
    assert_eq!(action, Action::Halt(StopReason::Unreachable));
    let mut progress = Progress::new();
    let action =
        progress.begin(1, 7, Some(Span::from_nanos(0)), Connection::Connected { chain_id: 9 });
    assert_eq!(action, Action::Halt(StopReason::ChainMismatch));
}

#[test]
fn block_without_a_number_is_passed_over() {
    let mut progress = streaming(7);
    assert_eq!(progress.advance_stream(false, StreamEvent::Unnumbered), Action::Idle);
    assert_eq!(progress.observed(), 0);
    assert_eq!(progress.phase(), Phase::Streaming);
    assert!(matches!(progress.advance_stream(false, block(5, 5)), Action::Deliver(_)));
    assert_eq!(
        progress.advance_stream(true, StreamEvent::Unnumbered),
        Action::Halt(StopReason::Shutdown)
    );
}
