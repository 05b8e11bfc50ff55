use nats_jetstream_pull_consumer::runner::{
    BatchAction, BatchEvent, BatchState, MessageAck, MessageAction, MessageEvent, MessagePhase,
};
use nats_jetstream_pull_consumer::{ErrorStrategy, NatsConfig, Runner, RunnerConfig, WorkerError};

fn runner_with(strategy: ErrorStrategy) -> Runner<u8> {
    let conf = RunnerConfig { error_strategy: strategy, ..RunnerConfig::default() };
    Runner::new(conf)
}

#[test]
fn test_runner_config_defaults() {
    let conf = RunnerConfig::default();
    assert_eq!(conf.max_concurrency, 4);
    assert_eq!(conf.batch_size, 10);
    assert_eq!(conf.flush_interval_ms, 1000);
    assert_eq!(conf.ack_extension_interval_ms, 10_000);
    assert!(matches!(conf.error_strategy, ErrorStrategy::Log));
}

#[test]
fn test_runner_new() {
    let conf = RunnerConfig::default();
    let runner = Runner::<u8>::new(conf);
    assert!(runner.chain().is_empty());
}

#[test]
fn nats_config_defaults() {
    let conf = NatsConfig::default();
    assert_eq!(conf.endpoint, "nats://localhost:4222");
    assert_eq!(conf.stream, "");
    assert_eq!(conf.consumer, "");
}

#[test]
fn with_interceptor_appends_in_order() {
    let runner = Runner::new(RunnerConfig::default()).with_interceptor(7u8).with_interceptor(9u8);
    assert_eq!(runner.chain().len(), 2);
    assert_eq!(*runner.chain().get(0), 7);
    assert_eq!(*runner.chain().get(1), 9);
    assert_eq!(runner.config().batch_size, 10);
}

#[test]
fn settle_message_success_acks() {
    let (ack, verdict) = runner_with(ErrorStrategy::Stop).settle_message(Ok(()));
    assert_eq!(ack, MessageAck::Ack);
    assert!(verdict.is_ok());
}

#[test]
fn settle_message_failure_under_log_naks_and_continues() {
    let (ack, verdict) = runner_with(ErrorStrategy::Log).settle_message(Err(anyhow::Error::msg("nope")));
    assert_eq!(ack, MessageAck::Nak);
    assert!(verdict.is_ok());
}

#[test]
fn settle_message_failure_under_stop_naks_and_stops() {
    let (ack, verdict) = runner_with(ErrorStrategy::Stop).settle_message(Err(anyhow::Error::msg("nope")));
    assert_eq!(ack, MessageAck::Nak);
    match verdict {
        Err(WorkerError::Stopped(m)) => assert_eq!(m, "nope"),
        _ => panic!("expected a stop"),
    }
}

#[test]
fn settle_batch_partial_failure() {
    let outcome = Ok(vec![Ok(()), Err(anyhow::Error::msg("x")), Ok(())]);
    let (acks, verdict) = runner_with(ErrorStrategy::Stop).settle_batch(3, outcome);
    assert_eq!(acks, vec![MessageAck::Ack, MessageAck::Nak, MessageAck::Ack]);
    assert!(verdict.is_ok());
}

#[test]
fn settle_batch_missing_outcomes_are_naked() {
    let outcome = Ok(vec![Ok(())]);
    let (acks, verdict) = runner_with(ErrorStrategy::Log).settle_batch(3, outcome);
    assert_eq!(acks, vec![MessageAck::Ack, MessageAck::Nak, MessageAck::Nak]);
    assert!(verdict.is_ok());
}

#[test]
fn settle_batch_whole_failure_under_log() {
    let (acks, verdict) = runner_with(ErrorStrategy::Log).settle_batch(2, Err(anyhow::Error::msg("down")));
    assert_eq!(acks, vec![MessageAck::Nak, MessageAck::Nak]);
    assert!(verdict.is_ok());
}

#[test]
fn settle_batch_whole_failure_under_stop() {
    let (acks, verdict) = runner_with(ErrorStrategy::Stop).settle_batch(2, Err(anyhow::Error::msg("down")));
    assert_eq!(acks, vec![MessageAck::Nak, MessageAck::Nak]);
    match verdict {
        Err(WorkerError::Stopped(m)) => assert_eq!(m, "handler error; error strategy is Stop"),
        _ => panic!("expected a stop"),
    }
}

#[test]
fn batch_worker_cycle() {
    let runner = runner_with(ErrorStrategy::Log);
    let (state, action) = runner.batch_start();
    assert_eq!(state, BatchState::Polling);
    assert!(matches!(action, BatchAction::Fetch));

    let (state, action) = runner.batch_step(state, BatchEvent::Fetched(0));
    assert_eq!(state, BatchState::Polling);
    assert!(matches!(action, BatchAction::Fetch));

    let (state, action) = runner.batch_step(state, BatchEvent::Fetched(2));
    assert_eq!(state, BatchState::Fetched { count: 2 });
    assert!(matches!(action, BatchAction::Decode));

    let (state, action) = runner.batch_step(state, BatchEvent::Decoded);
    assert_eq!(state, BatchState::Decoded { count: 2 });
    assert!(matches!(action, BatchAction::Process));

    let outcome = Ok(vec![Err(anyhow::Error::msg("bad")), Ok(())]);
    let (state, action) = runner.batch_step(state, BatchEvent::Processed(outcome));
    assert_eq!(state, BatchState::Polling);
    match action {
        BatchAction::Settle { acks, stop } => {
            assert_eq!(acks, vec![MessageAck::Nak, MessageAck::Ack]);
            assert!(stop.is_none());
        }
        _ => panic!("expected settlement"),
    }

    let (state, action) = runner.batch_step(state, BatchEvent::Cancelled);
    assert_eq!(state, BatchState::Finished);
    assert!(matches!(action, BatchAction::Finish(Ok(()))));
}

#[test]
fn batch_worker_stops_on_batch_failure_under_stop() {
    let runner = runner_with(ErrorStrategy::Stop);
    let state = BatchState::Decoded { count: 1 };
    let (state, action) = runner.batch_step(state, BatchEvent::Processed(Err(anyhow::Error::msg("down"))));
    assert_eq!(state, BatchState::Finished);
    match action {
        BatchAction::Settle { acks, stop: Some(WorkerError::Stopped(m)) } => {
            assert_eq!(acks, vec![MessageAck::Nak]);
            assert_eq!(m, "handler error; error strategy is Stop");
        }
        _ => panic!("expected settlement and stop"),
    }
}

#[test]
fn batch_worker_stops_on_refused_message() {
    let runner = runner_with(ErrorStrategy::Log);
    let (state, action) = runner.batch_step(BatchState::Fetched { count: 3 }, BatchEvent::DecodeFailed(anyhow::Error::msg("empty payload")));
    assert_eq!(state, BatchState::Finished);
    match action {
        BatchAction::Finish(Err(e)) => assert_eq!(e.message(), "interceptor: empty payload"),
        _ => panic!("expected a stop"),
    }
}

#[test]
fn batch_worker_stops_on_fetch_failure() {
    let runner = runner_with(ErrorStrategy::Log);
    let (state, action) = runner.batch_step(BatchState::Polling, BatchEvent::FetchFailed(WorkerError::BatchStream("timeout".into())));
    assert_eq!(state, BatchState::Finished);
    match action {
        BatchAction::Finish(Err(WorkerError::BatchStream(m))) => assert_eq!(m, "timeout"),
        _ => panic!("expected a stop"),
    }
}

#[test]
fn batch_state_expects_its_events() {
    assert!(BatchState::Polling.expects(&BatchEvent::Cancelled));
    assert!(BatchState::Polling.expects(&BatchEvent::Fetched(3)));
    assert!(!BatchState::Polling.expects(&BatchEvent::Decoded));
    assert!(BatchState::Fetched { count: 1 }.expects(&BatchEvent::Decoded));
    assert!(!BatchState::Fetched { count: 1 }.expects(&BatchEvent::Cancelled));
    assert!(BatchState::Decoded { count: 1 }.expects(&BatchEvent::Processed(Ok(vec![]))));
    assert!(!BatchState::Finished.expects(&BatchEvent::Cancelled));
}

#[test]
fn fetch_request_follows_config() {
    let conf = RunnerConfig { batch_size: 25, flush_interval_ms: 250, ..RunnerConfig::default() };
    let runner = Runner::<u8>::new(conf);
    assert_eq!(runner.fetch_request(), (25, 250));
}

#[test]
fn stream_message_is_decoded_before_processing() {
    let runner = runner_with(ErrorStrategy::Stop);
    let (phase, action) = runner.message_start();
    assert_eq!(phase, MessagePhase::Received);
    assert!(matches!(action, MessageAction::Decode));
    assert!(!phase.expects(&MessageEvent::Processed(Ok(()))));

    let (phase, action) = runner.message_step(phase, MessageEvent::Decoded);
    assert_eq!(phase, MessagePhase::Decoded);
    assert!(matches!(action, MessageAction::Process));

    let (phase, action) = runner.message_step(phase, MessageEvent::Processed(Ok(())));
    assert_eq!(phase, MessagePhase::Done);
    assert!(matches!(action, MessageAction::Settle { ack: MessageAck::Ack, verdict: Ok(()) }));
}

#[test]
fn stream_refused_message_never_reaches_handler() {
    let runner = runner_with(ErrorStrategy::Log);
    let (phase, action) = runner.message_step(MessagePhase::Received, MessageEvent::DecodeFailed(anyhow::Error::msg("empty payload")));
    assert_eq!(phase, MessagePhase::Done);
    match action {
        MessageAction::Fail(e) => assert_eq!(e.message(), "interceptor: empty payload"),
        _ => panic!("expected a stop"),
    }
}

#[test]
fn stream_failed_message_under_stop() {
    let runner = runner_with(ErrorStrategy::Stop);
    let (_, action) = runner.message_step(MessagePhase::Decoded, MessageEvent::Processed(Err(anyhow::Error::msg("bad"))));
    match action {
        MessageAction::Settle { ack: MessageAck::Nak, verdict: Err(WorkerError::Stopped(m)) } => assert_eq!(m, "bad"),
        _ => panic!("expected a nak and a stop"),
    }
}
