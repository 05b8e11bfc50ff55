use nats_jetstream_pull_consumer::ErrorStrategy;

#[test]
fn test_default_is_log() {
    assert!(matches!(ErrorStrategy::default(), ErrorStrategy::Log));
}

#[test]
fn test_stop_returns_error() {
    let strategy = ErrorStrategy::Stop;
    let result = strategy.process_error(anyhow::Error::msg("test error"));
    assert!(result.is_err());
}

#[test]
fn test_log_returns_ok() {
    let strategy = ErrorStrategy::Log;
    let result = strategy.process_error(anyhow::Error::msg("test error"));
    assert!(result.is_ok());
}

#[test]
fn stop_hands_back_the_same_error() {
    let result = ErrorStrategy::Stop.process_error(anyhow::Error::msg("boom"));
    assert_eq!(result.unwrap_err().to_string(), "boom");
}
