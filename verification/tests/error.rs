use nats_jetstream_pull_consumer::WorkerError;

#[test]
fn test_error_display_nats() {
    let err = WorkerError::Nats("connection refused".into());
    assert_eq!(err.message(), "nats: connection refused");
}

#[test]
fn test_error_display_batch_stream() {
    let err = WorkerError::BatchStream("timeout".into());
    assert_eq!(err.message(), "nats batch stream: timeout");
}

#[test]
fn test_error_display_stream() {
    let err = WorkerError::Stream("disconnected".into());
    assert_eq!(err.message(), "nats stream: disconnected");
}

#[test]
fn test_error_display_stopped() {
    let err = WorkerError::Stopped("shutdown".into());
    assert_eq!(err.message(), "worker stopped: shutdown");
}

#[test]
fn test_error_from_anyhow() {
    let anyhow_err = anyhow::Error::msg("something went wrong");
    let err: WorkerError = anyhow_err.into();
    assert!(matches!(err, WorkerError::Interceptor(_)));
}

#[test]
fn error_display_batch_fetch() {
    let err = WorkerError::BatchFetch("no responders".into());
    assert_eq!(err.message(), "nats batch fetch: no responders");
}

#[test]
fn error_display_interceptor() {
    let err = WorkerError::from(anyhow::Error::msg("bad payload"));
    assert_eq!(err.message(), "interceptor: bad payload");
}
