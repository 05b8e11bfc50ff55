use nats_jetstream_pull_consumer::interceptor::ChainStep;
use nats_jetstream_pull_consumer::InterceptorChain;

struct DummyInterceptor;

#[test]
fn test_new_chain_is_empty() {
    let chain = InterceptorChain::<DummyInterceptor>::new();
    assert!(chain.is_empty());
    assert_eq!(chain.len(), 0);
}

#[test]
fn test_push_increases_len() {
    let mut chain = InterceptorChain::new();
    chain.push(DummyInterceptor);
    assert_eq!(chain.len(), 1);
    chain.push(DummyInterceptor);
    assert_eq!(chain.len(), 2);
}

#[test]
fn test_default_is_empty() {
    let chain = InterceptorChain::<DummyInterceptor>::default();
    assert!(chain.is_empty());
}

#[test]
fn push_keeps_order() {
    let mut chain = InterceptorChain::new();
    chain.push("first");
    chain.push("second");
    assert_eq!(*chain.get(0), "first");
    assert_eq!(*chain.get(1), "second");
}

/// Drives a chain whose interceptor at `i` reports `outcomes[i]`; returns the
/// positions run and the result.
fn drive(chain: &InterceptorChain<u8>, outcomes: &[Result<(), String>]) -> (Vec<usize>, Result<(), String>) {
    let mut visited = Vec::new();
    let mut step = chain.start();
    loop {
        match step {
            ChainStep::Intercept(i) => {
                visited.push(i);
                step = chain.advance(i, outcomes[i].clone());
            }
            ChainStep::Done(r) => return (visited, r),
        }
    }
}

#[test]
fn empty_chain_is_done_at_once() {
    let chain = InterceptorChain::<u8>::new();
    let (visited, result) = drive(&chain, &[]);
    assert!(visited.is_empty());
    assert!(result.is_ok());
}

#[test]
fn chain_runs_all_in_order_when_all_succeed() {
    let mut chain = InterceptorChain::new();
    chain.push(1u8);
    chain.push(2u8);
    chain.push(3u8);
    let (visited, result) = drive(&chain, &[Ok(()), Ok(()), Ok(())]);
    assert_eq!(visited, vec![0, 1, 2]);
    assert!(result.is_ok());
}

#[test]
fn chain_stops_at_first_failure() {
    let mut chain = InterceptorChain::new();
    chain.push(1u8);
    chain.push(2u8);
    chain.push(3u8);
    let (visited, result) = drive(&chain, &[Ok(()), Err("second".to_string()), Err("third".to_string())]);
    assert_eq!(visited, vec![0, 1]);
    assert_eq!(result, Err("second".to_string()));
}

#[test]
fn n_pushes_give_length_n() {
    for n in 0..20usize {
        let mut chain = InterceptorChain::new();
        for i in 0..n {
            chain.push(i);
        }
        assert_eq!(chain.len(), n);
        for i in 0..n {
            assert_eq!(*chain.get(i), i);
        }
    }
}
