//! The runner: its configuration, its interceptors, and the decisions its
//! workers make. Fetching, acknowledging and waiting happen outside this
//! library; the worker loop hands each outcome to the runner and performs
//! the action it gets back.

use vstd::prelude::*;
use vstd::string::to_string_from_display_ensures;
use crate::error::WorkerError;
use crate::error_strategy::ErrorStrategy;
use crate::interceptor::InterceptorChain;

verus! {

/// Settings of a runner.
#[derive(Debug, Clone, Copy)]
pub struct RunnerConfig {
    /// What a worker does when a handler fails.
    pub error_strategy: ErrorStrategy,
    /// How many messages a stream worker handles at once.
    pub max_concurrency: usize,
    /// How many messages a batch worker asks for at a time.
    pub batch_size: usize,
    /// How long a batch request waits for messages, in milliseconds.
    pub flush_interval_ms: u64,
    /// How often a stream worker tells the server that it is still working
    /// on a message, in milliseconds.
    pub ack_extension_interval_ms: u64,
}

impl Default for RunnerConfig {
    fn default() -> (r: Self)
        ensures
            r.error_strategy == ErrorStrategy::Log,
            r.max_concurrency == 4,
            r.batch_size == 10,
            r.flush_interval_ms == 1000,
            r.ack_extension_interval_ms == 10_000,
    {
        RunnerConfig {
            error_strategy: ErrorStrategy::Log,
            max_concurrency: 4,
            batch_size: 10,
            flush_interval_ms: 1000,
            ack_extension_interval_ms: 10_000,
        }
    }
}

/// How a message is settled with the server.
#[derive(Debug, Clone, Copy, PartialEq, Eq, Structural)]
pub enum MessageAck {
    /// The message was handled: acknowledge it.
    Ack,
    /// The message was not handled: ask for redelivery.
    Nak,
}

/// Where a batch worker stands.
#[derive(Debug, Clone, Copy, PartialEq, Eq, Structural)]
pub enum BatchState {
    /// Waiting for a batch.
    Polling,
    /// A batch of `count` messages arrived; its messages are being passed
    /// through the interceptors.
    Fetched { count: usize },
    /// Every message of a batch of `count` passed the interceptors; the
    /// handler has the batch.
    Decoded { count: usize },
    /// The worker is done.
    Finished,
}

/// What happened since the last action of a batch worker.
pub enum BatchEvent {
    /// Shutdown was asked for while waiting for a batch.
    Cancelled,
    /// A batch of this many messages arrived.
    Fetched(usize),
    /// Fetching or reading a batch failed.
    FetchFailed(WorkerError),
    /// Every message of the batch passed the interceptors.
    Decoded,
    /// An interceptor refused a message of the batch.
    DecodeFailed(anyhow::Error),
    /// The handler finished the batch: an error for the whole batch, or one
    /// outcome per message.
    Processed(Result<Vec<Result<(), anyhow::Error>>, anyhow::Error>),
}

/// What a batch worker does next.
pub enum BatchAction {
    /// Ask for the next batch.
    Fetch,
    /// Pass every message of the batch through the interceptors.
    Decode,
    /// Hand the batch to the handler.
    Process,
    /// Settle the messages of the batch, in order; then stop with the error
    /// if there is one, or else ask for the next batch.
    Settle { acks: Vec<MessageAck>, stop: Option<WorkerError> },
    /// Stop the worker with this result.
    Finish(Result<(), WorkerError>),
}

/// Whether a batch worker in `state` can observe `event`.
pub open spec fn batch_expects(state: BatchState, event: BatchEvent) -> bool {
    match state {
        BatchState::Polling => event is Cancelled || event is Fetched || event is FetchFailed,
        BatchState::Fetched { .. } => event is Decoded || event is DecodeFailed,
        BatchState::Decoded { .. } => event is Processed,
        BatchState::Finished => false,
    }
}

impl BatchState {
    /// Whether a batch worker in this state can observe `event`.
    pub fn expects(&self, event: &BatchEvent) -> (r: bool)
        ensures
            r == batch_expects(*self, *event),
    {
        match self {
            BatchState::Polling => match event {
                BatchEvent::Cancelled | BatchEvent::Fetched(_) | BatchEvent::FetchFailed(_) => true,
                _ => false,
            },
            BatchState::Fetched { .. } => match event {
                BatchEvent::Decoded | BatchEvent::DecodeFailed(_) => true,
                _ => false,
            },
            BatchState::Decoded { .. } => match event {
                BatchEvent::Processed(_) => true,
                _ => false,
            },
            BatchState::Finished => false,
        }
    }
}

/// How each of the `count` messages of a batch is settled after the handler
/// reported `outcome`: an error for the whole batch settles every message
/// with `Nak`; otherwise message `i` is acknowledged when the handler
/// reported success for it, and settled with `Nak` when it reported an
/// error or no outcome at all.
pub open spec fn batch_acks(count: nat, outcome: Result<Vec<Result<(), anyhow::Error>>, anyhow::Error>) -> Seq<MessageAck> {
    Seq::new(count, |i: int| match outcome {
        Ok(outcomes) => if i < outcomes@.len() && outcomes@[i] is Ok {
            MessageAck::Ack
        } else {
            MessageAck::Nak
        },
        Err(_) => MessageAck::Nak,
    })
}

/// The settlement of a batch of `count` messages has one entry per message,
/// and the entry of message `i` is `Ack` exactly when the handler gave an
/// outcome list whose entry `i` is `Ok`; a whole-batch error, a failed
/// entry or a missing entry makes it `Nak`.
pub proof fn lemma_batch_settlement(count: nat, outcome: Result<Vec<Result<(), anyhow::Error>>, anyhow::Error>)
    ensures
        batch_acks(count, outcome).len() == count,
        forall|i: int| 0 <= i < count ==> (#[trigger] batch_acks(count, outcome)[i] == MessageAck::Ack
            <==> (outcome matches Ok(outcomes) && i < outcomes@.len() && outcomes@[i] is Ok)),
        forall|i: int| 0 <= i < count ==> (#[trigger] batch_acks(count, outcome)[i] == MessageAck::Nak
            <==> !(outcome matches Ok(outcomes) && i < outcomes@.len() && outcomes@[i] is Ok)),
{
}

/// A batch worker accepts every event that its loop can bring back after
/// each action: while polling, a shutdown, a fetch of any size (an empty one
/// too) or a failed fetch; with a fetched batch, its decoding or a refusal;
/// with a decoded batch, any outcome of the handler, a whole-batch error
/// too. A finished worker accepts nothing.
pub proof fn lemma_batch_worker_accepts_its_events(
    n: usize,
    fetch_error: WorkerError,
    refusal: anyhow::Error,
    count: usize,
    outcome: Result<Vec<Result<(), anyhow::Error>>, anyhow::Error>,
    event: BatchEvent,
)
    ensures
        batch_expects(BatchState::Polling, BatchEvent::Cancelled),
        batch_expects(BatchState::Polling, BatchEvent::Fetched(n)),
        batch_expects(BatchState::Polling, BatchEvent::FetchFailed(fetch_error)),
        batch_expects(BatchState::Fetched { count }, BatchEvent::Decoded),
        batch_expects(BatchState::Fetched { count }, BatchEvent::DecodeFailed(refusal)),
        batch_expects(BatchState::Decoded { count }, BatchEvent::Processed(outcome)),
        !batch_expects(BatchState::Finished, event),
{
}

/// A stream worker accepts every event that its loop can bring back after
/// each action on a message: once the message arrived, its decoding or a
/// refusal; once it passed the interceptors, any outcome of the handler,
/// failed ones too. Once done, it accepts nothing more for that message.
pub proof fn lemma_stream_worker_accepts_its_events(
    refusal: anyhow::Error,
    outcome: Result<(), anyhow::Error>,
    event: MessageEvent,
)
    ensures
        message_expects(MessagePhase::Received, MessageEvent::Decoded),
        message_expects(MessagePhase::Received, MessageEvent::DecodeFailed(refusal)),
        message_expects(MessagePhase::Decoded, MessageEvent::Processed(outcome)),
        !message_expects(MessagePhase::Done, event),
{
}

/// The text with which a batch worker stops when its handler fails a whole
/// batch under the `Stop` strategy.
pub open spec fn batch_stop_text() -> Seq<char> {
    "handler error; error strategy is Stop"@
}

/// Where a stream worker stands with one message.
#[derive(Debug, Clone, Copy, PartialEq, Eq, Structural)]
pub enum MessagePhase {
    /// The message arrived; it is being passed through the interceptors.
    Received,
    /// The message passed every interceptor; the handler has it.
    Decoded,
    /// The worker is done with the message.
    Done,
}

/// What happened to a message since the last action of a stream worker.
pub enum MessageEvent {
    /// The message passed every interceptor.
    Decoded,
    /// An interceptor refused the message.
    DecodeFailed(anyhow::Error),
    /// The handler finished the message with this outcome.
    Processed(Result<(), anyhow::Error>),
}

/// What a stream worker does next with a message.
pub enum MessageAction {
    /// Pass the message through the interceptors.
    Decode,
    /// Hand the message to the handler.
    Process,
    /// Settle the message; then go on (`Ok`) or stop the worker.
    Settle { ack: MessageAck, verdict: Result<(), WorkerError> },
    /// Stop the worker with this error, leaving the message unsettled.
    Fail(WorkerError),
}

/// Whether a stream worker whose message is in `phase` can observe `event`.
pub open spec fn message_expects(phase: MessagePhase, event: MessageEvent) -> bool {
    match phase {
        MessagePhase::Received => event is Decoded || event is DecodeFailed,
        MessagePhase::Decoded => event is Processed,
        MessagePhase::Done => false,
    }
}

impl MessagePhase {
    /// Whether a stream worker whose message is in this phase can observe
    /// `event`.
    pub fn expects(&self, event: &MessageEvent) -> (r: bool)
        ensures
            r == message_expects(*self, *event),
    {
        match self {
            MessagePhase::Received => match event {
                MessageEvent::Decoded | MessageEvent::DecodeFailed(_) => true,
                _ => false,
            },
            MessagePhase::Decoded => match event {
                MessageEvent::Processed(_) => true,
                _ => false,
            },
            MessagePhase::Done => false,
        }
    }
}

/// A configured runner with its chain of interceptors.
pub struct Runner<I> {
    conf: RunnerConfig,
    chain: InterceptorChain<I>,
}

impl<I> Runner<I> {
    /// The runner's settings.
    pub closed spec fn conf(&self) -> RunnerConfig {
        self.conf
    }

    /// The runner's interceptors, in the order they run.
    pub closed spec fn interceptors(&self) -> Seq<I> {
        self.chain@
    }

    /// A runner with the given settings and no interceptors.
    pub fn new(conf: RunnerConfig) -> (r: Self)
        ensures
            r.conf() == conf,
            r.interceptors() == Seq::<I>::empty(),
    {
        Runner { conf, chain: InterceptorChain::new() }
    }

    /// Adds an interceptor after those already added.
    pub fn with_interceptor(self, interceptor: I) -> (r: Self)
        ensures
            r.conf() == self.conf(),
            r.interceptors() == self.interceptors().push(interceptor),
    {
        let mut runner = self;
        runner.chain.push(interceptor);
        runner
    }

    pub fn config(&self) -> (r: &RunnerConfig)
        ensures
            *r == self.conf(),
    {
        &self.conf
    }

    pub fn chain(&self) -> (r: &InterceptorChain<I>)
        ensures
            r@ == self.interceptors(),
    {
        &self.chain
    }

    /// How a stream worker settles a message after the handler reported
    /// `outcome`, and whether the worker goes on (`Ok`) or stops.
    pub fn settle_message(&self, outcome: Result<(), anyhow::Error>) -> (r: (MessageAck, Result<(), WorkerError>))
        ensures
            match outcome {
                Ok(()) => r.0 == MessageAck::Ack && r.1 is Ok,
                Err(e) => {
                    &&& r.0 == MessageAck::Nak
                    &&& !self.conf().error_strategy.stops() ==> r.1 is Ok
                    &&& self.conf().error_strategy.stops() ==> exists|t: String|
                        to_string_from_display_ensures::<anyhow::Error>(&e, t)
                        && r.1 == Err::<(), WorkerError>(WorkerError::Stopped(t))
                },
            },
    {
        match outcome {
            Ok(()) => (MessageAck::Ack, Ok(())),
            Err(e) => match self.conf.error_strategy.process_error(e) {
                Ok(()) => (MessageAck::Nak, Ok(())),
                Err(e) => {
                    let t = e.to_string();
                    (MessageAck::Nak, Err(WorkerError::Stopped(t)))
                },
            },
        }
    }

    /// How a batch worker settles the `count` messages of a batch after the
    /// handler reported `outcome`, and whether the worker goes on (`Ok`) or
    /// stops.
    pub fn settle_batch(&self, count: usize, outcome: Result<Vec<Result<(), anyhow::Error>>, anyhow::Error>)
        -> (r: (Vec<MessageAck>, Result<(), WorkerError>))
        ensures
            r.0@ == batch_acks(count as nat, outcome),
            (outcome is Ok || !self.conf().error_strategy.stops()) ==> r.1 is Ok,
            (outcome is Err && self.conf().error_strategy.stops()) ==>
                (r.1 matches Err(WorkerError::Stopped(m)) && m@ == batch_stop_text()),
    {
        let ghost acks_spec = batch_acks(count as nat, outcome);
        let mut acks: Vec<MessageAck> = Vec::new();
        let mut i: usize = 0;
        while i < count
            invariant
                i <= count,
                acks_spec == batch_acks(count as nat, outcome),
                acks@ == acks_spec.take(i as int),
            decreases count - i,
        {
            let ack = match &outcome {
                Ok(outcomes) => if i < outcomes.len() && outcomes[i].is_ok() {
                    MessageAck::Ack
                } else {
                    MessageAck::Nak
                },
                Err(_) => MessageAck::Nak,
            };
            acks.push(ack);
            assert(acks_spec.take(i + 1) == acks_spec.take(i as int).push(acks_spec[i as int]));
            i = i + 1;
        }
        assert(acks_spec.take(count as int) == acks_spec);
        let verdict = match outcome {
            Ok(_) => Ok(()),
            Err(e) => match self.conf.error_strategy.process_error(e) {
                Ok(()) => Ok(()),
                Err(_) => Err(WorkerError::Stopped(String::from_str("handler error; error strategy is Stop"))),
            },
        };
        (acks, verdict)
    }

    /// The size and the expiry, in milliseconds, of every batch request.
    pub fn fetch_request(&self) -> (r: (usize, u64))
        ensures
            r == (self.conf().batch_size, self.conf().flush_interval_ms),
    {
        (self.conf.batch_size, self.conf.flush_interval_ms)
    }

    /// Where a stream worker starts with a message that arrived: it passes
    /// the message through the interceptors first.
    pub fn message_start(&self) -> (r: (MessagePhase, MessageAction))
        ensures
            r.0 == MessagePhase::Received,
            r.1 is Decode,
    {
        (MessagePhase::Received, MessageAction::Decode)
    }

    /// The next phase and action of a stream worker whose message is in
    /// `phase` and that observed `event`. Only a message that passed every
    /// interceptor reaches the handler; a refused one stops the worker.
    pub fn message_step(&self, phase: MessagePhase, event: MessageEvent) -> (r: (MessagePhase, MessageAction))
        requires
            message_expects(phase, event),
        ensures
            r.1 is Process <==> event is Decoded,
            event is Decoded ==> r.0 == MessagePhase::Decoded && r.1 is Process,
            event matches MessageEvent::DecodeFailed(e) ==> r.0 == MessagePhase::Done
                && r.1 == MessageAction::Fail(WorkerError::Interceptor(e)),
            event matches MessageEvent::Processed(outcome) ==> r.0 == MessagePhase::Done
                && (r.1 matches MessageAction::Settle { ack, verdict }
                && match outcome {
                    Ok(()) => ack == MessageAck::Ack && verdict is Ok,
                    Err(e) => {
                        &&& ack == MessageAck::Nak
                        &&& !self.conf().error_strategy.stops() ==> verdict is Ok
                        &&& self.conf().error_strategy.stops() ==> exists|t: String|
                            to_string_from_display_ensures::<anyhow::Error>(&e, t)
                            && verdict == Err::<(), WorkerError>(WorkerError::Stopped(t))
                    },
                }),
    {
        match event {
            MessageEvent::Decoded => (MessagePhase::Decoded, MessageAction::Process),
            MessageEvent::DecodeFailed(e) => (MessagePhase::Done, MessageAction::Fail(WorkerError::from(e))),
            MessageEvent::Processed(outcome) => {
                let (ack, verdict) = self.settle_message(outcome);
                (MessagePhase::Done, MessageAction::Settle { ack, verdict })
            },
        }
    }

    /// Where a batch worker starts.
    pub fn batch_start(&self) -> (r: (BatchState, BatchAction))
        ensures
            r.0 == BatchState::Polling,
            r.1 is Fetch,
    {
        (BatchState::Polling, BatchAction::Fetch)
    }

    /// The next state and action of a batch worker in `state` that observed
    /// `event`.
    pub fn batch_step(&self, state: BatchState, event: BatchEvent) -> (r: (BatchState, BatchAction))
        requires
            batch_expects(state, event),
        ensures
            event is Cancelled ==> r.0 == BatchState::Finished && r.1 == BatchAction::Finish(Ok(())),
            event matches BatchEvent::Fetched(n) ==> if n == 0 {
                r.0 == BatchState::Polling && r.1 is Fetch
            } else {
                r.0 == (BatchState::Fetched { count: n }) && r.1 is Decode
            },
            event matches BatchEvent::FetchFailed(e) ==>
                r.0 == BatchState::Finished && r.1 == BatchAction::Finish(Err(e)),
            event is Decoded ==> (state matches BatchState::Fetched { count }
                && r.0 == (BatchState::Decoded { count }) && r.1 is Process),
            event matches BatchEvent::DecodeFailed(e) ==> r.0 == BatchState::Finished
                && r.1 == BatchAction::Finish(Err(WorkerError::Interceptor(e))),
            event matches BatchEvent::Processed(outcome) ==> (state matches BatchState::Decoded { count }
                && r.1 matches BatchAction::Settle { acks, stop }
                && acks@ == batch_acks(count as nat, outcome)
                && (stop is Some <==> (outcome is Err && self.conf().error_strategy.stops()))
                && (stop matches Some(e) ==> (e matches WorkerError::Stopped(m) && m@ == batch_stop_text()))
                && r.0 == (if stop is Some { BatchState::Finished } else { BatchState::Polling })),
    {
        match event {
            BatchEvent::Cancelled => (BatchState::Finished, BatchAction::Finish(Ok(()))),
            BatchEvent::Fetched(n) => if n == 0 {
                (BatchState::Polling, BatchAction::Fetch)
            } else {
                (BatchState::Fetched { count: n }, BatchAction::Decode)
            },
            BatchEvent::FetchFailed(e) => (BatchState::Finished, BatchAction::Finish(Err(e))),
            BatchEvent::Decoded => match state {
                BatchState::Fetched { count } => (BatchState::Decoded { count }, BatchAction::Process),
                _ => (state, BatchAction::Process),
            },
            BatchEvent::DecodeFailed(e) => (BatchState::Finished, BatchAction::Finish(Err(WorkerError::from(e)))),
            BatchEvent::Processed(outcome) => {
                let count = match state {
                    BatchState::Decoded { count } => count,
                    _ => 0,
                };
                let (acks, verdict) = self.settle_batch(count, outcome);
                match verdict {
                    Ok(()) => (BatchState::Polling, BatchAction::Settle { acks, stop: None }),
                    Err(e) => (BatchState::Finished, BatchAction::Settle { acks, stop: Some(e) }),
                }
            },
        }
    }
}

} // verus!
