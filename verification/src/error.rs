//! The errors that end a worker.

use vstd::prelude::*;
use vstd::string::to_string_from_display_ensures;

verus! {

/// Why a worker stopped, or could not start.
#[derive(Debug)]
pub enum WorkerError {
    /// Connecting to NATS, or looking up the stream or the consumer, failed.
    Nats(String),
    /// Asking JetStream for a batch failed.
    BatchFetch(String),
    /// Reading the messages of a batch failed.
    BatchStream(String),
    /// The message stream failed.
    Stream(String),
    /// An interceptor refused a message.
    Interceptor(anyhow::Error),
    /// The error strategy stopped the worker.
    Stopped(String),
}

impl WorkerError {
    /// The text that describes the error.
    pub fn message(&self) -> (s: String)
        ensures
            match self {
                WorkerError::Nats(m) => s@ == "nats: "@ + m@,
                WorkerError::BatchFetch(m) => s@ == "nats batch fetch: "@ + m@,
                WorkerError::BatchStream(m) => s@ == "nats batch stream: "@ + m@,
                WorkerError::Stream(m) => s@ == "nats stream: "@ + m@,
                WorkerError::Interceptor(e) => exists|t: String|
                    to_string_from_display_ensures::<anyhow::Error>(e, t)
                    && s@ == "interceptor: "@ + t@,
                WorkerError::Stopped(m) => s@ == "worker stopped: "@ + m@,
            },
    {
        match self {
            WorkerError::Nats(m) => String::from_str("nats: ").concat(m.as_str()),
            WorkerError::BatchFetch(m) => String::from_str("nats batch fetch: ").concat(m.as_str()),
            WorkerError::BatchStream(m) => String::from_str("nats batch stream: ").concat(m.as_str()),
            WorkerError::Stream(m) => String::from_str("nats stream: ").concat(m.as_str()),
            WorkerError::Interceptor(e) => {
                let t = e.to_string();
                String::from_str("interceptor: ").concat(t.as_str())
            },
            WorkerError::Stopped(m) => String::from_str("worker stopped: ").concat(m.as_str()),
        }
    }
}

impl From<anyhow::Error> for WorkerError {
    fn from(e: anyhow::Error) -> (r: Self)
        ensures
            r == WorkerError::Interceptor(e),
    {
        WorkerError::Interceptor(e)
    }
}

impl vstd::std_specs::convert::FromSpecImpl<anyhow::Error> for WorkerError {
    open spec fn obeys_from_spec() -> bool {
        true
    }

    open spec fn from_spec(e: anyhow::Error) -> Self {
        WorkerError::Interceptor(e)
    }
}

} // verus!
