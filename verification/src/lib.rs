//! A pull consumer for NATS JetStream: configuration, error strategies,
//! payload decoding and the decisions a worker makes about each batch and
//! each message. The network side lives outside this library.

pub mod error_strategy;
pub mod outside;
pub mod error;
pub mod interceptor;
pub mod runner;
pub mod decompress_interceptor;

pub use error_strategy::ErrorStrategy;
pub use error::WorkerError;
pub use interceptor::InterceptorChain;
pub use runner::{Runner, RunnerConfig};
pub use decompress_interceptor::DecompressInterceptor;

use vstd::prelude::*;

verus! {

/// Where to find the messages: the server, the stream and the consumer.
#[derive(Debug, Clone)]
pub struct NatsConfig {
    pub endpoint: String,
    pub stream: String,
    pub consumer: String,
}

impl Default for NatsConfig {
    /// A local server on the standard port, with no stream or consumer named.
    fn default() -> (r: Self)
        ensures
            r.endpoint@ == "nats://localhost:4222"@,
            r.stream@ == Seq::<char>::empty(),
            r.consumer@ == Seq::<char>::empty(),
    {
        NatsConfig {
            endpoint: String::from_str("nats://localhost:4222"),
            stream: String::new(),
            consumer: String::new(),
        }
    }
}

} // verus!
