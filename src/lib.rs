//! A fixed-size pool of long-lived workers fed through one FIFO queue.
//!
//! Jobs and stop orders travel through the same queue as [`Message`]s; the
//! pool sends exactly one `Terminate` per worker at teardown, after every
//! job sent before it, and then joins every worker in id order. Starting and
//! joining threads is left to the caller, through the functions handed to
//! [`ThreadPool::new`] and [`ThreadPool::teardown`].

pub mod channel;
pub mod error;
pub mod http;
pub mod message;
pub mod pool;
pub mod protocol;
pub mod worker;

pub use error::PoolCreationError;
pub use http::{route, Route};
pub use message::{worker_step, Message, WorkerAction};
pub use channel::{Consumer, Producer, SharedReceiver};
pub use pool::ThreadPool;
pub use worker::Worker;
