//! A typed, multicast event source with a matching write handle.
//!
//! A [`Sink`] emits values; every listener that has subscribed to the sink's
//! [`Stream`] is run on each of them, in the order in which the listeners
//! subscribed. A [`Subscription`] ends when it is dropped: at once where the
//! stream is free, and before the next emission where it is busy. All handles of one
//! stream share a [`StreamImpl`] behind a lock; that state and its
//! operations are specified exactly, over [`StreamView`], and [`locked`] says
//! what an operation answers to each thing that the lock can give.

pub mod callback;
pub mod end_flag;
pub mod error;
pub mod extra_fields;
pub mod history;
pub mod laws;
pub mod lock;
pub mod locked;
pub mod sink;
pub mod state;
pub mod stream;

pub use crate::callback::Callback;
pub use crate::error::StreamError;
pub use crate::sink::Sink;
pub use crate::state::{StreamImpl, StreamView};
pub use crate::stream::{Stream, Subscription};
