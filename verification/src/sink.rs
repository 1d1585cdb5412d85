use crate::error::StreamError;
use crate::stream::Stream;
use std::sync::Arc;
use vstd::prelude::*;

verus! {

/// The write handle of a stream: what emits the values that the stream's
/// listeners receive.
#[verifier::reject_recursive_types(T)]
pub struct Sink<T> {
    stream: Stream<T>,
}

impl<T> Sink<T> {
    /// The stream that this sink emits on.
    pub closed spec fn stream(&self) -> Stream<T> {
        self.stream
    }

    /// A sink with a stream of its own, which nobody has subscribed to yet.
    /// The state of that stream is under a lock, out of a contract's reach.
    pub fn new() -> (sink: Self) {
        Sink { stream: Stream::new() }
    }

    /// A read handle to the stream that this sink emits on.
    pub fn get_stream(&self) -> (stream: Stream<T>)
        ensures
            stream == self.stream(),
    {
        self.stream.clone()
    }

    /// Emits `value` to every listener of the stream: shares it and hands it
    /// to `emit_rc`.
    pub fn emit(&self, value: T) -> (result: Result<(), StreamError>)
        ensures
            result matches Err(e) ==> e == StreamError::Poisoned,
    {
        self.emit_rc(Arc::new(value))
    }

    /// Emits a value that is shared already to every listener of the stream,
    /// under the stream's lock. It fails only where that lock is poisoned.
    pub fn emit_rc(&self, value: Arc<T>) -> (result: Result<(), StreamError>)
        ensures
            result matches Err(e) ==> e == StreamError::Poisoned,
    {
        self.stream.emit_rc(value)
    }
}

impl<T> Drop for Sink<T> {
    /// Records that the sink is gone: in the shared state at once if the
    /// lock of the stream is free, and else when the holder has let go.
    fn drop(&mut self)
        opens_invariants none
        no_unwind
    {
        let _ = self.stream.close();
    }
}

} // verus!
