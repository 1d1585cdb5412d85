use vstd::prelude::*;

verus! {

/// Why an operation on a stream could not be carried out.
#[derive(Clone, Copy, Debug, PartialEq, Eq, Structural)]
pub enum StreamError {
    /// A listener panicked while the stream's state was locked. The state can
    /// no longer be trusted, and every later operation on the stream reports
    /// this error.
    Poisoned,
    /// The stream has handed out every subscriber id it has. Ids are never
    /// reused, so no further listener can be registered on it.
    Exhausted,
    /// The stream carries no extra fields, or they are not of the type that
    /// the accessor named.
    InvalidExtraFields,
}

} // verus!
