use crate::error::StreamError;
use std::any::Any;
use vstd::prelude::*;

verus! {

/// A value whose type is known only to the code that stored it and to the code
/// that asks for it back. Verus has no notion of `dyn Any`, so the box is
/// opaque to it: nothing is proved of what it holds.
#[verifier::external_body]
pub struct ExtraFields {
    inner: Box<dyn Any + Send + Sync>,
}

/// `Box::new`, followed by the coercion to `Box<dyn Any + Send + Sync>`. The
/// contract claims nothing of the result.
#[verifier::external_body]
pub(crate) fn erase<X: Send + Sync + 'static>(fields: X) -> (erased: ExtraFields) {
    ExtraFields { inner: Box::new(fields) }
}

/// `<dyn Any>::downcast_ref`, which yields the stored value if it is of type
/// `X` and `None` otherwise. The contract claims nothing of the result.
#[verifier::external_body]
pub(crate) fn downcast_ref<X: 'static>(erased: &ExtraFields) -> (found: Option<&X>) {
    erased.inner.downcast_ref::<X>()
}

/// `<dyn Any>::downcast_mut`, which yields the stored value if it is of type
/// `X` and `None` otherwise. The contract claims that a call which yields
/// `None` has changed nothing, and nothing else.
#[verifier::external_body]
pub(crate) fn downcast_mut<X: 'static>(erased: &mut ExtraFields) -> (found: Option<&mut X>)
    ensures
        found is None ==> *final(erased) == *old(erased),
{
    erased.inner.downcast_mut::<X>()
}

/// Runs `cb` on the fields that a downcast found, or reports that the downcast
/// found none.
pub fn read_found<X, R, F>(found: Option<&X>, cb: F) -> (result: Result<R, StreamError>) where
    F: FnOnce(&X) -> R,

    requires
        found matches Some(fields) ==> call_requires(cb, (fields,)),
    ensures
        match found {
            Some(fields) => result matches Ok(value) && call_ensures(cb, (fields,), value),
            None => result matches Err(e) && e == StreamError::InvalidExtraFields,
        },
{
    match found {
        Some(fields) => Ok(cb(fields)),
        None => Err(StreamError::InvalidExtraFields),
    }
}

/// Runs `cb` on the fields that a downcast found, with the right to change
/// them, or reports that the downcast found none.
pub fn mutate_found<X, F>(found: Option<&mut X>, cb: F) -> (result: Result<(), StreamError>) where
    F: FnOnce(&mut X),

    requires
        found matches Some(fields) ==> forall|x: &mut X| *x == *fields ==> call_requires(cb, (x,)),
    ensures
        match found {
            Some(fields) => result is Ok && exists|handed: &mut X|
                *handed == *fields && *final(handed) == *final(fields) && call_ensures(
                    cb,
                    (handed,),
                    (),
                ),
            None => result matches Err(e) && e == StreamError::InvalidExtraFields,
        },
{
    match found {
        Some(fields) => {
            cb(fields);
            Ok(())
        },
        None => Err(StreamError::InvalidExtraFields),
    }
}

} // verus!
