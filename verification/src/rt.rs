//! What emitted code relies on at run time: how a step of a generator
//! becomes the answer that a future or a stream gives
//! when it is polled.
//!
//! A generator made from an asynchronous function yields `()` whenever it
//! has to wait, and completes with the function's `Result`.  A generator made
//! from a stream yields a `Result`: `Ok` of an item, `Err` of a
//! [`StreamError`] that either carries an error of the stream or says "not
//! ready"; it completes when the stream ends.
use vstd::prelude::*;
use vstd::std_specs::convert::{FromSpec, FromSpecImpl};

verus! {

/// The answer of a poll that did not fail.
#[derive(Debug, PartialEq, Eq)]
pub enum Async<T> {
    /// The value is there.
    Ready(T),
    /// The value is not there yet; the task will be woken when it may be.
    NotReady,
}

/// What a generator did when it was resumed.
#[derive(Debug, PartialEq, Eq)]
pub enum GeneratorState<Y, R> {
    /// It yielded a value and can be resumed again.
    Yielded(Y),
    /// It returned.
    Complete(R),
}

/// Types that are a `Result`: what an asynchronous function may return.
pub trait IsResult: Sized {
    type Ok;

    type Err;

    /// This value as a `Result`.
    spec fn result_model(self) -> Result<Self::Ok, Self::Err>;

    fn into_result(self) -> (r: Result<Self::Ok, Self::Err>)
        ensures
            r == self.result_model(),
    ;
}

impl<T, E> IsResult for Result<T, E> {
    type Ok = T;

    type Err = E;

    open spec fn result_model(self) -> Result<T, E> {
        self
    }

    fn into_result(self) -> (r: Result<T, E>) {
        self
    }
}

/// What the `Err` of a stream generator's yield holds.
#[derive(Debug, PartialEq, Eq)]
pub enum StreamErrorInner<E> {
    /// The stream failed with this error.
    Error(E),
    /// No item is ready.
    NotReady,
}

/// The error type of what a stream generator yields.  `?` inside the body of
/// a stream converts the error of the stream into it.
#[derive(Debug, PartialEq, Eq)]
pub struct StreamError<E>(pub StreamErrorInner<E>);

impl<E> StreamError<E> {
    /// Converts `err` into the error type of the stream and wraps it, as `?`
    /// does with an error of another type.
    pub fn convert<T>(err: T) -> (r: StreamError<E>) where E: From<T>
        ensures
            r.0 matches StreamErrorInner::Error(e) && call_ensures(E::from, (err,), e),
    {
        StreamError(StreamErrorInner::Error(err.into()))
    }
}

impl<E> From<E> for StreamError<E> {
    fn from(e: E) -> (r: StreamError<E>) {
        StreamError(StreamErrorInner::Error(e))
    }
}

impl<E> FromSpecImpl<E> for StreamError<E> {
    open spec fn obeys_from_spec() -> bool {
        true
    }

    open spec fn from_spec(e: E) -> StreamError<E> {
        StreamError(StreamErrorInner::Error(e))
    }
}

/// Types that a generator can yield to say that it is not ready.
pub trait YieldType: Sized {
    /// The value that says "not ready".
    spec fn not_ready_model() -> Self;

    fn not_ready() -> (r: Self)
        ensures
            r == Self::not_ready_model(),
    ;
}

/// What the generator of a future yields.
impl YieldType for () {
    open spec fn not_ready_model() -> () {
        ()
    }

    fn not_ready() -> (r: ()) {
        ()
    }
}

/// What the generator of a stream yields.
impl<T, E> YieldType for Result<T, StreamError<E>> {
    open spec fn not_ready_model() -> Result<T, StreamError<E>> {
        Err(StreamError(StreamErrorInner::NotReady))
    }

    fn not_ready() -> (r: Result<T, StreamError<E>>) {
        Err(StreamError(StreamErrorInner::NotReady))
    }
}

/// What a future answers to a poll in which its generator did `state`.
pub open spec fn future_poll_model<T, E>(state: GeneratorState<(), Result<T, E>>) -> Result<
    Async<T>,
    E,
> {
    match state {
        GeneratorState::Yielded(_) => Ok(Async::NotReady),
        GeneratorState::Complete(Ok(v)) => Ok(Async::Ready(v)),
        GeneratorState::Complete(Err(e)) => Err(e),
    }
}

/// Turns one step of the generator of a future into the answer to a
/// poll: a yield means "not ready", completion gives the result.
pub fn future_poll<T, E>(state: GeneratorState<(), Result<T, E>>) -> (r: Result<Async<T>, E>)
    ensures
        r == future_poll_model(state),
{
    match state {
        GeneratorState::Yielded(_) => Ok(Async::NotReady),
        GeneratorState::Complete(e) => match e.into_result() {
            Ok(v) => Ok(Async::Ready(v)),
            Err(e) => Err(e),
        },
    }
}

/// What a stream answers to a poll in which its generator did `state`.
pub open spec fn stream_poll_model<T, E>(
    state: GeneratorState<Result<T, StreamError<E>>, ()>,
) -> Result<Async<Option<T>>, E> {
    match state {
        GeneratorState::Yielded(Ok(item)) => Ok(Async::Ready(Some(item))),
        GeneratorState::Yielded(Err(StreamError(StreamErrorInner::Error(e)))) => Err(e),
        GeneratorState::Yielded(Err(StreamError(StreamErrorInner::NotReady))) => Ok(
            Async::NotReady,
        ),
        GeneratorState::Complete(_) => Ok(Async::Ready(None)),
    }
}

/// Turns one step of the generator of a stream into the answer to a
/// poll: a yielded item is the next item, a yielded error is the error of
/// the stream unless it says "not ready", and completion ends the stream.
pub fn stream_poll<T, E>(state: GeneratorState<Result<T, StreamError<E>>, ()>) -> (r: Result<
    Async<Option<T>>,
    E,
>)
    ensures
        r == stream_poll_model(state),
{
    match state {
        GeneratorState::Yielded(Ok(item)) => Ok(Async::Ready(Some(item))),
        GeneratorState::Yielded(Err(StreamError(e))) => match e {
            StreamErrorInner::Error(e) => Err(e),
            StreamErrorInner::NotReady => Ok(Async::NotReady),
        },
        GeneratorState::Complete(_) => Ok(Async::Ready(None)),
    }
}

/// An error that `?` converted inside the body of a stream comes out of the
/// stream as the converted value: where `wrapped` is what
/// [`StreamError::convert`] made of `err`, the poll in which the generator
/// yields it fails with an error that the conversion of `E` from `T` gives
/// for `err`.
pub proof fn lemma_converted_error_is_yielded<T, Item, E: From<T>>(err: T, wrapped: StreamError<E>)
    requires
        call_ensures(StreamError::<E>::convert::<T>, (err,), wrapped),
    ensures
        stream_poll_model::<Item, E>(GeneratorState::Yielded(Err(wrapped))) matches Err(e)
            && call_ensures(E::from, (err,), e),
{
}

/// An error of the stream's own type comes out of the stream unchanged.
pub proof fn lemma_own_error_is_yielded<Item, E>(err: E)
    ensures
        stream_poll_model::<Item, E>(
            GeneratorState::Yielded(Err(<StreamError<E> as FromSpec<E>>::from_spec(err))),
        ) == Err::<Async<Option<Item>>, E>(err),
{
}

/// Yielding the "not ready" value makes either kind of generator answer
/// "not ready".
pub proof fn lemma_not_ready_is_not_ready<T, E>()
    ensures
        future_poll_model::<T, E>(GeneratorState::Yielded(<() as YieldType>::not_ready_model()))
            == Ok::<Async<T>, E>(Async::NotReady),
        stream_poll_model::<T, E>(
            GeneratorState::Yielded(<Result<T, StreamError<E>> as YieldType>::not_ready_model()),
        ) == Ok::<Async<Option<T>>, E>(Async::NotReady),
{
}

/// A value that is handed out by reference, for use as a `static`.
pub struct NonLocalKey<T: 'static>(pub T);

impl<T: 'static> NonLocalKey<T> {
    /// Calls `f` on the value.
    pub fn with<F, R>(&'static self, f: F) -> (r: R) where F: FnOnce(&T) -> R
        requires
            f.requires((&self.0,)),
        ensures
            f.ensures((&self.0,), r),
    {
        f(&self.0)
    }
}

} // verus!
