//! What the emitted poll loops do, one poll at a time.
//!
//! An emitted loop polls, then decides: the loop of `await!` breaks with a
//! result or yields and polls again; the loop of `#[async] for` binds an
//! item and runs the body, leaves the loop, yields and goes round, or leaves
//! the function with an error.  The decisions are the functions
//! [`await_step`] and [`for_step`]; a loop run against a given sequence of
//! answers is [`run_await`] and [`run_async_for`].
use crate::rt::Async;
use vstd::prelude::*;

verus! {

/// What the loop of `await!` does after one poll.
#[derive(Debug, PartialEq, Eq)]
pub enum AwaitStep<T, E> {
    /// It breaks with the result of the future.
    Break(Result<T, E>),
    /// It yields "not ready" and polls again when resumed.
    Suspend,
}

/// What the loop of `await!` does when the poll answers `polled`.
pub open spec fn await_step_model<T, E>(polled: Result<Async<T>, E>) -> AwaitStep<T, E> {
    match polled {
        Ok(Async::Ready(v)) => AwaitStep::Break(Ok(v)),
        Ok(Async::NotReady) => AwaitStep::Suspend,
        Err(e) => AwaitStep::Break(Err(e)),
    }
}

/// The decision of the loop of `await!` on one answer.
pub fn await_step<T, E>(polled: Result<Async<T>, E>) -> (r: AwaitStep<T, E>)
    ensures
        r == await_step_model(polled),
{
    match polled {
        Ok(Async::Ready(v)) => AwaitStep::Break(Ok(v)),
        Ok(Async::NotReady) => AwaitStep::Suspend,
        Err(e) => AwaitStep::Break(Err(e)),
    }
}

/// How a run of the loop of `await!` went.
#[derive(Debug, PartialEq, Eq)]
pub struct AwaitRun<T, E> {
    /// The value of the `await!`, unless the answers ran out first.
    pub value: Option<Result<T, E>>,
    /// How often the loop yielded.
    pub yields: usize,
}

/// The value and the number of yields of the loop of `await!` when the
/// polls answer `polls` in turn: the loop yields once for each "not ready"
/// before the first other answer, which gives the value.
pub open spec fn await_run_model<T, E>(polls: Seq<Result<Async<T>, E>>) -> (Option<Result<T, E>>, nat)
    decreases polls.len(),
{
    if polls.len() == 0 {
        (None, 0)
    } else {
        match await_step_model(polls[0]) {
            AwaitStep::Break(r) => (Some(r), 0),
            AwaitStep::Suspend => {
                let rest = await_run_model(polls.skip(1));
                (rest.0, rest.1 + 1)
            },
        }
    }
}

/// Runs the loop of `await!` against the answers `polls`.
pub fn run_await<T, E>(polls: Vec<Result<Async<T>, E>>) -> (r: AwaitRun<T, E>)
    ensures
        (r.value, r.yields as nat) == await_run_model(polls@),
{
    let ghost orig = polls@;
    let n = polls.len();
    let mut yields: usize = 0;
    assert(orig.skip(0) =~= orig);
    for polled in it: polls
        invariant
            it.seq() == orig,
            orig.len() == n,
            yields == it.index(),
            await_run_model(orig).0 == await_run_model(orig.skip(yields as int)).0,
            await_run_model(orig).1 == yields + await_run_model(orig.skip(yields as int)).1,
    {
        let ghost rest = orig.skip(yields as int);
        assert(rest[0] == polled);
        assert(rest.skip(1) =~= orig.skip(yields + 1));
        match await_step(polled) {
            AwaitStep::Break(value) => {
                return AwaitRun { value: Some(value), yields };
            },
            AwaitStep::Suspend => {
                yields += 1;
            },
        }
    }
    AwaitRun { value: None, yields }
}

/// A future that is ready at the first poll is awaited without a yield, and
/// the `await!` has exactly the value that the future is ready with.
pub proof fn lemma_ready_future_is_awaited_at_once<T, E>(polls: Seq<Result<Async<T>, E>>, v: T)
    requires
        polls.len() > 0,
        polls[0] == Ok::<Async<T>, E>(Async::Ready(v)),
    ensures
        await_run_model(polls) == (Some(Ok::<T, E>(v)), 0nat),
{
}

/// A future that fails at the first poll gives its error at once, too.
pub proof fn lemma_failed_future_is_awaited_at_once<T, E>(polls: Seq<Result<Async<T>, E>>, e: E)
    requires
        polls.len() > 0,
        polls[0] == Err::<Async<T>, E>(e),
    ensures
        await_run_model(polls) == (Some(Err::<T, E>(e)), 0nat),
{
}

/// What the loop of `#[async] for` does after one poll.
#[derive(Debug, PartialEq, Eq)]
pub enum ForStep<T, E> {
    /// It binds the item to the loop's pattern and runs the body.
    Bind(T),
    /// The stream has ended: it leaves the loop.
    Break,
    /// It yields "not ready" and goes round.
    Suspend,
    /// The stream failed: `?` leaves the enclosing function with the error.
    Propagate(E),
}

/// What the loop of `#[async] for` does when the poll answers `polled`.
pub open spec fn for_step_model<T, E>(polled: Result<Async<Option<T>>, E>) -> ForStep<T, E> {
    match polled {
        Ok(Async::Ready(Some(item))) => ForStep::Bind(item),
        Ok(Async::Ready(None)) => ForStep::Break,
        Ok(Async::NotReady) => ForStep::Suspend,
        Err(e) => ForStep::Propagate(e),
    }
}

/// The decision of the loop of `#[async] for` on one answer.
pub fn for_step<T, E>(polled: Result<Async<Option<T>>, E>) -> (r: ForStep<T, E>)
    ensures
        r == for_step_model(polled),
{
    match polled {
        Ok(Async::Ready(Some(item))) => ForStep::Bind(item),
        Ok(Async::Ready(None)) => ForStep::Break,
        Ok(Async::NotReady) => ForStep::Suspend,
        Err(e) => ForStep::Propagate(e),
    }
}

/// How the loop of `#[async] for` was left.
#[derive(Debug, PartialEq, Eq)]
pub enum ForExit<E> {
    /// The stream ended.
    Ended,
    /// The stream failed with this error.
    Failed(E),
    /// The answers ran out while the loop was waiting for the next.
    Waiting,
}

/// Model of [`ForRun`].
pub struct SpecForRun<T, E> {
    pub items: Seq<T>,
    pub yields: nat,
    pub polls: nat,
    pub exit: ForExit<E>,
}

/// How a run of the loop of `#[async] for` went.
#[derive(Debug, PartialEq, Eq)]
pub struct ForRun<T, E> {
    /// The items that the body ran on, in order.
    pub items: Vec<T>,
    /// How often the loop yielded.
    pub yields: usize,
    /// How many polls the loop made.
    pub polls: usize,
    /// How the loop was left.
    pub exit: ForExit<E>,
}

impl<T, E> View for ForRun<T, E> {
    type V = SpecForRun<T, E>;

    open spec fn view(&self) -> SpecForRun<T, E> {
        SpecForRun {
            items: self.items@,
            yields: self.yields as nat,
            polls: self.polls as nat,
            exit: self.exit,
        }
    }
}

/// The run of the loop of `#[async] for` when the polls answer `polls` in
/// turn: each item is handed to the body, each "not ready" is one yield, and
/// the first end or error leaves the loop, after which no poll is made.
pub open spec fn for_run_model<T, E>(polls: Seq<Result<Async<Option<T>>, E>>) -> SpecForRun<T, E>
    decreases polls.len(),
{
    if polls.len() == 0 {
        SpecForRun { items: Seq::empty(), yields: 0, polls: 0, exit: ForExit::Waiting }
    } else {
        let rest = for_run_model(polls.skip(1));
        match for_step_model(polls[0]) {
            ForStep::Bind(item) => SpecForRun {
                items: seq![item] + rest.items,
                yields: rest.yields,
                polls: rest.polls + 1,
                exit: rest.exit,
            },
            ForStep::Suspend => SpecForRun {
                items: rest.items,
                yields: rest.yields + 1,
                polls: rest.polls + 1,
                exit: rest.exit,
            },
            ForStep::Break => SpecForRun {
                items: Seq::empty(),
                yields: 0,
                polls: 1,
                exit: ForExit::Ended,
            },
            ForStep::Propagate(e) => SpecForRun {
                items: Seq::empty(),
                yields: 0,
                polls: 1,
                exit: ForExit::Failed(e),
            },
        }
    }
}

/// Runs the loop of `#[async] for` against the answers `polls`, with a body
/// that takes each item and does not leave the loop.
pub fn run_async_for<T, E>(polls: Vec<Result<Async<Option<T>>, E>>) -> (r: ForRun<T, E>)
    ensures
        r@ == for_run_model(polls@),
{
    let ghost orig = polls@;
    let n = polls.len();
    let mut items: Vec<T> = Vec::new();
    let mut yields: usize = 0;
    let mut made: usize = 0;
    assert(orig.skip(0) =~= orig);
    assert(for_run_model(orig).items =~= items@ + for_run_model(orig.skip(0)).items);
    for polled in it: polls
        invariant
            it.seq() == orig,
            orig.len() == n,
            made == it.index(),
            yields <= made,
            for_run_model(orig).items == items@ + for_run_model(orig.skip(made as int)).items,
            for_run_model(orig).yields == yields + for_run_model(orig.skip(made as int)).yields,
            for_run_model(orig).polls == made + for_run_model(orig.skip(made as int)).polls,
            for_run_model(orig).exit == for_run_model(orig.skip(made as int)).exit,
    {
        let ghost rest = orig.skip(made as int);
        let ghost before = items@;
        assert(rest[0] == polled);
        assert(rest.skip(1) =~= orig.skip(made + 1));
        made += 1;
        match for_step(polled) {
            ForStep::Bind(item) => {
                items.push(item);
                assert(before + (seq![item] + for_run_model(orig.skip(made as int)).items)
                    =~= items@ + for_run_model(orig.skip(made as int)).items);
            },
            ForStep::Suspend => {
                yields += 1;
            },
            ForStep::Break => {
                let r = ForRun { items, yields, polls: made, exit: ForExit::Ended };
                assert(r@.items =~= for_run_model(orig).items);
                return r;
            },
            ForStep::Propagate(e) => {
                let r = ForRun { items, yields, polls: made, exit: ForExit::Failed(e) };
                assert(r@.items =~= for_run_model(orig).items);
                return r;
            },
        }
    }
    let r = ForRun { items, yields, polls: made, exit: ForExit::Waiting };
    assert(r@.items =~= for_run_model(orig).items);
    r
}

/// Whether `polls` is what a stream of just the items `items` may answer:
/// each item once and in order, "not ready" any number of times in between,
/// and the end as the last answer and nowhere else.
pub open spec fn answers_of_finite_stream<T, E>(
    polls: Seq<Result<Async<Option<T>>, E>>,
    items: Seq<T>,
) -> bool
    decreases polls.len(),
{
    polls.len() > 0 && match polls[0] {
        Ok(Async::NotReady) => answers_of_finite_stream(polls.skip(1), items),
        Ok(Async::Ready(Some(item))) => items.len() > 0 && items[0] == item
            && answers_of_finite_stream(polls.skip(1), items.skip(1)),
        Ok(Async::Ready(None)) => items.len() == 0 && polls.len() == 1,
        Err(_) => false,
    }
}

/// Over a stream of N items the loop runs its body on exactly those N
/// items, in order; it yields once for each "not ready", whenever the stream
/// says so; and it is left by the one answer that says the stream has ended,
/// which is the last poll it makes.  This holds for every N, zero included.
pub proof fn lemma_async_for_consumes_finite_stream<T, E>(
    polls: Seq<Result<Async<Option<T>>, E>>,
    items: Seq<T>,
)
    requires
        answers_of_finite_stream(polls, items),
    ensures
        for_run_model(polls).items == items,
        for_run_model(polls).exit == ForExit::<E>::Ended,
        for_run_model(polls).polls == polls.len(),
        for_run_model(polls).yields + items.len() + 1 == polls.len(),
    decreases polls.len(),
{
    match polls[0] {
        Ok(Async::NotReady) => {
            lemma_async_for_consumes_finite_stream(polls.skip(1), items);
        },
        Ok(Async::Ready(Some(item))) => {
            lemma_async_for_consumes_finite_stream(polls.skip(1), items.skip(1));
            assert(seq![item] + items.skip(1) =~= items);
        },
        Ok(Async::Ready(None)) => {
            assert(for_run_model(polls).items =~= items);
        },
        Err(_) => {},
    }
}

} // verus!
