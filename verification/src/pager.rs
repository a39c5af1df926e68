//! The core pagination engine.
//!
//! A caller supplies a [`Fetcher`]: a repeatable "fetch one page given an
//! optional continuation" operation. The [`PageDriver`] adapts it into a lazy
//! sequence of page-or-error values by threading continuation state between
//! calls; that sequence shape is captured by the [`PageStream`] trait.
//!
//! The driver guarantees: exactly one fetch per produced page, pages yielded
//! in fetch order, the continuation passed to each call is exactly the one
//! returned by the previous call's `More` result, and after an error or a
//! `Done` result the fetcher is never invoked again.

use vstd::prelude::*;

use crate::error::Error;

verus! {

/// The result of fetching a single page: whether more pages may follow.
///
/// A page is always attached to the result, even on the terminal step, so
/// that the final page's items are still delivered.
#[derive(Debug)]
pub enum PagerResult<P, N> {
    /// A page was obtained and more data may exist; `next` is the opaque
    /// continuation required to fetch the following page.
    More { response: P, next: N },
    /// A page was obtained and no further pages exist.
    Done { response: P },
}

/// The internal state of a pagination session between fetches.
///
/// Transitions: `Init` moves to `More` or `Done` on the first fetch; `More`
/// moves to `More` or `Done` on each later fetch; `Done` is absorbing.
#[derive(Debug)]
pub enum DriverState<N> {
    /// No fetch has been performed yet.
    Init,
    /// A continuation is pending use by the next fetch.
    More(N),
    /// Terminal: no further fetch will be attempted.
    Done,
}

/// A page that can yield its contained items as a finite, in-memory sequence.
///
/// The engine never constructs or mutates pages; it only receives them from
/// the fetcher and extracts their items on demand. Extraction is fallible
/// (e.g. a malformed body).
pub trait Page {
    /// The type of items in the collection.
    type Item;

    /// Extracts the items of this page, in the page's own order.
    fn into_items(self) -> Result<Vec<Self::Item>, Error>;
}

/// A repeatable page-fetch operation supplied by the caller.
///
/// The engine invokes `fetch` with `None` on the very first call of a session
/// and with `Some(c)` on every later call, where `c` is exactly the
/// continuation returned by the previous call's `More` result. After the
/// fetcher returns `Err` or `Ok(Done { .. })` the engine never calls it
/// again for that session.
pub trait Fetcher {
    /// The page type produced by each fetch.
    type Response;
    /// The opaque continuation type threaded between fetches.
    type Next;

    /// Performs one page request.
    fn fetch(
        &mut self,
        next: Option<Self::Next>,
    ) -> Result<PagerResult<Self::Response, Self::Next>, Error>;
}

/// The argument the driver would pass to the fetcher next: `None` when the
/// session is exhausted (no call may happen), `Some(arg)` otherwise, where
/// `arg` is the optional continuation handed to the fetcher.
pub open spec fn spec_driver_request<N>(state: DriverState<N>) -> Option<Option<N>> {
    match state {
        DriverState::Init => Some(None),
        DriverState::More(c) => Some(Some(c)),
        DriverState::Done => None,
    }
}

/// Exec counterpart of [`spec_driver_request`], consuming the state.
///
/// This is one half of the session's decision core; the other half is
/// [`apply_fetch_outcome`]. A surrounding event loop asks this function what
/// to pass to the fetch operation, performs the fetch, and hands the outcome
/// to [`apply_fetch_outcome`].
pub fn driver_request<N>(state: DriverState<N>) -> (r: Option<Option<N>>)
    ensures
        r == spec_driver_request(state),
{
    match state {
        DriverState::Init => Some(None),
        DriverState::More(c) => Some(Some(c)),
        DriverState::Done => None,
    }
}

/// The driver state that follows a fetch outcome: `More` keeps the returned
/// continuation pending; an error or a terminal page exhausts the session.
pub open spec fn spec_next_state<P, N>(
    outcome: Result<PagerResult<P, N>, Error>,
) -> DriverState<N> {
    match outcome {
        Ok(PagerResult::More { response: _, next }) => DriverState::More(next),
        Ok(PagerResult::Done { response: _ }) => DriverState::Done,
        Err(_) => DriverState::Done,
    }
}

/// The element a fetch outcome contributes to the page sequence: the page on
/// success (terminal or not), the error on failure.
pub open spec fn spec_emission<P, N>(
    outcome: Result<PagerResult<P, N>, Error>,
) -> Result<P, Error> {
    match outcome {
        Ok(PagerResult::More { response, next: _ }) => Ok(response),
        Ok(PagerResult::Done { response }) => Ok(response),
        Err(e) => Err(e),
    }
}

/// Exec counterpart of [`spec_emission`] and [`spec_next_state`]: turns one
/// fetch outcome into the emitted page-or-error element and the next state.
pub fn apply_fetch_outcome<P, N>(
    outcome: Result<PagerResult<P, N>, Error>,
) -> (r: (Result<P, Error>, DriverState<N>))
    ensures
        r.0 == spec_emission(outcome),
        r.1 == spec_next_state(outcome),
{
    match outcome {
        Ok(PagerResult::More { response, next }) => (Ok(response), DriverState::More(next)),
        Ok(PagerResult::Done { response }) => (Ok(response), DriverState::Done),
        Err(e) => (Err(e), DriverState::Done),
    }
}

/// A transcript of fetch outcomes is well formed when only its last outcome
/// may be terminal: every earlier call must have returned `More`, else no
/// later call would have happened.
pub open spec fn transcript_wf<P, N>(
    outcomes: Seq<Result<PagerResult<P, N>, Error>>,
) -> bool {
    forall|i: int|
        0 <= i < outcomes.len() - 1 ==> (#[trigger] outcomes[i]) matches Ok(
            PagerResult::More { .. },
        )
}

/// The driver state reached after the given fetch outcomes.
pub open spec fn state_after<P, N>(
    outcomes: Seq<Result<PagerResult<P, N>, Error>>,
) -> DriverState<N> {
    if outcomes.len() == 0 {
        DriverState::Init
    } else {
        spec_next_state(outcomes.last())
    }
}

/// The page-sequence elements produced by the given fetch outcomes, in order.
pub open spec fn emissions<P, N>(
    outcomes: Seq<Result<PagerResult<P, N>, Error>>,
) -> Seq<Result<P, Error>> {
    outcomes.map_values(|o: Result<PagerResult<P, N>, Error>| spec_emission(o))
}

/// The argument handed to the fetcher for call number `i` (0-based), given
/// the outcomes of the preceding calls: `None` for the first call, and the
/// continuation returned by call `i - 1` afterwards.
pub open spec fn call_arg_at<P, N>(
    outcomes: Seq<Result<PagerResult<P, N>, Error>>,
    i: int,
) -> Option<N>
    recommends
        0 <= i <= outcomes.len(),
{
    if i == 0 {
        None
    } else {
        match outcomes[i - 1] {
            Ok(PagerResult::More { response: _, next }) => Some(next),
            _ => None,
        }
    }
}

/// The arguments of all calls recorded by a transcript, in call order.
pub open spec fn call_args<P, N>(
    outcomes: Seq<Result<PagerResult<P, N>, Error>>,
) -> Seq<Option<N>> {
    Seq::new(outcomes.len(), |i: int| call_arg_at(outcomes, i))
}

/// A lazy, pull-based sequence of page-or-error values.
///
/// This is the engine's rendering of a page stream: each `poll_page` call
/// either produces the next element or signals that the sequence has ended.
/// `emitted()` is the ghost transcript of the elements produced so far and
/// `finished()` says whether the end has been reached; a finished stream
/// stays finished, produces nothing further, and does not change.
pub trait PageStream: Sized {
    /// The page type carried by the stream.
    type Response;

    /// Ghost transcript: every element this stream has produced, in order.
    spec fn emitted(&self) -> Seq<Result<Self::Response, Error>>;

    /// Whether the stream has reached its end.
    spec fn finished(&self) -> bool;

    /// Well-formedness, established at construction and kept across calls.
    spec fn inv(&self) -> bool;

    /// Produces the next element, or `None` at the end of the sequence.
    fn poll_page(&mut self) -> (r: Option<Result<Self::Response, Error>>)
        requires
            old(self).inv(),
        ensures
            final(self).inv(),
            old(self).finished() ==> r is None && *final(self) == *old(self),
            (match r {
                Some(p) => !old(self).finished() && final(self).emitted() == old(
                    self,
                ).emitted().push(p),
                None => final(self).emitted() == old(self).emitted() && final(self).finished(),
            }),
    ;
}

/// Adapts a [`Fetcher`] into a lazy page sequence by threading continuation
/// state between calls: the Page Sequence Driver.
pub struct PageDriver<F: Fetcher> {
    fetcher: F,
    state: DriverState<F::Next>,
    outcomes: Ghost<Seq<Result<PagerResult<F::Response, F::Next>, Error>>>,
    calls: Ghost<Seq<Option<F::Next>>>,
}

impl<F: Fetcher> PageDriver<F> {
    /// Ghost transcript of the fetch outcomes received so far, in call order.
    pub closed spec fn outcomes(&self) -> Seq<Result<PagerResult<F::Response, F::Next>, Error>> {
        self.outcomes@
    }

    /// Ghost transcript of the argument passed to each fetch call, in order.
    pub closed spec fn calls(&self) -> Seq<Option<F::Next>> {
        self.calls@
    }

    /// The current session state.
    pub closed spec fn state(&self) -> DriverState<F::Next> {
        self.state
    }

    /// The held fetcher.
    pub closed spec fn spec_fetcher(&self) -> F {
        self.fetcher
    }

    /// Well-formedness: the transcript is coherent, the state is the one the
    /// transcript leads to, and the recorded call arguments are exactly the
    /// continuations the transcript dictates.
    pub open spec fn wf(&self) -> bool {
        &&& transcript_wf(self.outcomes())
        &&& self.state() == state_after(self.outcomes())
        &&& self.calls() == call_args(self.outcomes())
    }

    /// Creates a driver for a fresh session: no fetch performed yet.
    pub fn new(fetcher: F) -> (r: Self)
        ensures
            r.wf(),
            r.outcomes() =~= Seq::<Result<PagerResult<F::Response, F::Next>, Error>>::empty(),
            r.calls() =~= Seq::<Option<F::Next>>::empty(),
            r.state() is Init,
            r.spec_fetcher() == fetcher,
    {
        let r = PageDriver {
            fetcher,
            state: DriverState::Init,
            outcomes: Ghost(Seq::empty()),
            calls: Ghost(Seq::empty()),
        };
        proof {
            assert(r.calls() =~= call_args(r.outcomes()));
        }
        r
    }

    /// Borrows the held fetcher, e.g. to read instrumentation it carries.
    pub fn fetcher(&self) -> (r: &F)
        ensures
            r == self.spec_fetcher(),
    {
        &self.fetcher
    }

    /// Returns the held fetcher, discarding the session state.
    pub fn into_fetcher(self) -> (r: F)
        ensures
            r == self.spec_fetcher(),
    {
        let PageDriver { fetcher, state: _, outcomes: _, calls: _ } = self;
        fetcher
    }
}

impl<F: Fetcher> PageStream for PageDriver<F> {
    type Response = F::Response;

    open spec fn emitted(&self) -> Seq<Result<F::Response, Error>> {
        emissions(self.outcomes())
    }

    open spec fn finished(&self) -> bool {
        self.state() is Done
    }

    open spec fn inv(&self) -> bool {
        self.wf()
    }

    /// One pull of the Page Sequence Driver: when the session is exhausted,
    /// nothing happens and the sequence reports its end; otherwise exactly
    /// one fetch is performed with exactly the pending continuation, the
    /// state advances by the outcome, and the outcome's page or error is
    /// emitted.
    fn poll_page(&mut self) -> (r: Option<Result<F::Response, Error>>)
        ensures
            old(self).finished() ==> *final(self) == *old(self),
            !old(self).finished() ==> final(self).outcomes() == old(self).outcomes().push(
                final(self).outcomes().last(),
            ),
            !old(self).finished() ==> r == Some(spec_emission(final(self).outcomes().last())),
            !old(self).finished() ==> final(self).calls() == old(self).calls().push(
                call_arg_at(old(self).outcomes(), old(self).outcomes().len() as int),
            ),
            !old(self).finished() ==> final(self).state() == spec_next_state(
                final(self).outcomes().last(),
            ),
    {
        // Take the state out to consume a pending continuation; an
        // exhausted session stays exhausted.
        let mut taken = DriverState::Done;
        core::mem::swap(&mut self.state, &mut taken);
        let arg: Option<F::Next> = match taken {
            DriverState::Done => {
                return None;
            },
            DriverState::Init => None,
            DriverState::More(c) => Some(c),
        };
        let ghost prev_outcomes = self.outcomes@;
        let ghost prev_calls = self.calls@;
        let ghost garg = arg;
        let outcome = self.fetcher.fetch(arg);
        self.outcomes = Ghost(prev_outcomes.push(outcome));
        self.calls = Ghost(prev_calls.push(garg));
        let (emission, next_state) = apply_fetch_outcome(outcome);
        self.state = next_state;
        proof {
            // The previous transcript ended in `More` (or was empty), since
            // the session was not exhausted.
            assert forall|i: int| 0 <= i < self.outcomes@.len() - 1 implies (
            #[trigger] self.outcomes@[i]) matches Ok(PagerResult::More { .. }) by {
                if i < prev_outcomes.len() - 1 {
                    assert(prev_outcomes[i] matches Ok(PagerResult::More { .. }));
                } else {
                    assert(i == prev_outcomes.len() - 1);
                    assert(self.outcomes@[i] == prev_outcomes.last());
                }
            }
            assert(garg == call_arg_at(prev_outcomes, prev_outcomes.len() as int));
            assert(self.calls@ =~= call_args(self.outcomes@));
            assert(emissions(self.outcomes@) =~= emissions(prev_outcomes).push(
                spec_emission(outcome),
            ));
        }
        Some(emission)
    }
}

} // verus!
