//! Racing a computation against a deadline.
//!
//! The decision core is [`timeout_step`]: given what one scheduler poll
//! observed of the inner computation and of the deadline, it decides whether
//! the race is over and with which result. The surrounding scheduler glue
//! performs the actual polling and may poll no more once a step completed.

use vstd::prelude::*;
use vstd::string::StringExecFns;

use crate::error::{Error, ErrorKind};
use crate::poll::Poll;

verus! {

/// A computation paired with a deadline; whichever finishes first decides
/// the outcome. `completed` records that the race is over, after which it
/// must not be stepped again.
#[derive(Debug)]
pub struct Timeout<F, D> {
    future: F,
    deadline: D,
    completed: bool,
}

/// One poll-step decision of the race.
///
/// `output` is `Some(v)` when the inner computation finished this poll with
/// `v`; `deadline_elapsed` says whether the deadline fired. The computation
/// winning takes precedence over the deadline. On a timeout the result is
/// an error whose message reads "operation timed out".
pub fn timeout_step<T>(completed: &mut bool, output: Option<T>, deadline_elapsed: bool) -> (r:
    Poll<Result<T, Error>>)
    requires
        !*old(completed),
    ensures
        (match output {
            Some(v) => *final(completed) && r == Poll::<Result<T, Error>>::Ready(Ok(v)),
            None => if deadline_elapsed {
                &&& *final(completed)
                &&& r matches Poll::Ready(Err(e)) && e.spec_kind() == ErrorKind::Other
                    && e.spec_message() == "operation timed out"@
            } else {
                !*final(completed) && r is Pending
            },
        }),
{
    match output {
        Some(v) => {
            *completed = true;
            Poll::Ready(Ok(v))
        },
        None => {
            if deadline_elapsed {
                *completed = true;
                Poll::Ready(
                    Err(Error::new(ErrorKind::Other, String::from_str("operation timed out"))),
                )
            } else {
                Poll::Pending
            }
        },
    }
}

impl<F, D> Timeout<F, D> {
    /// The inner computation.
    pub closed spec fn spec_future(&self) -> F {
        self.future
    }

    /// The deadline raced against.
    pub closed spec fn spec_deadline(&self) -> D {
        self.deadline
    }

    /// Whether the race is over.
    pub closed spec fn spec_completed(&self) -> bool {
        self.completed
    }

    /// Pairs a computation with a deadline; the race has not completed yet.
    pub fn new(future: F, deadline: D) -> (r: Self)
        ensures
            r.spec_future() == future,
            r.spec_deadline() == deadline,
            !r.spec_completed(),
    {
        Timeout { future, deadline, completed: false }
    }

    /// Applies one poll-step decision to this race; see [`timeout_step`].
    /// Stepping an already completed race is not allowed: the computation
    /// and the deadline are gone once the race is decided.
    pub fn step<T>(&mut self, output: Option<T>, deadline_elapsed: bool) -> (r: Poll<
        Result<T, Error>,
    >)
        requires
            !old(self).spec_completed(),
        ensures
            final(self).spec_future() == old(self).spec_future(),
            final(self).spec_deadline() == old(self).spec_deadline(),
            (match output {
                Some(v) => final(self).spec_completed() && r == Poll::<Result<T, Error>>::Ready(
                    Ok(v),
                ),
                None => if deadline_elapsed {
                    &&& final(self).spec_completed()
                    &&& r matches Poll::Ready(Err(e)) && e.spec_kind() == ErrorKind::Other
                        && e.spec_message() == "operation timed out"@
                } else {
                    !final(self).spec_completed() && r is Pending
                },
            }),
    {
        timeout_step(&mut self.completed, output, deadline_elapsed)
    }
}

} // verus!
