//! Retrying a fallible step: the step runs once, and again after each
//! failure, up to `max_retry` more times; between two attempts a pause runs
//! with the error of the failed attempt (the daemon logs it and sleeps
//! there). The result is the first success, or the error
//! of the last attempt.
//!
//! The step and the pause are held in an [`Attempts`] record, which keeps
//! (in ghost state) the outcome of every attempt made through it and the
//! error handed to every pause taken, so that contracts can say exactly which
//! attempts a retry made.
use vstd::prelude::*;

verus! {

/// How many times startup retries connecting to sway and creating the
/// handlers.
pub const STARTUP_MAX_RETRIES: usize = 60;

/// The pause between two startup attempts, in milliseconds.
pub const STARTUP_RETRY_DELAY: u64 = 500;

/// How many times the handling of one sway event is retried.
pub const EVENT_MAX_RETRIES: usize = 5;

/// The pause between two attempts at handling one sway event, in
/// milliseconds.
pub const EVENT_RETRY_DELAY: u64 = 500;

/// A fallible step and the pause between two of its attempts, with the
/// record of what was done through them.
pub struct Attempts<F, P, T, E> {
    action: F,
    pause: P,
    outcomes: Ghost<Seq<Result<T, E>>>,
    paused: Ghost<Seq<E>>,
}

/// `made` are the outcomes of the attempts that a retry with `max_retry`
/// retries makes, and `r` is what it returns: attempts go on while they
/// fail, at most `max_retry + 1` of them, and the last one's outcome is
/// returned.
pub open spec fn retried<T, E>(made: Seq<Result<T, E>>, max_retry: nat, r: Result<T, E>) -> bool {
    &&& 1 <= made.len() <= max_retry + 1
    &&& forall|i: int| 0 <= i < made.len() - 1 ==> (#[trigger] made[i]) is Err
    &&& (made.last() is Err ==> made.len() == max_retry + 1)
    &&& r == made.last()
}

impl<F, P, T, E> Attempts<F, P, T, E> where F: FnMut() -> Result<T, E>, P: FnMut(&E) {
    /// The step.
    pub closed spec fn action(&self) -> F {
        self.action
    }

    /// The pause.
    pub closed spec fn pause_fn(&self) -> P {
        self.pause
    }

    /// The outcomes of the attempts made so far, in order.
    pub closed spec fn outcomes(&self) -> Seq<Result<T, E>> {
        self.outcomes@
    }

    /// The errors handed to the pauses taken so far, in order.
    pub closed spec fn paused(&self) -> Seq<E> {
        self.paused@
    }

    /// `after` is this record once a retry with `max_retry` retries has run
    /// on it and returned `r`: the outcomes of the attempts it made are
    /// appended, each a possible outcome of the step, they are those that
    /// `retried` allows, and one pause separates each two of them, handed
    /// the error of the attempt before it.
    pub open spec fn retry_ran(self, after: Self, max_retry: nat, r: Result<T, E>) -> bool {
        let made = after.outcomes().skip(self.outcomes().len() as int);
        let paused = after.paused().skip(self.paused().len() as int);
        &&& after.action() == self.action()
        &&& after.pause_fn() == self.pause_fn()
        &&& after.outcomes() == self.outcomes() + made
        &&& retried(made, max_retry, r)
        &&& after.paused() == self.paused() + paused
        &&& paused.len() + 1 == made.len()
        &&& forall|i: int| 0 <= i < made.len() ==> call_ensures(self.action(), (), #[trigger] made[i])
        &&& forall|i: int|
            0 <= i < paused.len() ==> made[i] == Err::<T, E>(#[trigger] paused[i]) && call_ensures(
                self.pause_fn(),
                (&paused[i],),
                (),
            )
    }

    /// A record of `action` and `pause` with nothing done yet.
    pub fn new(action: F, pause: P) -> (r: Self)
        ensures
            r.action() == action,
            r.pause_fn() == pause,
            r.outcomes() == Seq::<Result<T, E>>::empty(),
            r.paused() == Seq::<E>::empty(),
    {
        Attempts { action, pause, outcomes: Ghost(Seq::empty()), paused: Ghost(Seq::empty()) }
    }

    /// Runs the step once and records its outcome.
    fn attempt(&mut self) -> (r: Result<T, E>)
        requires
            call_requires(old(self).action(), ()),
        ensures
            final(self).action() == old(self).action(),
            final(self).pause_fn() == old(self).pause_fn(),
            final(self).outcomes() == old(self).outcomes().push(r),
            final(self).paused() == old(self).paused(),
            call_ensures(old(self).action(), (), r),
    {
        let r = (self.action)();
        proof {
            self.outcomes@ = self.outcomes@.push(r);
        }
        r
    }

    /// Runs the pause once with `error` and records it.
    fn wait(&mut self, error: &E)
        requires
            call_requires(old(self).pause_fn(), (error,)),
        ensures
            final(self).action() == old(self).action(),
            final(self).pause_fn() == old(self).pause_fn(),
            final(self).outcomes() == old(self).outcomes(),
            final(self).paused() == old(self).paused().push(*error),
            call_ensures(old(self).pause_fn(), (error,), ()),
    {
        (self.pause)(error);
        proof {
            self.paused@ = self.paused@.push(*error);
        }
    }
}

/// Runs the step of `steps` until it succeeds, at most `max_retry + 1`
/// times, pausing between two attempts. Returns the first success, or the
/// error of the last attempt.
pub fn retry_fallible<F, P, T, E>(steps: &mut Attempts<F, P, T, E>, max_retry: usize) -> (r: Result<
    T,
    E,
>) where F: FnMut() -> Result<T, E>, P: FnMut(&E),

    requires
        call_requires(old(steps).action(), ()),
        forall|e: E| call_requires(old(steps).pause_fn(), (&e,)),
    ensures
        old(steps).retry_ran(*final(steps), max_retry as nat, r),
{
    let ghost before = *steps;
    let ghost start = before.outcomes().len() as int;
    let ghost pstart = before.paused().len() as int;
    let mut attempt: usize = 0;
    loop
        invariant
            attempt <= max_retry,
            before == *old(steps),
            steps.action() == before.action(),
            steps.pause_fn() == before.pause_fn(),
            call_requires(before.action(), ()),
            forall|e: E| call_requires(before.pause_fn(), (&e,)),
            start == before.outcomes().len(),
            pstart == before.paused().len(),
            steps.outcomes().len() == start + attempt,
            steps.outcomes().take(start) == before.outcomes(),
            steps.paused().len() == pstart + attempt,
            steps.paused().take(pstart) == before.paused(),
            forall|i: int|
                start <= i < start + attempt ==> call_ensures(
                    before.action(),
                    (),
                    #[trigger] steps.outcomes()[i],
                ),
            forall|j: int|
                0 <= j < attempt ==> steps.outcomes()[start + j] == Err::<T, E>(
                    #[trigger] steps.paused()[pstart + j],
                ) && call_ensures(before.pause_fn(), (&steps.paused()[pstart + j],), ()),
        decreases max_retry - attempt,
    {
        let outcome = steps.attempt();
        proof {
            let made = steps.outcomes().skip(start);
            let paused = steps.paused().skip(pstart);
            assert(steps.outcomes().take(start) == before.outcomes());
            assert(steps.outcomes() =~= before.outcomes() + made);
            assert(steps.paused() =~= before.paused() + paused);
            assert forall|i: int| 0 <= i < made.len() implies call_ensures(
                before.action(),
                (),
                #[trigger] made[i],
            ) by {
                assert(made[i] == steps.outcomes()[start + i]);
            }
            assert forall|i: int| 0 <= i < paused.len() implies made[i] == Err::<T, E>(
                #[trigger] paused[i],
            ) && call_ensures(before.pause_fn(), (&paused[i],), ()) by {
                assert(made[i] == steps.outcomes()[start + i]);
                assert(paused[i] == steps.paused()[pstart + i]);
            }
            assert forall|i: int| 0 <= i < made.len() - 1 implies (#[trigger] made[i]) is Err by {
                assert(made[i] == Err::<T, E>(paused[i]));
            }
            assert(made.last() == outcome);
        }
        match outcome {
            Ok(value) => {
                return Ok(value);
            },
            Err(error) => {
                if attempt == max_retry {
                    return Err(error);
                }
                steps.wait(&error);
                proof {
                    assert(steps.outcomes()[start + attempt] == Err::<T, E>(
                        steps.paused()[pstart + attempt],
                    ));
                    assert(steps.paused().take(pstart) =~= before.paused());
                }
                attempt = attempt + 1;
            },
        }
    }
}

/// [`retry_fallible`] under the name the daemon's startup uses.
pub fn retry_action<F, P, T, E>(steps: &mut Attempts<F, P, T, E>, max_retry: usize) -> (r: Result<
    T,
    E,
>) where F: FnMut() -> Result<T, E>, P: FnMut(&E),

    requires
        call_requires(old(steps).action(), ()),
        forall|e: E| call_requires(old(steps).pause_fn(), (&e,)),
    ensures
        old(steps).retry_ran(*final(steps), max_retry as nat, r),
{
    retry_fallible(steps, max_retry)
}

/// Creates the input handlers, retrying as [`retry_action`] does: the whole
/// set is one attempt.
pub fn create_handlers_with_retry<F, P, T, E>(
    steps: &mut Attempts<F, P, T, E>,
    max_retry: usize,
) -> (r: Result<T, E>) where F: FnMut() -> Result<T, E>, P: FnMut(&E),

    requires
        call_requires(old(steps).action(), ()),
        forall|e: E| call_requires(old(steps).pause_fn(), (&e,)),
    ensures
        old(steps).retry_ran(*final(steps), max_retry as nat, r),
{
    retry_action(steps, max_retry)
}

// ---------------------------------------------------------------------------
// Laws
// ---------------------------------------------------------------------------

/// What a retry does is fixed by the outcomes its step gives: two retries
/// with the same budget, whose attempts both follow the same sequence of
/// outcomes `outs`, make the same attempts and return the same result.
pub proof fn lemma_retry_determined<T, E>(
    outs: Seq<Result<T, E>>,
    max_retry: nat,
    made1: Seq<Result<T, E>>,
    r1: Result<T, E>,
    made2: Seq<Result<T, E>>,
    r2: Result<T, E>,
)
    requires
        retried(made1, max_retry, r1),
        retried(made2, max_retry, r2),
        made1.len() <= outs.len(),
        made2.len() <= outs.len(),
        made1 == outs.take(made1.len() as int),
        made2 == outs.take(made2.len() as int),
    ensures
        made1 == made2,
        r1 == r2,
{
    if made1.len() < made2.len() {
        assert(made2[made1.len() - 1] == made1.last());
    } else if made2.len() < made1.len() {
        assert(made1[made2.len() - 1] == made2.last());
    }
    assert(made1.len() == made2.len());
    assert(made1 =~= made2);
}

} // verus!
