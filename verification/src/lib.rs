//! Deferred ("initialize on use") values.
//!
//! An [`Iou`] holds seed data together with a one-shot initializer
//! function, and postpones running that initializer until the value is
//! first needed: the price of an expensive construction is paid at the
//! first read, write, force or unwrap, never at construction time, and
//! at most once over the instance's lifetime.
//!
//! If the initializer fails, the instance becomes permanently
//! *corrupted*: the failure itself is handed to the caller that
//! triggered initialization, and every later operation on the same
//! instance reports [`IouError::CorruptedState`]. No partial value is
//! ever observable.

use vstd::prelude::*;

verus! {

/// Error returned by [`Iou::is_init`] when the queried instance is
/// corrupted: its initializer ran and failed, so the query can neither
/// answer `true` nor `false` honestly.
#[derive(Debug, PartialEq, Eq)]
pub struct CorruptedState;

/// Error returned by the forcing operations of [`Iou`].
#[derive(Debug, PartialEq, Eq)]
pub enum IouError<E> {
    /// The initializer itself failed while this very call was forcing
    /// initialization; the initializer's own error is carried along
    /// unchanged. Only the caller that triggered the failed run sees
    /// this variant; the instance is corrupted from then on.
    InitFailed(E),
    /// The operation was attempted on an instance whose initializer had
    /// already failed during an earlier call. Sticky: there is no
    /// recovery, the instance can only be discarded.
    CorruptedState,
}

/// Internal state of an [`Iou`].
///
/// Exactly one variant holds at any externally observable instant:
/// either the seed and the initializer are still intact, or the
/// computed value is stored, or the initializer has failed. The
/// transient moment inside a forcing operation, after the seed and
/// initializer have been taken out but before the value is written, is
/// never visible to a caller.
enum IouState<S, F, T> {
    /// Not yet initialized: seed and initializer held, unevaluated.
    Pending(S, F),
    /// Initialized: the computed value is cached.
    Ready(T),
    /// The initializer ran and failed; neither seed nor value remain.
    Corrupted,
}

/// Initialize on use: a value that is lazily initialized at first use.
///
/// Created by [`Iou::new`] from seed data and an initializer function;
/// [`Iou::init`], [`Iou::get`], [`Iou::get_mut`] and [`Iou::unwrap`]
/// all force initialization on their first call and afterwards work on
/// the cached value.
///
/// The forcing operations take the instance by exclusive borrow, so a
/// conflicting borrow — and in particular any re-entrant touch of the
/// instance from inside its own initializer — is rejected by the
/// compiler instead of failing at run time.
pub struct Iou<S, F, T> {
    state: IouState<S, F, T>,
    /// How many times the initializer has been invoked; tracked only in
    /// the proofs, erased at run time.
    calls: Ghost<nat>,
}

impl<S, F, T> Iou<S, F, T> {
    /// The instance has not been initialized yet: seed and initializer
    /// are held, unevaluated.
    pub closed spec fn is_pending(&self) -> bool {
        self.state is Pending
    }

    /// The instance holds its computed value.
    pub closed spec fn is_ready(&self) -> bool {
        self.state is Ready
    }

    /// The initializer ran and failed; the instance is permanently
    /// unusable.
    pub closed spec fn is_corrupted(&self) -> bool {
        self.state is Corrupted
    }

    /// The seed held by a pending instance.
    pub closed spec fn seed(&self) -> S
        recommends
            self.is_pending(),
    {
        self.state->Pending_0
    }

    /// The initializer held by a pending instance.
    pub closed spec fn initializer(&self) -> F
        recommends
            self.is_pending(),
    {
        self.state->Pending_1
    }

    /// The cached value of a ready instance.
    pub closed spec fn value(&self) -> T
        recommends
            self.is_ready(),
    {
        self.state->Ready_0
    }

    /// How many times the initializer has been invoked so far.
    pub closed spec fn init_calls(&self) -> nat {
        self.calls@
    }

    /// Well-formedness: the initializer has been invoked exactly once
    /// iff the instance has left the pending state, and never before.
    pub open spec fn wf(&self) -> bool {
        self.init_calls() == if self.is_pending() {
            0nat
        } else {
            1nat
        }
    }

    /// Create a new [`Iou`] that will be initialized on first use by
    /// applying the function `f` to the initialization data `seed`.
    ///
    /// Stores both unevaluated; `f` is not invoked here.
    pub fn new(seed: S, f: F) -> (r: Iou<S, F, T>)
        ensures
            r.wf(),
            r.is_pending(),
            r.seed() == seed,
            r.initializer() == f,
            r.init_calls() == 0,
    {
        Iou { state: IouState::Pending(seed, f), calls: Ghost(0nat) }
    }

    /// Initialize the [`Iou`] if not yet initialized.
    ///
    /// On a pending instance this removes the seed and the initializer,
    /// invokes the initializer on the seed, and stores the produced
    /// value. If the initializer fails, its error is returned unchanged
    /// as [`IouError::InitFailed`] and the instance is left permanently
    /// corrupted. On an already initialized instance this is a no-op;
    /// on a corrupted instance it fails with
    /// [`IouError::CorruptedState`].
    pub fn init<E>(&mut self) -> (r: Result<(), IouError<E>>) where F: FnOnce(S) -> Result<T, E>
        requires
            old(self).wf(),
            old(self).is_pending() ==> call_requires(
                old(self).initializer(),
                (old(self).seed(),),
            ),
        ensures
            final(self).wf(),
            old(self).is_ready() ==> *final(self) == *old(self) && r == Ok::<(), IouError<E>>(()),
            old(self).is_corrupted() ==> *final(self) == *old(self) && r == Err::<
                (),
                IouError<E>,
            >(IouError::CorruptedState),
            old(self).is_pending() ==> final(self).init_calls() == 1 && match r {
                Ok(()) => final(self).is_ready() && call_ensures(
                    old(self).initializer(),
                    (old(self).seed(),),
                    Ok::<T, E>(final(self).value()),
                ),
                Err(IouError::InitFailed(e)) => final(self).is_corrupted() && call_ensures(
                    old(self).initializer(),
                    (old(self).seed(),),
                    Err::<T, E>(e),
                ),
                Err(IouError::CorruptedState) => false,
            },
    {
        let mut st = IouState::Corrupted;
        core::mem::swap(&mut st, &mut self.state);
        match st {
            IouState::Pending(seed, f) => {
                self.calls = Ghost(1nat);
                match f(seed) {
                    Ok(v) => {
                        self.state = IouState::Ready(v);
                        Ok(())
                    },
                    Err(e) => Err(IouError::InitFailed(e)),
                }
            },
            IouState::Ready(v) => {
                self.state = IouState::Ready(v);
                Ok(())
            },
            IouState::Corrupted => Err(IouError::CorruptedState),
        }
    }

    /// Initialize the [`Iou`] if not yet initialized, then return a
    /// reference to the initialized value.
    ///
    /// Fails with [`IouError::InitFailed`] if this very call forced
    /// initialization and the initializer failed, and with
    /// [`IouError::CorruptedState`] if the initializer had already
    /// failed during an earlier call.
    pub fn get<E>(&mut self) -> (r: Result<&T, IouError<E>>) where F: FnOnce(S) -> Result<T, E>
        requires
            old(self).wf(),
            old(self).is_pending() ==> call_requires(
                old(self).initializer(),
                (old(self).seed(),),
            ),
        ensures
            final(self).wf(),
            old(self).is_ready() ==> *final(self) == *old(self) && r is Ok
                && *r->Ok_0 == old(self).value(),
            old(self).is_corrupted() ==> *final(self) == *old(self) && r == Err::<
                &T,
                IouError<E>,
            >(IouError::CorruptedState),
            old(self).is_pending() ==> final(self).init_calls() == 1 && match r {
                Ok(v) => final(self).is_ready() && *v == final(self).value() && call_ensures(
                    old(self).initializer(),
                    (old(self).seed(),),
                    Ok::<T, E>(final(self).value()),
                ),
                Err(IouError::InitFailed(e)) => final(self).is_corrupted() && call_ensures(
                    old(self).initializer(),
                    (old(self).seed(),),
                    Err::<T, E>(e),
                ),
                Err(IouError::CorruptedState) => false,
            },
    {
        match self.init() {
            Ok(()) => match &self.state {
                IouState::Ready(v) => Ok(v),
                _ => unreached(),
            },
            Err(e) => Err(e),
        }
    }

    /// Initialize the [`Iou`] if not yet initialized, then return a
    /// mutable reference to the initialized value.
    ///
    /// The returned reference borrows the instance exclusively for as
    /// long as it lives; writes through it are seen by every later
    /// read. Fails under the same conditions as [`Iou::get`].
    pub fn get_mut<E>(&mut self) -> (r: Result<&mut T, IouError<E>>) where F: FnOnce(S) -> Result<
        T,
        E,
    >
        requires
            old(self).wf(),
            old(self).is_pending() ==> call_requires(
                old(self).initializer(),
                (old(self).seed(),),
            ),
        ensures
            final(self).wf(),
            old(self).is_ready() ==> r is Ok && *r->Ok_0 == old(self).value()
                && final(self).is_ready() && final(self).value() == *final(r->Ok_0)
                && final(self).init_calls() == 1,
            old(self).is_corrupted() ==> *final(self) == *old(self) && r is Err && r->Err_0
                == IouError::<E>::CorruptedState,
            old(self).is_pending() ==> final(self).init_calls() == 1 && match r {
                Ok(_) => final(self).is_ready() && call_ensures(
                    old(self).initializer(),
                    (old(self).seed(),),
                    Ok::<T, E>(*r->Ok_0),
                ) && final(self).value() == *final(r->Ok_0),
                Err(IouError::InitFailed(e)) => final(self).is_corrupted() && call_ensures(
                    old(self).initializer(),
                    (old(self).seed(),),
                    Err::<T, E>(e),
                ),
                Err(IouError::CorruptedState) => false,
            },
    {
        match self.init() {
            Ok(()) => match &mut self.state {
                IouState::Ready(v) => Ok(v),
                _ => unreached(),
            },
            Err(e) => Err(e),
        }
    }

    /// Initialize the [`Iou`] if needed and return the initialized
    /// value, consuming the [`Iou`].
    ///
    /// A pending instance runs the initializer on the seed and hands
    /// its result straight through: the value on success, the
    /// initializer's own error as [`IouError::InitFailed`] on failure.
    /// An initialized instance yields its cached value; a corrupted one
    /// fails with [`IouError::CorruptedState`]. The instance is gone in
    /// every case.
    pub fn unwrap<E>(self) -> (r: Result<T, IouError<E>>) where F: FnOnce(S) -> Result<T, E>
        requires
            self.is_pending() ==> call_requires(self.initializer(), (self.seed(),)),
        ensures
            self.is_ready() ==> r == Ok::<T, IouError<E>>(self.value()),
            self.is_corrupted() ==> r == Err::<T, IouError<E>>(IouError::CorruptedState),
            self.is_pending() ==> match r {
                Ok(v) => call_ensures(self.initializer(), (self.seed(),), Ok::<T, E>(v)),
                Err(IouError::InitFailed(e)) => call_ensures(
                    self.initializer(),
                    (self.seed(),),
                    Err::<T, E>(e),
                ),
                Err(IouError::CorruptedState) => false,
            },
    {
        match self.state {
            IouState::Pending(seed, f) => match f(seed) {
                Ok(v) => Ok(v),
                Err(e) => Err(IouError::InitFailed(e)),
            },
            IouState::Ready(v) => Ok(v),
            IouState::Corrupted => Err(IouError::CorruptedState),
        }
    }

    /// Check whether the value has been initialized yet.
    ///
    /// Answers without forcing: `Ok(false)` while the instance is still
    /// pending, `Ok(true)` once it is initialized, and
    /// `Err(CorruptedState)` if its initializer has failed, so that a
    /// broken instance is never reported as merely uninitialized.
    pub fn is_init(&self) -> (r: Result<bool, CorruptedState>)
        ensures
            self.is_pending() ==> r == Ok::<bool, CorruptedState>(false),
            self.is_ready() ==> r == Ok::<bool, CorruptedState>(true),
            self.is_corrupted() ==> r == Err::<bool, CorruptedState>(CorruptedState),
    {
        match &self.state {
            IouState::Pending(_, _) => Ok(false),
            IouState::Ready(_) => Ok(true),
            IouState::Corrupted => Err(CorruptedState),
        }
    }
}

/// Exactly one of the three externally visible states holds at any
/// instant: an instance is pending, ready, or corrupted, and never two
/// of these at once. In particular the seed/initializer pair and the
/// value are never held together.
pub proof fn lemma_states_exclusive<S, F, T>(c: &Iou<S, F, T>)
    ensures
        c.is_pending() || c.is_ready() || c.is_corrupted(),
        c.is_pending() ==> !c.is_ready() && !c.is_corrupted(),
        c.is_ready() ==> !c.is_pending() && !c.is_corrupted(),
        c.is_corrupted() ==> !c.is_pending() && !c.is_ready(),
{
}

/// The initializer of a well-formed instance has been invoked at most
/// once, whatever sequence of operations led to the current state.
pub proof fn lemma_single_invocation<S, F, T>(c: &Iou<S, F, T>)
    requires
        c.wf(),
    ensures
        c.init_calls() <= 1,
{
}

/// For a deterministic initializer — one whose contract admits a single
/// outcome on the given seed — any two outcomes of running it on that
/// seed are equal. Hence consuming a never-forced instance with
/// [`Iou::unwrap`] yields the same result that forcing it with
/// [`Iou::init`] and reading the cached value would: both are outcomes
/// of the one initializer applied to the one seed.
pub proof fn lemma_consume_equivalence<S, F, T, E>(
    f: F,
    seed: S,
    r1: Result<T, E>,
    r2: Result<T, E>,
) where F: FnOnce(S) -> Result<T, E>
    requires
        forall|a: Result<T, E>, b: Result<T, E>|
            call_ensures(f, (seed,), a) && call_ensures(f, (seed,), b) ==> a == b,
        call_ensures(f, (seed,), r1),
        call_ensures(f, (seed,), r2),
    ensures
        r1 == r2,
{
}

} // verus!
