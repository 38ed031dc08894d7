//! Who has to release an engine object, and when.
//!
//! Every object of the engine is born from one of the engine's factories and
//! dies in the release operation of its class. In between, exactly one
//! [`Owner`] holds it. Views borrowed from the owner come and go without
//! changing that.

use crate::class::{Class, ClassId, ConstPtr, EngineType, MutPtr};
use core::marker::PhantomData;
use vstd::prelude::*;

verus! {

/// Where an engine object stands between its creation and its release.
#[derive(Clone, Copy, PartialEq, Eq, Structural, Debug)]
pub enum Lifecycle {
    /// Created by a factory of the engine; no wrapper owns it yet.
    Unowned,
    /// Exactly one owning wrapper holds it.
    Owned,
    /// Its release operation has run.
    Released,
}

/// What can be done with an engine object.
#[derive(Clone, Copy, PartialEq, Eq, Structural, Debug)]
pub enum Event {
    /// An owning wrapper is made from the raw handle.
    TakeOwnership,
    /// A view of the object is borrowed as one of its capabilities.
    Borrow,
    /// The owner goes away and the release operation runs.
    Release,
}

/// A use of an engine object that its lifecycle forbids.
#[derive(Clone, Copy, PartialEq, Eq, Structural, Debug)]
pub enum Misuse {
    /// A second owner for an object that has one.
    DoubleOwnership,
    /// A release of an object that no wrapper owns.
    ReleaseWithoutOwner,
    /// Any use of an object after its release.
    UseAfterRelease,
}

impl Lifecycle {
    /// The state after `event`, or the rule that `event` breaks in this state.
    pub open spec fn next(self, event: Event) -> Result<Lifecycle, Misuse> {
        match (self, event) {
            (Lifecycle::Released, _) => Err(Misuse::UseAfterRelease),
            (state, Event::Borrow) => Ok(state),
            (Lifecycle::Unowned, Event::TakeOwnership) => Ok(Lifecycle::Owned),
            (Lifecycle::Owned, Event::TakeOwnership) => Err(Misuse::DoubleOwnership),
            (Lifecycle::Unowned, Event::Release) => Err(Misuse::ReleaseWithoutOwner),
            (Lifecycle::Owned, Event::Release) => Ok(Lifecycle::Released),
        }
    }

    /// The state of a freshly created object after all of `trace`, or the
    /// first rule that `trace` breaks.
    pub open spec fn after(trace: Seq<Event>) -> Result<Lifecycle, Misuse>
        decreases trace.len(),
    {
        if trace.len() == 0 {
            Ok(Lifecycle::Unowned)
        } else {
            match Self::after(trace.drop_last()) {
                Ok(state) => state.next(trace.last()),
                Err(misuse) => Err(misuse),
            }
        }
    }

    /// How often `event` occurs in `trace`.
    pub open spec fn count(trace: Seq<Event>, event: Event) -> nat
        decreases trace.len(),
    {
        if trace.len() == 0 {
            0
        } else {
            Self::count(trace.drop_last(), event) + if trace.last() == event {
                1nat
            } else {
                0nat
            }
        }
    }

    /// Applies `event` to an object in this state.
    pub fn step(self, event: Event) -> (r: Result<Lifecycle, Misuse>)
        ensures
            r == self.next(event),
    {
        match self {
            Lifecycle::Released => Err(Misuse::UseAfterRelease),
            Lifecycle::Unowned => match event {
                Event::TakeOwnership => Ok(Lifecycle::Owned),
                Event::Borrow => Ok(Lifecycle::Unowned),
                Event::Release => Err(Misuse::ReleaseWithoutOwner),
            },
            Lifecycle::Owned => match event {
                Event::TakeOwnership => Err(Misuse::DoubleOwnership),
                Event::Borrow => Ok(Lifecycle::Owned),
                Event::Release => Ok(Lifecycle::Released),
            },
        }
    }

    /// Applies all of `trace`, in order, to a freshly created object.
    pub fn replay(trace: &[Event]) -> (r: Result<Lifecycle, Misuse>)
        ensures
            r == Self::after(trace@),
    {
        let mut state = Lifecycle::Unowned;
        let mut i: usize = 0;
        while i < trace.len()
            invariant
                0 <= i <= trace.len(),
                Self::after(trace@.take(i as int)) == Ok::<Lifecycle, Misuse>(state),
            decreases trace.len() - i,
        {
            proof {
                let longer = trace@.take(i + 1);
                assert(longer.drop_last() =~= trace@.take(i as int));
                assert(longer.last() == trace@[i as int]);
            }
            match state.step(trace[i]) {
                Ok(next) => {
                    state = next;
                },
                Err(misuse) => {
                    proof {
                        lemma_misuse_is_final(trace@, i + 1);
                    }
                    return Err(misuse);
                },
            }
            i = i + 1;
        }
        assert(trace@.take(i as int) =~= trace@);
        Ok(state)
    }
}

/// Once a trace has broken a rule, no continuation mends it.
pub proof fn lemma_misuse_is_final(trace: Seq<Event>, n: int)
    requires
        0 <= n <= trace.len(),
        Lifecycle::after(trace.take(n)) is Err,
    ensures
        Lifecycle::after(trace) == Lifecycle::after(trace.take(n)),
    decreases trace.len() - n,
{
    if n < trace.len() {
        let longer = trace.take(n + 1);
        assert(longer.drop_last() =~= trace.take(n));
        lemma_misuse_is_final(trace, n + 1);
    } else {
        assert(trace.take(n) =~= trace);
    }
}

/// Over its whole life an object is taken into ownership at most once and
/// released at most once: in every trace that breaks no rule, an object that
/// ends released was taken once and released once, an owned one was taken
/// once and not released, and an unowned one was neither.
pub proof fn lemma_released_exactly_once(trace: Seq<Event>)
    requires
        Lifecycle::after(trace) is Ok,
    ensures
        Lifecycle::count(trace, Event::Release) == if Lifecycle::after(trace)
            == Ok::<Lifecycle, Misuse>(Lifecycle::Released) {
            1nat
        } else {
            0nat
        },
        Lifecycle::count(trace, Event::TakeOwnership) == if Lifecycle::after(trace)
            == Ok::<Lifecycle, Misuse>(Lifecycle::Unowned) {
            0nat
        } else {
            1nat
        },
    decreases trace.len(),
{
    if trace.len() > 0 {
        lemma_released_exactly_once(trace.drop_last());
    }
}

/// Nothing can be done with an object after its release: no view is
/// borrowed, no owner made, no second release run.
pub proof fn lemma_nothing_follows_release(trace: Seq<Event>, event: Event)
    requires
        Lifecycle::after(trace) == Ok::<Lifecycle, Misuse>(Lifecycle::Released),
    ensures
        Lifecycle::after(trace.push(event)) == Err::<Lifecycle, Misuse>(Misuse::UseAfterRelease),
{
    assert(trace.push(event).drop_last() =~= trace);
}

/// Borrowing a view changes nothing about who owns the object.
pub proof fn lemma_borrow_keeps_state(trace: Seq<Event>)
    requires
        Lifecycle::after(trace) is Ok,
        Lifecycle::after(trace) != Ok::<Lifecycle, Misuse>(Lifecycle::Released),
    ensures
        Lifecycle::after(trace.push(Event::Borrow)) == Lifecycle::after(trace),
{
    assert(trace.push(Event::Borrow).drop_last() =~= trace);
}

/// The one call of the engine's release operation that an owner owes: the
/// operation of exactly this class, on exactly this object.
#[derive(Clone, Copy, PartialEq, Eq, Structural, Debug)]
pub struct ReleaseCall {
    pub class: ClassId,
    pub addr: usize,
}

/// The owner of one engine object of class `T`.
///
/// It is made from the raw handle that a factory of the engine returned, and
/// it cannot be copied. It ends in [`Owner::release`], which hands out the
/// release call that is owed, or in [`Owner::into_ptr`], which hands the
/// object back unreleased.
pub struct Owner<T> {
    addr: usize,
    class: PhantomData<T>,
}

impl<T> Owner<T> {
    #[verifier::type_invariant]
    spec fn holds_an_object(self) -> bool {
        self.addr != 0
    }
}

impl<T: EngineType> Owner<T> {
    /// Takes ownership of the object behind `ptr`. A null handle has no
    /// object behind it: then there is no owner, and nothing to release.
    pub fn from_raw(ptr: MutPtr<T>) -> (owner: Option<Owner<T>>)
        ensures
            owner is None <==> ptr.addr() == 0,
            owner is Some ==> owner->Some_0.addr() == ptr.addr(),
    {
        if ptr.is_null() {
            None
        } else {
            Some(Owner { addr: ptr.address(), class: PhantomData })
        }
    }

    /// Gives the object up without releasing it: the view as `S` that comes
    /// back is all that is left of the owner.
    pub fn into_ptr<S: EngineType>(self) -> (p: MutPtr<S>) where T: Class<S>
        ensures
            p.addr() == T::class().view_addr(S::class(), self.addr()),
            p.addr() != 0,
    {
        proof {
            use_type_invariant(&self);
        }
        MutPtr::new(self.addr)
    }

    /// Ends the ownership. The owner is used up, so this happens once; what
    /// comes back is the release call that the engine is owed.
    pub fn release(self) -> (call: ReleaseCall)
        ensures
            call.class == T::class(),
            call.addr == self.addr(),
            call.addr != 0,
    {
        proof {
            use_type_invariant(&self);
        }
        ReleaseCall { class: T::class_id(), addr: self.addr }
    }
}

impl<T: EngineType> EngineType for Owner<T> {
    open spec fn class() -> ClassId {
        T::class()
    }

    closed spec fn addr(&self) -> usize {
        self.addr
    }

    fn class_id() -> (class: ClassId) {
        T::class_id()
    }
}

impl<S: EngineType, T: Class<S>> Class<S> for Owner<T> {
    proof fn declared() {
        T::declared();
    }

    fn as_ptr(&self) -> (p: ConstPtr<S>) {
        ConstPtr::new(self.addr)
    }

    fn as_mut_ptr(&mut self) -> (p: MutPtr<S>) {
        MutPtr::new(self.addr)
    }
}

} // verus!
