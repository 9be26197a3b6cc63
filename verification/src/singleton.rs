//! Process-wide lazily-initialized, mutually-exclusive-access wrapper.
//!
//! The device has exactly one thread of normal control flow plus
//! interrupt preemption, so a borrow can never wait: acquisition either
//! succeeds at once or is a fatal design defect. The one permitted
//! bypass is the force-steal used by the emergency rendering path, which
//! leaves the resource permanently borrowed while the process terminates.

use vstd::prelude::*;

use crate::types::FatalError;

verus! {

/// Exclusive-borrow position of a singleton resource.
#[derive(Clone, Copy, Debug, PartialEq, Eq, Structural)]
pub enum BorrowState {
    /// Nobody holds the resource.
    Free,
    /// Exactly one scoped borrow is outstanding.
    Borrowed,
    /// The emergency path force-took the resource and never returns it.
    Leaked,
}

/// A payload born on first access and thereafter reachable only through
/// a non-blocking exclusive borrow.
pub struct SingletonResource<T> {
    pub value: Option<T>,
    pub state: BorrowState,
}

impl<T> SingletonResource<T> {
    /// A value has been installed.
    pub open spec fn is_initialized(&self) -> bool {
        self.value is Some
    }

    /// No borrow is outstanding.
    pub open spec fn is_free(&self) -> bool {
        self.state == BorrowState::Free
    }

    /// Value-level transition of [`Self::call_once`]: installing into an
    /// initialized resource changes nothing.
    pub open spec fn spec_install(s: SingletonResource<T>, v: T) -> SingletonResource<T> {
        if s.value is Some {
            s
        } else {
            SingletonResource { value: Some(v), ..s }
        }
    }

    /// [`Self::spec_install`] folded over a sequence of candidates, in
    /// order.
    pub open spec fn install_fold(s: SingletonResource<T>, vs: Seq<T>) -> SingletonResource<T>
        decreases vs.len(),
    {
        if vs.len() == 0 {
            s
        } else {
            Self::spec_install(Self::install_fold(s, vs.drop_last()), vs.last())
        }
    }

    /// An empty, unborrowed resource.
    pub fn new() -> (r: Self)
        ensures
            r.value is None,
            r.state == BorrowState::Free,
    {
        SingletonResource { value: None, state: BorrowState::Free }
    }

    /// Runs `factory` and installs its result only when no value was
    /// ever installed; on every later call the factory does not run and
    /// nothing changes. Returns whether this call installed the value.
    pub fn call_once<F: FnOnce() -> T>(&mut self, factory: F) -> (installed: bool)
        requires
            !old(self).is_initialized() ==> call_requires(factory, ()),
        ensures
            installed == !old(self).is_initialized(),
            old(self).is_initialized() ==> *final(self) == *old(self),
            !old(self).is_initialized() ==> (final(self).value matches Some(v)
                && call_ensures(factory, (), v)
                && *final(self) == Self::spec_install(*old(self), v)),
    {
        if self.value.is_none() {
            self.value = Some(factory());
            true
        } else {
            false
        }
    }

    /// Attempts the non-blocking exclusive borrow. Contention is not a
    /// race to retry but a fatal defect: the caller must route the error
    /// into the shutdown path.
    pub fn try_acquire(&mut self) -> (r: Result<(), FatalError>)
        ensures
            final(self).value == old(self).value,
            old(self).is_free() ==> r is Ok && final(self).state == BorrowState::Borrowed,
            !old(self).is_free() ==> r == Err::<(), FatalError>(FatalError::ResourceBusy)
                && *final(self) == *old(self),
    {
        match self.state {
            BorrowState::Free => {
                self.state = BorrowState::Borrowed;
                Ok(())
            },
            _ => Err(FatalError::ResourceBusy),
        }
    }

    /// Ends the one outstanding scoped borrow.
    pub fn release(&mut self)
        requires
            old(self).state == BorrowState::Borrowed,
        ensures
            *final(self) == (SingletonResource { state: BorrowState::Free, ..*old(self) }),
    {
        self.state = BorrowState::Free;
    }

    /// Force-releases whatever borrow may be outstanding and takes a
    /// permanent one. Only the fatal-shutdown path may use this; the
    /// leak is deliberate, since the process is terminating.
    pub fn force_steal(&mut self)
        ensures
            *final(self) == (SingletonResource { state: BorrowState::Leaked, ..*old(self) }),
    {
        self.state = BorrowState::Leaked;
    }

    /// Shared read access to the installed value.
    pub fn borrow(&self) -> (r: &T)
        requires
            self.is_initialized(),
        ensures
            *r == self.value->0,
    {
        self.value.as_ref().unwrap()
    }

    /// Exclusive access to the installed value; the borrow bookkeeping
    /// is the caller's (see [`Self::try_acquire`]).
    pub fn borrow_mut(&mut self) -> (r: &mut T)
        requires
            old(self).is_initialized(),
        ensures
            *r == old(self).value->0,
            final(self).value == Some(*final(r)),
            final(self).state == old(self).state,
    {
        self.value.as_mut().unwrap()
    }
}

/// However many installs follow, the value of the first one is the value
/// that stays: folding any non-empty candidate sequence over an
/// uninitialized resource installs exactly the first candidate.
pub proof fn lemma_call_once_keeps_first<T>(s: SingletonResource<T>, vs: Seq<T>)
    requires
        !s.is_initialized(),
        vs.len() > 0,
    ensures
        SingletonResource::<T>::install_fold(s, vs).value == Some(vs[0]),
    decreases vs.len(),
{
    if vs.len() == 1 {
        assert(vs.drop_last() =~= Seq::<T>::empty());
    } else {
        lemma_call_once_keeps_first(s, vs.drop_last());
    }
}

} // verus!
