//! The mathematical model of a cell: the three states it can be in, what it
//! holds in each, and how an invocation moves it from one to the next.
//!
//! The contracts of [`CachedFn`](crate::cell::CachedFn) are written over this
//! model, and the laws in [`laws`](crate::laws) are proved about it.

use vstd::prelude::*;

verus! {

/// What a cell holds, as a plain value.
pub enum State<F, Output> {
    /// The computation has not run yet; the cell holds it.
    NotCalled(F),
    /// The computation has run; the cell holds its result.
    Called(Output),
    /// The cell holds nothing and must not be invoked again.
    Poisoned,
}

impl<F, Output> State<F, Output> {
    /// The stored result, where there is one.
    pub open spec fn as_called(&self) -> Option<&Output> {
        match self {
            State::Called(v) => Some(v),
            _ => None,
        }
    }

    /// The computation that is still to run, where there is one.
    pub open spec fn as_not_called(&self) -> Option<&F> {
        match self {
            State::NotCalled(f) => Some(f),
            _ => None,
        }
    }

    /// An invocation may be made in this state: the cell is not poisoned, and
    /// the computation it may still hold accepts being run.
    pub open spec fn invocable<R>(self) -> bool where F: FnOnce() -> R {
        match self {
            State::NotCalled(f) => call_requires(f, ()),
            State::Called(_) => true,
            State::Poisoned => false,
        }
    }

    /// How many times one invocation made in this state runs the computation:
    /// once where the cell still holds it, never otherwise. Where this is 0,
    /// the invocations are proved not to unwind, which running a computation
    /// could.
    pub open spec fn runs(self) -> nat {
        if self is NotCalled {
            1
        } else {
            0
        }
    }

    /// `out` is a value that invoking a total computation in this state can
    /// hand out: a result of the pending computation, or else the stored
    /// result and nothing but it.
    pub open spec fn yields(self, out: Output) -> bool where F: FnOnce() -> Output {
        match self {
            State::NotCalled(f) => call_ensures(f, (), out),
            State::Called(v) => out == v,
            State::Poisoned => false,
        }
    }

    /// `res` is a value that invoking a fallible computation in this state can
    /// return: a result of the pending computation, be it a success or an
    /// error, or else the stored result as a success and nothing but it.
    pub open spec fn try_yields<E>(self, res: Result<Output, E>) -> bool where
        F: FnOnce() -> Result<Output, E>,
    {
        match self {
            State::NotCalled(f) => call_ensures(f, (), res),
            State::Called(v) => res == Ok::<Output, E>(v),
            State::Poisoned => false,
        }
    }

    /// The state in which an in-place invocation that poisons on failure
    /// leaves the cell, given what it returned: a success is stored, an error
    /// leaves the cell poisoned.
    pub open spec fn after_poisoning_try_call<E>(self, res: Result<Output, E>) -> Self {
        match res {
            Ok(v) => State::Called(v),
            Err(_) => State::Poisoned,
        }
    }

    /// The state in which an in-place invocation that may be retried leaves
    /// the cell, given what it returned: a success is stored, an error leaves
    /// the cell as it was.
    pub open spec fn after_try_call<E>(self, res: Result<Output, E>) -> Self {
        match res {
            Ok(v) => State::Called(v),
            Err(_) => self,
        }
    }
}

} // verus!
