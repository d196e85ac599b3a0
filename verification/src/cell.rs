//! The cell: construction, inspection, and the five ways of invoking it.

use crate::state::State;
use vstd::prelude::*;

verus! {

/// A lazily evaluated function that caches its result after the first call.
///
/// Once the function is called, its output is stored and subsequent calls
/// return the cached value instead of recomputing it.
///
/// In contracts a cell is spoken of through its view, a [`State`].
#[derive(Debug, PartialEq, Eq, Hash)]
pub struct CachedFn<F, Output>(CachedFnInner<F, Output>);

/// Internal state of a [`CachedFn`].
#[derive(Debug, PartialEq, Eq, Hash)]
enum CachedFnInner<F, Output> {
    /// Function has not been called yet.
    NotCalled(F),
    /// Function has been called and its result cached.
    Called(Output),
    /// Set while a call is in flight, and left behind by one that did not
    /// complete: a later observer then sees neither a function that has
    /// already started running nor a result that was never produced.
    Poisoned,
}

impl<F, Output> CachedFnInner<F, Output> {
    /// The function, if it has not been called yet.
    #[must_use]
    #[inline]
    fn into_not_called(self) -> (func: Option<F>)
        ensures
            func == match self {
                CachedFnInner::NotCalled(f) => Some(f),
                _ => None,
            },
        no_unwind
    {
        match self {
            Self::NotCalled(f) => Some(f),
            _ => None,
        }
    }

    /// The cached result, if there is one, to read or to overwrite.
    #[must_use]
    #[inline]
    fn as_called_mut(&mut self) -> (output: Option<&mut Output>)
        ensures
            match *old(self) {
                CachedFnInner::Called(v) => {
                    &&& output matches Some(out)
                    &&& *out == v
                    &&& *final(self) == CachedFnInner::<F, Output>::Called(*final(out))
                },
                _ => output is None && *final(self) == *old(self),
            },
        no_unwind
    {
        match self {
            Self::Called(output) => Some(output),
            _ => None,
        }
    }

    /// Stores `f` as the function still to be called and hands back what was
    /// there before.
    #[inline]
    fn set_not_called(&mut self, f: F) -> (prev: Self)
        ensures
            prev == *old(self),
            *final(self) == CachedFnInner::<F, Output>::NotCalled(f),
        no_unwind
    {
        let mut next = Self::NotCalled(f);
        core::mem::swap(self, &mut next);
        next
    }

    /// Stores `output` as the cached result and hands back what was there
    /// before.
    #[inline]
    fn set_called(&mut self, output: Output) -> (prev: Self)
        ensures
            prev == *old(self),
            *final(self) == CachedFnInner::<F, Output>::Called(output),
        no_unwind
    {
        let mut next = Self::Called(output);
        core::mem::swap(self, &mut next);
        next
    }

    /// Marks the cell poisoned and hands back what was there before.
    #[inline]
    fn set_poisoned(&mut self) -> (prev: Self)
        ensures
            prev == *old(self),
            *final(self) == CachedFnInner::<F, Output>::Poisoned,
        no_unwind
    {
        let mut next = Self::Poisoned;
        core::mem::swap(self, &mut next);
        next
    }
}

impl<F, Output> View for CachedFn<F, Output> {
    type V = State<F, Output>;

    closed spec fn view(&self) -> State<F, Output> {
        match self.0 {
            CachedFnInner::NotCalled(f) => State::NotCalled(f),
            CachedFnInner::Called(output) => State::Called(output),
            CachedFnInner::Poisoned => State::Poisoned,
        }
    }
}

impl<F: Clone, Output: Clone> Clone for CachedFn<F, Output> {
    /// The copy is in the state of `self` and holds a clone of what `self`
    /// holds.
    fn clone(&self) -> (copy: Self)
        ensures
            match self@ {
                State::NotCalled(f) => copy@ matches State::NotCalled(g) && cloned(f, g),
                State::Called(v) => copy@ matches State::Called(w) && cloned(v, w),
                State::Poisoned => copy@ is Poisoned,
            },
    {
        match &self.0 {
            CachedFnInner::NotCalled(f) => Self(CachedFnInner::NotCalled(f.clone())),
            CachedFnInner::Called(output) => Self(CachedFnInner::Called(output.clone())),
            CachedFnInner::Poisoned => Self(CachedFnInner::Poisoned),
        }
    }
}

impl<F, Output> CachedFn<F, Output> {
    /// Creates a new [`CachedFn`] wrapping the given function, which is not
    /// called.
    #[must_use]
    #[inline]
    pub fn new(func: F) -> (cell: Self)
        ensures
            cell@ == State::<F, Output>::NotCalled(func),
        no_unwind
    {
        Self(CachedFnInner::NotCalled(func))
    }

    /// Returns the cached output if the function has been called.
    #[must_use]
    #[inline]
    pub fn as_called(&self) -> (output: Option<&Output>)
        ensures
            output == self@.as_called(),
        no_unwind
    {
        match &self.0 {
            CachedFnInner::Called(output) => Some(output),
            _ => None,
        }
    }

    /// Returns a reference to the underlying function if it hasn't been
    /// called yet.
    #[must_use]
    #[inline]
    pub fn as_not_called(&self) -> (func: Option<&F>)
        ensures
            func == self@.as_not_called(),
        no_unwind
    {
        match &self.0 {
            CachedFnInner::NotCalled(f) => Some(f),
            _ => None,
        }
    }

    /// Returns a mutable reference to the cached output if available. What
    /// the caller writes through it is what the cell then holds.
    #[must_use]
    #[inline]
    pub fn as_called_mut(&mut self) -> (output: Option<&mut Output>)
        ensures
            match old(self)@ {
                State::Called(v) => {
                    &&& output matches Some(out)
                    &&& *out == v
                    &&& final(self)@ == State::<F, Output>::Called(*final(out))
                },
                _ => output is None && final(self)@ == old(self)@,
            },
        no_unwind
    {
        match &mut self.0 {
            CachedFnInner::Called(output) => Some(output),
            _ => None,
        }
    }

    /// Returns a mutable reference to the function if it hasn't been called
    /// yet. What the caller writes through it is what the cell then holds.
    #[must_use]
    #[inline]
    pub fn as_not_called_mut(&mut self) -> (func: Option<&mut F>)
        ensures
            match old(self)@ {
                State::NotCalled(f) => {
                    &&& func matches Some(g)
                    &&& *g == f
                    &&& final(self)@ == State::<F, Output>::NotCalled(*final(g))
                },
                _ => func is None && final(self)@ == old(self)@,
            },
        no_unwind
    {
        match &mut self.0 {
            CachedFnInner::NotCalled(f) => Some(f),
            _ => None,
        }
    }

    /// Converts into the cached value if available, otherwise returns
    /// `Err(self)`.
    #[inline]
    pub fn try_into_called(self) -> (res: Result<Output, Self>)
        ensures
            res == match self@ {
                State::Called(v) => Ok::<Output, Self>(v),
                _ => Err::<Output, Self>(self),
            },
        no_unwind
    {
        match self.0 {
            CachedFnInner::Called(output) => Ok(output),
            _ => Err(self),
        }
    }

    /// Converts into the underlying function if not yet called, otherwise
    /// returns `Err(self)`.
    #[inline]
    pub fn try_into_not_called(self) -> (res: Result<F, Self>)
        ensures
            res == match self@ {
                State::NotCalled(f) => Ok::<F, Self>(f),
                _ => Err::<F, Self>(self),
            },
        no_unwind
    {
        match self.0 {
            CachedFnInner::NotCalled(f) => Ok(f),
            _ => Err(self),
        }
    }

    /// Returns `true` if the function has been called and its result cached.
    #[must_use]
    #[inline]
    pub fn is_called(&self) -> (b: bool)
        ensures
            b == (self@ is Called),
        no_unwind
    {
        matches!(self.0, CachedFnInner::Called(_))
    }

    /// Returns `true` if the function has not yet been called.
    #[must_use]
    #[inline]
    pub fn is_not_called(&self) -> (b: bool)
        ensures
            b == (self@ is NotCalled),
        no_unwind
    {
        matches!(self.0, CachedFnInner::NotCalled(_))
    }

    /// Returns `true` if this [`CachedFn`] is in a poisoned state.
    #[must_use]
    #[inline]
    pub fn is_poisoned(&self) -> (b: bool)
        ensures
            b == (self@ is Poisoned),
        no_unwind
    {
        matches!(self.0, CachedFnInner::Poisoned)
    }
}

impl<F, Output> CachedFn<F, Output> where F: FnOnce() -> Output {
    /// Calls the function if it hasn't been called yet and caches its result.
    ///
    /// Returns a mutable reference to the cached result. A cell that already
    /// holds a result hands it out and runs nothing, so that the call cannot
    /// unwind.
    ///
    /// While the function runs the cell is poisoned, and it stays so if the
    /// function unwinds.
    ///
    /// # Panics
    ///
    /// A poisoned cell must not be called, which the precondition rules out.
    /// A caller that was not verified against it gets a panic.
    pub fn call(&mut self) -> (out: &mut Output)
        requires
            old(self)@.invocable(),
        ensures
            old(self)@.yields(*out),
            final(self)@ == State::<F, Output>::Called(*final(out)),
        no_unwind when old(self)@.runs() == 0
    {
        let inner = &mut self.0;
        match inner {
            CachedFnInner::NotCalled(_) => {
                let f = inner.set_poisoned().into_not_called().unwrap();
                // Poisoned for as long as the function runs.
                assert(*inner is Poisoned);
                inner.set_called(f());
                inner.as_called_mut().unwrap()
            },
            CachedFnInner::Called(res) => res,
            CachedFnInner::Poisoned => unreached(),
        }
    }

    /// Consumes the [`CachedFn`], calling the function if it hasn't been
    /// called yet, and returns the result.
    ///
    /// # Panics
    ///
    /// A poisoned cell must not be called, which the precondition rules out.
    /// A caller that was not verified against it gets a panic.
    pub fn call_into(self) -> (out: Output)
        requires
            self@.invocable(),
        ensures
            self@.yields(out),
        no_unwind when self@.runs() == 0
    {
        match self.0 {
            CachedFnInner::NotCalled(f) => f(),
            CachedFnInner::Called(res) => res,
            CachedFnInner::Poisoned => unreached(),
        }
    }
}

impl<F, Output, E> CachedFn<F, Output> where F: FnOnce() -> Result<Output, E> {
    /// Calls the function and caches its result on success.
    ///
    /// On success a mutable reference to the cached result is returned. If
    /// the function returns an error, the error is returned and the cell is
    /// left poisoned: it must be dropped and never invoked again. A cell that
    /// already holds a result hands it out and runs nothing, so that the call
    /// cannot unwind.
    ///
    /// While the function runs the cell is poisoned, and it stays so if the
    /// function unwinds.
    ///
    /// # Panics
    ///
    /// A poisoned cell must not be called, which the precondition rules out.
    /// A caller that was not verified against it gets a panic.
    pub fn poisoning_try_call(&mut self) -> (res: Result<&mut Output, E>)
        requires
            old(self)@.invocable(),
        ensures
            match res {
                Ok(out) => {
                    &&& old(self)@.try_yields(Ok::<Output, E>(*out))
                    &&& final(self)@ == old(self)@.after_poisoning_try_call(Ok::<Output, E>(*final(out)))
                },
                Err(err) => {
                    &&& old(self)@.try_yields(Err::<Output, E>(err))
                    &&& final(self)@ == old(self)@.after_poisoning_try_call(Err::<Output, E>(err))
                },
            },
        no_unwind when old(self)@.runs() == 0
    {
        let inner = &mut self.0;
        match inner {
            CachedFnInner::NotCalled(_) => {
                let f = inner.set_poisoned().into_not_called().unwrap();
                // Poisoned for as long as the function runs.
                assert(*inner is Poisoned);
                match f() {
                    Ok(output) => {
                        inner.set_called(output);
                        Ok(inner.as_called_mut().unwrap())
                    },
                    Err(err) => Err(err),
                }
            },
            CachedFnInner::Called(res) => Ok(res),
            CachedFnInner::Poisoned => unreached(),
        }
    }

    /// Consumes the [`CachedFn`], calling the function if necessary and
    /// returning its result.
    ///
    /// # Panics
    ///
    /// A poisoned cell must not be called, which the precondition rules out.
    /// A caller that was not verified against it gets a panic.
    pub fn try_call_into(self) -> (res: Result<Output, E>)
        requires
            self@.invocable(),
        ensures
            self@.try_yields(res),
        no_unwind when self@.runs() == 0
    {
        match self.0 {
            CachedFnInner::NotCalled(f) => f(),
            CachedFnInner::Called(res) => Ok(res),
            CachedFnInner::Poisoned => unreached(),
        }
    }

    /// Calls the function and returns a new [`CachedFn`] on success.
    ///
    /// The cell handed back holds the result. On failure the error is
    /// returned and no cell is left: a failed call never leaves a poisoned
    /// cell behind.
    ///
    /// # Panics
    ///
    /// A poisoned cell must not be called, which the precondition rules out.
    /// A caller that was not verified against it gets a panic.
    pub fn safe_try_call(self) -> (res: Result<Self, E>)
        requires
            self@.invocable(),
        ensures
            match res {
                Ok(cell) => cell@ matches State::Called(v) && self@.try_yields(Ok::<Output, E>(v)),
                Err(err) => self@.try_yields(Err::<Output, E>(err)),
            },
        no_unwind when self@.runs() == 0
    {
        match self.0 {
            CachedFnInner::NotCalled(f) => {
                match f() {
                    Ok(output) => Ok(Self(CachedFnInner::Called(output))),
                    Err(err) => Err(err),
                }
            },
            CachedFnInner::Called(_) => Ok(self),
            CachedFnInner::Poisoned => unreached(),
        }
    }
}

impl<F, Output, E> CachedFn<F, Output> where F: FnMut() -> Result<Output, E> {
    /// Attempts to call the function and caches its result on success.
    ///
    /// On success a mutable reference to the cached result is returned. If
    /// the function returns an error, the error is returned and the cell
    /// remains callable: the function is put back, and a later `try_call`
    /// runs it again. A cell that already holds a result hands it out and
    /// runs nothing, so that the call cannot unwind.
    ///
    /// While the function runs the cell is poisoned, and it stays so if the
    /// function unwinds.
    ///
    /// # Panics
    ///
    /// A poisoned cell must not be called, which the precondition rules out.
    /// A caller that was not verified against it gets a panic.
    pub fn try_call(&mut self) -> (res: Result<&mut Output, E>)
        requires
            old(self)@.invocable(),
        ensures
            match res {
                Ok(out) => {
                    &&& old(self)@.try_yields(Ok::<Output, E>(*out))
                    &&& final(self)@ == old(self)@.after_try_call(Ok::<Output, E>(*final(out)))
                },
                Err(err) => {
                    &&& old(self)@.try_yields(Err::<Output, E>(err))
                    &&& final(self)@ == old(self)@.after_try_call(Err::<Output, E>(err))
                },
            },
        no_unwind when old(self)@.runs() == 0
    {
        let inner = &mut self.0;
        match inner {
            CachedFnInner::NotCalled(_) => {
                let mut f = inner.set_poisoned().into_not_called().unwrap();
                // Poisoned for as long as the function runs.
                assert(*inner is Poisoned);
                match f() {
                    Ok(output) => {
                        inner.set_called(output);
                        Ok(inner.as_called_mut().unwrap())
                    },
                    Err(err) => {
                        inner.set_not_called(f);
                        Err(err)
                    },
                }
            },
            CachedFnInner::Called(res) => Ok(res),
            CachedFnInner::Poisoned => unreached(),
        }
    }
}

} // verus!
