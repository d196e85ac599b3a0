//! Laws of the cell, stated and proved over its model.
//!
//! Each law speaks of states and of the relations that the contracts of
//! [`CachedFn`](crate::cell::CachedFn) are written with, so that it holds of
//! every cell whatever it wraps.

use crate::state::State;
use vstd::prelude::*;

verus! {

/// A cell is in exactly one of its three states: of the three predicates
/// `is_not_called`, `is_called` and `is_poisoned`, one is true and the other
/// two are false.
pub proof fn lemma_exactly_one_state<F, Output>(s: State<F, Output>)
    ensures
        (s is NotCalled) || (s is Called) || (s is Poisoned),
        !((s is NotCalled) && (s is Called)),
        !((s is NotCalled) && (s is Poisoned)),
        !((s is Called) && (s is Poisoned)),
{
}

/// `outs` lists, in order, what successive calls of a total computation hand
/// out, the first of them made in state `s`, where no caller writes through
/// what it was handed.
pub open spec fn call_trace<F: FnOnce() -> Output, Output>(
    s: State<F, Output>,
    outs: Seq<Output>,
) -> bool
    decreases outs.len(),
{
    if outs.len() == 0 {
        true
    } else {
        s.yields(outs[0]) && call_trace(State::<F, Output>::Called(outs[0]), outs.drop_first())
    }
}

/// How many times the computation runs in the course of the calls that
/// [`call_trace`] describes.
pub open spec fn call_runs<F, Output>(s: State<F, Output>, outs: Seq<Output>) -> nat
    decreases outs.len(),
{
    if outs.len() == 0 {
        0
    } else {
        s.runs() + call_runs(State::<F, Output>::Called(outs[0]), outs.drop_first())
    }
}

/// However often a cell is called, every call hands out what the first one
/// did, and the computation runs once in all if the cell had not been called
/// before, and not at all if it had.
pub proof fn lemma_call_runs_once<F: FnOnce() -> Output, Output>(
    s: State<F, Output>,
    outs: Seq<Output>,
)
    requires
        call_trace(s, outs),
    ensures
        forall|i: int| 0 <= i < outs.len() ==> #[trigger] outs[i] == outs[0],
        call_runs(s, outs) == if s is NotCalled && outs.len() > 0 {
            1nat
        } else {
            0nat
        },
    decreases outs.len(),
{
    if outs.len() > 0 {
        let rest = outs.drop_first();
        lemma_call_runs_once(State::<F, Output>::Called(outs[0]), rest);
        assert forall|i: int| 0 < i < outs.len() implies #[trigger] outs[i] == outs[0] by {
            assert(outs[i] == rest[i - 1]);
            assert(rest[0] == outs[0]);
        }
    }
}

/// Once a cell holds a result, calling it runs nothing, hands out that result
/// and no other, the one that `as_called` shows, and leaves the cell as it
/// was.
pub proof fn lemma_called_yields_stored<F: FnOnce() -> Output, Output>(
    s: State<F, Output>,
    out: Output,
)
    requires
        s is Called,
    ensures
        s.invocable(),
        s.runs() == 0,
        s.yields(out) <==> s.as_called() == Some(&out),
        s.yields(out) ==> State::<F, Output>::Called(out) == s,
{
}

/// Once a cell holds a result, each fallible invocation runs nothing,
/// returns that result as a success and nothing else, and leaves the cell as
/// it was.
pub proof fn lemma_called_try_yields_stored<F: FnOnce() -> Result<Output, E>, Output, E>(
    s: State<F, Output>,
    res: Result<Output, E>,
)
    requires
        s is Called,
    ensures
        s.invocable(),
        s.runs() == 0,
        s.try_yields(res) <==> (res matches Ok(v) && s.as_called() == Some(&v)),
        s.try_yields(res) ==> s.after_poisoning_try_call(res) == s && s.after_try_call(res) == s,
{
}

/// A computation that can only fail poisons its cell under
/// `poisoning_try_call`: what the call returns is an error, the cell is left
/// poisoned, and a poisoned cell admits no further invocation.
pub proof fn lemma_failure_poisons<F: FnOnce() -> Result<Output, E>, Output, E>(
    f: F,
    res: Result<Output, E>,
)
    requires
        forall|r: Result<Output, E>| #[trigger] call_ensures(f, (), r) ==> r is Err,
        State::<F, Output>::NotCalled(f).try_yields(res),
    ensures
        res is Err,
        State::<F, Output>::NotCalled(f).after_poisoning_try_call(res) is Poisoned,
        !State::<F, Output>::NotCalled(f).after_poisoning_try_call(res).invocable(),
{
}

/// `results` lists, in order, what successive calls of `try_call` return, the
/// first of them made in state `s`, where no caller writes through what it
/// was handed.
pub open spec fn try_call_trace<F: FnOnce() -> Result<Output, E>, Output, E>(
    s: State<F, Output>,
    results: Seq<Result<Output, E>>,
) -> bool
    decreases results.len(),
{
    if results.len() == 0 {
        true
    } else {
        s.try_yields(results[0]) && try_call_trace(
            s.after_try_call(results[0]),
            results.drop_first(),
        )
    }
}

/// The state of the cell after the calls that [`try_call_trace`] describes.
pub open spec fn try_call_end<F, Output, E>(
    s: State<F, Output>,
    results: Seq<Result<Output, E>>,
) -> State<F, Output>
    decreases results.len(),
{
    if results.len() == 0 {
        s
    } else {
        try_call_end(s.after_try_call(results[0]), results.drop_first())
    }
}

/// How many times the computation runs in the course of the calls that
/// [`try_call_trace`] describes.
pub open spec fn try_call_runs<F, Output, E>(
    s: State<F, Output>,
    results: Seq<Result<Output, E>>,
) -> nat
    decreases results.len(),
{
    if results.len() == 0 {
        0
    } else {
        s.runs() + try_call_runs(s.after_try_call(results[0]), results.drop_first())
    }
}

/// A failed `try_call` leaves the cell as it was, so that it can be invoked
/// again.
pub proof fn lemma_failure_restores<F: FnOnce() -> Result<Output, E>, Output, E>(
    s: State<F, Output>,
    err: E,
)
    requires
        s.invocable(),
        s.try_yields(Err::<Output, E>(err)),
    ensures
        s is NotCalled,
        s.after_try_call(Err::<Output, E>(err)) == s,
        s.after_try_call(Err::<Output, E>(err)).invocable(),
{
}

/// Retrying until success: where every `try_call` but the last returns an
/// error and the last succeeds with `v`, the cell ends up holding `v`, and the
/// computation has run once for each call.
pub proof fn lemma_retry_then_succeed<F: FnOnce() -> Result<Output, E>, Output, E>(
    s: State<F, Output>,
    results: Seq<Result<Output, E>>,
    v: Output,
)
    requires
        s is NotCalled,
        results.len() > 0,
        try_call_trace(s, results),
        forall|i: int| 0 <= i < results.len() - 1 ==> #[trigger] results[i] is Err,
        results.last() == Ok::<Output, E>(v),
    ensures
        try_call_end(s, results) == State::<F, Output>::Called(v),
        try_call_runs(s, results) == results.len(),
    decreases results.len(),
{
    let rest = results.drop_first();
    if results.len() == 1 {
        assert(try_call_end(s.after_try_call(results[0]), rest) == s.after_try_call(results[0]));
        assert(try_call_runs(s.after_try_call(results[0]), rest) == 0);
    } else {
        assert(results[0] is Err);
        assert forall|i: int| 0 <= i < rest.len() - 1 implies #[trigger] rest[i] is Err by {
            assert(rest[i] == results[i + 1]);
        }
        lemma_retry_then_succeed(s, rest, v);
    }
}

} // verus!
