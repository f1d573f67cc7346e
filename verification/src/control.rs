//! The control-flow driver: structured `while` and `do`/`while` built as an
//! explicit trampoline. A step runs one body iteration and re-evaluates the
//! test; the continue-or-stop signal travels through the same dispatch
//! primitive as every other decision, and an outer driver loop — ordinary
//! iteration, not recursion — invokes steps until the signal says stop, so
//! stack depth stays constant however many iterations run. The driver carries
//! an explicit iteration budget, and reports in its result whether the test
//! went false or the budget ran out.

use crate::sum::HardBool;
use crate::sum::HardResult;
use crate::sum::SumView;
use vstd::prelude::*;

verus! {

/// `n` driver iterations lead from state `a` to state `b`: before each step
/// the test returned true of the current state, and the body then stepped it.
pub open spec fn runs<S, Ft: FnOnce(&S) -> HardBool, Fb: FnOnce(S) -> S>(
    test: Ft,
    body: Fb,
    a: S,
    b: S,
    n: nat,
) -> bool
    decreases n,
{
    if n == 0 {
        a == b
    } else {
        exists|mid: S, verdict: HardBool|
            runs(test, body, a, mid, (n - 1) as nat) && #[trigger] call_ensures(
                test,
                (&mid,),
                verdict,
            ) && verdict@ is OkVal && call_ensures(body, (mid,), b)
    }
}

/// `n` do-while iterations lead from state `a` to state `b`, every body call
/// on the way handing back a continue signal.
pub open spec fn continues<S, Fb: FnOnce(S) -> (S, HardBool)>(body: Fb, a: S, b: S, n: nat) -> bool
    decreases n,
{
    if n == 0 {
        a == b
    } else {
        exists|mid: S, sig: HardBool|
            continues(body, a, mid, (n - 1) as nat) && #[trigger] call_ensures(
                body,
                (mid,),
                (b, sig),
            ) && sig@ is OkVal
    }
}

impl HardBool {
    /// Structured `while`: re-evaluate `test` before each iteration and run
    /// `body` while it holds, from `init`, within an iteration budget of
    /// `fuel`. The Ok result carries the final state once the test went
    /// false; the Err result carries the state reached when the budget ran
    /// out with the test still true.
    pub fn while_loop<S, Ft: Fn(&S) -> HardBool, Fb: Fn(S) -> S>(
        test: Ft,
        body: Fb,
        init: S,
        fuel: u64,
    ) -> (r: HardResult<S, S>)
        requires
            forall|s: S| #[trigger] call_requires(test, (&s,)),
            forall|s: S| #[trigger] call_requires(body, (s,)),
        ensures
            r@ matches SumView::OkVal(s) ==> (exists|n: nat|
                n <= fuel && #[trigger] runs(test, body, init, s, n)) && (exists|verdict: HardBool|
                #[trigger] call_ensures(test, (&s,), verdict) && verdict@ is ErrVal),
            r@ matches SumView::ErrVal(s) ==> runs(test, body, init, s, fuel as nat),
    {
        let mut state = init;
        let mut used: u64 = 0;
        loop
            invariant
                used <= fuel,
                runs(test, body, init, state, used as nat),
                forall|s: S| #[trigger] call_requires(test, (&s,)),
                forall|s: S| #[trigger] call_requires(body, (s,)),
            decreases fuel - used,
        {
            let verdict = test(&state);
            let go = verdict.if_else(
                || -> (b: bool) ensures b { true },
                || -> (b: bool) ensures !b { false },
            );
            if !go {
                let out = HardResult::new(state);
                proof {
                    assert(runs(test, body, init, out@->OkVal_0, used as nat));
                    assert(call_ensures(test, (&(out@->OkVal_0),), verdict));
                }
                return out;
            }
            if used == fuel {
                return HardResult::new_err(state);
            }
            state = body(state);
            used = used + 1;
            proof {
                assert(runs(test, body, init, state, used as nat));
            }
        }
    }

    /// Structured `do`/`while`: run `body` at least once from `init`, and
    /// again while the signal it hands back stays true, within an iteration
    /// budget of `fuel`. The Ok result carries the state of the body call
    /// whose signal went false; the Err result the state after `fuel` calls,
    /// every signal still true.
    pub fn do_while<S, Fb: Fn(S) -> (S, HardBool)>(body: Fb, init: S, fuel: u64) -> (r: HardResult<
        S,
        S,
    >)
        requires
            fuel >= 1,
            forall|s: S| #[trigger] call_requires(body, (s,)),
        ensures
            r@ matches SumView::OkVal(s) ==> exists|prev: S, sig: HardBool, n: nat|
                #![trigger continues(body, init, prev, n), call_ensures(body, (prev,), (s, sig))]
                n < fuel && continues(body, init, prev, n) && call_ensures(body, (prev,), (s, sig))
                    && sig@ is ErrVal,
            r@ matches SumView::ErrVal(s) ==> continues(body, init, s, fuel as nat),
    {
        let mut state = init;
        let mut used: u64 = 0;
        loop
            invariant
                used < fuel,
                continues(body, init, state, used as nat),
                forall|s: S| #[trigger] call_requires(body, (s,)),
            decreases fuel - used,
        {
            let ghost prev = state;
            let stepped = body(state);
            let (next, sig) = stepped;
            let go = sig.if_else(
                || -> (b: bool) ensures b { true },
                || -> (b: bool) ensures !b { false },
            );
            if !go {
                let out = HardResult::new(next);
                proof {
                    assert(continues(body, init, prev, used as nat));
                    assert(call_ensures(body, (prev,), (out@->OkVal_0, sig)));
                }
                return out;
            }
            state = next;
            used = used + 1;
            proof {
                assert(continues(body, init, state, used as nat));
            }
            if used == fuel {
                return HardResult::new_err(state);
            }
        }
    }
}

} // verus!
