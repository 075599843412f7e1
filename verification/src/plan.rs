//! What a construction will do when it is created, and what follows from
//! that.

use crate::effect::{admits, admits_push, runs, runs_of_push, runs_to_one_output, Effect};
use vstd::prelude::*;

verus! {

/// What a construction will do when it is created: the outputs that its
/// definition may give, and the effects of the callbacks that then run on
/// such an output, oldest first.
#[verifier::reject_recursive_types(O)]
pub struct Plan<O> {
    pub defines: spec_fn(O) -> bool,
    pub callbacks: Seq<Effect<O>>,
}

impl<O> Plan<O> {
    /// The plan with `effect` behind the callbacks that are already there.
    pub open spec fn with(self, effect: Effect<O>) -> Plan<O> {
        Plan { defines: self.defines, callbacks: self.callbacks.push(effect) }
    }

    /// Whether the callbacks may be run on whatever the definition gives.
    pub open spec fn ready(self) -> bool {
        forall|first: O| #[trigger] (self.defines)(first) ==> admits(self.callbacks, first)
    }

    /// Whether `out` is an output that creation may give: an output of the
    /// definition, after every callback has run on it in turn.
    pub open spec fn creates(self, out: O) -> bool {
        exists|first: O| #[trigger] (self.defines)(first) && runs(self.callbacks, first, out)
    }

    /// Whether `res` is a result that building with `finish` may give: what
    /// `finish` may return for an output that creation may give.
    pub open spec fn builds<R, F: FnOnce(O) -> R>(self, finish: F, res: R) -> bool {
        exists|out: O| #[trigger] self.creates(out) && call_ensures(finish, (out,), res)
    }
}

/// Without callbacks, creation may give exactly the outputs that the
/// definition may give, and nothing stands in its way.
pub proof fn plan_without_callbacks<O>(plan: Plan<O>, out: O)
    requires
        plan.callbacks.len() == 0,
    ensures
        plan.ready(),
        plan.creates(out) <==> (plan.defines)(out),
{
    if (plan.defines)(out) {
        assert(runs(plan.callbacks, out, out));
    }
}

/// Without callbacks, building with `finish` may give exactly what `finish`
/// may return for an output that the definition may give.
pub proof fn builds_without_callbacks<O, R, F: FnOnce(O) -> R>(plan: Plan<O>, finish: F, res: R)
    requires
        plan.callbacks.len() == 0,
    ensures
        plan.builds(finish, res) <==> exists|out: O| #[trigger]
            (plan.defines)(out) && call_ensures(finish, (out,), res),
{
    if plan.builds(finish, res) {
        let out = choose|out: O| #[trigger] plan.creates(out) && call_ensures(finish, (out,), res);
        plan_without_callbacks(plan, out);
        assert((plan.defines)(out) && call_ensures(finish, (out,), res));
    }
    if exists|out: O| #[trigger] (plan.defines)(out) && call_ensures(finish, (out,), res) {
        let out = choose|out: O| #[trigger]
            (plan.defines)(out) && call_ensures(finish, (out,), res);
        plan_without_callbacks(plan, out);
        assert(plan.creates(out) && call_ensures(finish, (out,), res));
    }
}

/// Where the definition gives one output only, and each callback leaves one
/// output only, creation gives one output only. Without callbacks it is
/// enough that the definition gives one output only.
pub proof fn creates_one_output<O>(plan: Plan<O>, one: O, other: O)
    requires
        forall|a: O, b: O|
            #![trigger (plan.defines)(a), (plan.defines)(b)]
            (plan.defines)(a) && (plan.defines)(b) ==> a == b,
        forall|i: int|
            0 <= i < plan.callbacks.len() ==> (#[trigger] plan.callbacks[i]).single_valued(),
        plan.creates(one),
        plan.creates(other),
    ensures
        one == other,
{
    let first_one = choose|first: O| #[trigger]
        (plan.defines)(first) && runs(plan.callbacks, first, one);
    let first_other = choose|first: O| #[trigger]
        (plan.defines)(first) && runs(plan.callbacks, first, other);
    runs_to_one_output(plan.callbacks, first_one, one, other);
}

/// A callback registered last runs last, once, on what creation would have
/// given without it.
pub proof fn creates_with_callback<O>(plan: Plan<O>, effect: Effect<O>, out: O)
    ensures
        plan.with(effect).creates(out) <==> exists|mid: O|
            plan.creates(mid) && #[trigger] (effect.transforms)(mid, out),
{
    let more = plan.with(effect);
    if more.creates(out) {
        let first = choose|first: O| #[trigger]
            (more.defines)(first) && runs(more.callbacks, first, out);
        runs_of_push(plan.callbacks, effect, first, out);
        let mid = choose|mid: O|
            runs(plan.callbacks, first, mid) && #[trigger] (effect.transforms)(mid, out);
        assert((plan.defines)(first) && runs(plan.callbacks, first, mid));
        assert(plan.creates(mid) && (effect.transforms)(mid, out));
    }
    if exists|mid: O| plan.creates(mid) && #[trigger] (effect.transforms)(mid, out) {
        let mid = choose|mid: O| plan.creates(mid) && #[trigger] (effect.transforms)(mid, out);
        let first = choose|first: O| #[trigger]
            (plan.defines)(first) && runs(plan.callbacks, first, mid);
        runs_of_push(plan.callbacks, effect, first, out);
        assert((more.defines)(first) && runs(more.callbacks, first, out));
    }
}

/// A plan with one more callback is ready exactly if it was ready before and
/// the new callback accepts whatever creation would have given without it.
pub proof fn ready_with_callback<O>(plan: Plan<O>, effect: Effect<O>)
    ensures
        plan.with(effect).ready() <==> plan.ready() && forall|mid: O| #[trigger]
            plan.creates(mid) ==> (effect.accepts)(mid),
{
    let more = plan.with(effect);
    assert forall|first: O| #[trigger] (plan.defines)(first) implies (admits(
        more.callbacks,
        first,
    ) <==> admits(plan.callbacks, first) && forall|mid: O| #[trigger]
        runs(plan.callbacks, first, mid) ==> (effect.accepts)(mid)) by {
        admits_push(plan.callbacks, effect, first);
    }
    if more.ready() {
        assert forall|first: O| #[trigger] (plan.defines)(first) implies admits(
            plan.callbacks,
            first,
        ) by {
            assert((more.defines)(first));
        }
        assert forall|mid: O| #[trigger] plan.creates(mid) implies (effect.accepts)(mid) by {
            let first = choose|first: O| #[trigger]
                (plan.defines)(first) && runs(plan.callbacks, first, mid);
            assert((more.defines)(first));
        }
    }
    if plan.ready() && forall|mid: O| #[trigger] plan.creates(mid) ==> (effect.accepts)(mid) {
        assert forall|first: O| #[trigger] (more.defines)(first) implies admits(
            more.callbacks,
            first,
        ) by {
            assert((plan.defines)(first));
            assert forall|mid: O| #[trigger] runs(plan.callbacks, first, mid) implies (
            effect.accepts)(mid) by {
                assert(plan.creates(mid));
            }
        }
    }
}

} // verus!
