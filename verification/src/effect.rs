//! What callbacks do to an output, one by one and in a row.

use vstd::prelude::*;

verus! {

/// What a callback is to a contract: the outputs it may be run on, and the
/// outputs it may turn each of them into.
#[verifier::reject_recursive_types(O)]
pub struct Effect<O> {
    pub accepts: spec_fn(O) -> bool,
    pub transforms: spec_fn(O, O) -> bool,
}

impl<O> Effect<O> {
    /// Whether the effect leaves at most one output for each output it is
    /// run on.
    pub open spec fn single_valued(self) -> bool {
        forall|before: O, one: O, other: O|
            #![trigger (self.transforms)(before, one), (self.transforms)(before, other)]
            (self.transforms)(before, one) && (self.transforms)(before, other) ==> one == other
    }
}

/// Whether running `effects` one after the other, oldest first, each on what
/// the one before it left, may turn `first` into `last`.
pub open spec fn runs<O>(effects: Seq<Effect<O>>, first: O, last: O) -> bool
    decreases effects.len(),
{
    if effects.len() == 0 {
        last == first
    } else {
        exists|mid: O|
            runs(effects.drop_last(), first, mid) && #[trigger] (effects.last().transforms)(
                mid,
                last,
            )
    }
}

/// Whether `effects` may be run on `first`: each of them accepts every output
/// that the ones before it may have left.
pub open spec fn admits<O>(effects: Seq<Effect<O>>, first: O) -> bool {
    forall|i: int, mid: O|
        0 <= i < effects.len() && #[trigger] runs(effects.take(i), first, mid) ==> (
        effects[i].accepts)(mid)
}

/// With no callback, the output stays what it was.
pub proof fn runs_of_none<O>(first: O, last: O)
    ensures
        runs(Seq::<Effect<O>>::empty(), first, last) <==> last == first,
{
}

/// One more callback runs after the others, on what they left.
pub proof fn runs_of_push<O>(effects: Seq<Effect<O>>, effect: Effect<O>, first: O, last: O)
    ensures
        runs(effects.push(effect), first, last) <==> exists|mid: O|
            runs(effects, first, mid) && #[trigger] (effect.transforms)(mid, last),
{
    let all = effects.push(effect);
    assert(all.drop_last() == effects);
    assert(all.last() == effect);
    if runs(all, first, last) {
        let mid = choose|mid: O|
            runs(all.drop_last(), first, mid) && #[trigger] (all.last().transforms)(mid, last);
        assert(runs(effects, first, mid) && (effect.transforms)(mid, last));
    }
    if exists|mid: O| runs(effects, first, mid) && #[trigger] (effect.transforms)(mid, last) {
        let mid = choose|mid: O|
            runs(effects, first, mid) && #[trigger] (effect.transforms)(mid, last);
        assert(runs(all.drop_last(), first, mid) && (all.last().transforms)(mid, last));
    }
}

/// Nothing stands in the way of running no callback.
pub proof fn admits_none<O>(first: O)
    ensures
        admits(Seq::<Effect<O>>::empty(), first),
{
}

/// One more callback may be run after the others exactly if they may be run
/// and it accepts whatever they may leave.
pub proof fn admits_push<O>(effects: Seq<Effect<O>>, effect: Effect<O>, first: O)
    ensures
        admits(effects.push(effect), first) <==> admits(effects, first) && forall|mid: O|
            #[trigger] runs(effects, first, mid) ==> (effect.accepts)(mid),
{
    let all = effects.push(effect);
    assert(all.take(effects.len() as int) == effects);
    assert forall|i: int| 0 <= i < effects.len() implies #[trigger] all.take(i) == effects.take(i)
        && all[i] == effects[i] by {
        assert(all.take(i) =~= effects.take(i));
    }
    if admits(all, first) {
        assert forall|i: int, mid: O|
            0 <= i < effects.len() && #[trigger] runs(effects.take(i), first, mid) implies (
        effects[i].accepts)(mid) by {
            assert(runs(all.take(i), first, mid));
        }
        assert forall|mid: O| #[trigger] runs(effects, first, mid) implies (effect.accepts)(
            mid,
        ) by {
            assert(runs(all.take(effects.len() as int), first, mid));
            assert(all[effects.len() as int] == effect);
        }
    }
    if admits(effects, first) && forall|mid: O|
        #[trigger] runs(effects, first, mid) ==> (effect.accepts)(mid) {
        assert forall|i: int, mid: O|
            0 <= i < all.len() && #[trigger] runs(all.take(i), first, mid) implies (
        all[i].accepts)(mid) by {
            if i < effects.len() {
                assert(runs(effects.take(i), first, mid));
            } else {
                assert(runs(effects, first, mid));
            }
        }
    }
}

/// Callbacks that each leave one output only leave one output only when
/// they are run in a row.
pub proof fn runs_to_one_output<O>(effects: Seq<Effect<O>>, first: O, one: O, other: O)
    requires
        forall|i: int| 0 <= i < effects.len() ==> (#[trigger] effects[i]).single_valued(),
        runs(effects, first, one),
        runs(effects, first, other),
    ensures
        one == other,
    decreases effects.len(),
{
    if effects.len() > 0 {
        let last = effects.last();
        let mid_one = choose|mid: O|
            runs(effects.drop_last(), first, mid) && #[trigger] (last.transforms)(mid, one);
        let mid_other = choose|mid: O|
            runs(effects.drop_last(), first, mid) && #[trigger] (last.transforms)(mid, other);
        assert forall|i: int| 0 <= i < effects.drop_last().len() implies (
        #[trigger] effects.drop_last()[i]).single_valued() by {
            assert(effects.drop_last()[i] == effects[i]);
        }
        runs_to_one_output(effects.drop_last(), first, mid_one, mid_other);
        assert(last.single_valued());
    }
}

} // verus!
