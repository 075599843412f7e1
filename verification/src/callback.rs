//! Callbacks: running one on an output, keeping one for later, and the queue
//! of those that wait.

use crate::effect::{admits, runs, Effect};
use std::collections::VecDeque;
use vstd::prelude::*;

verus! {

/// Whether the callback `f` may be run on the output `before`.
pub open spec fn accepts<O, F: FnOnce(&mut O)>(f: F, before: O) -> bool {
    forall|r: &mut O| *r == before ==> call_requires(f, (r,))
}

/// Runs the callback `f` on `out`, once, and hands the output back.
///
/// The callback gets mutable access to the output; what it leaves there is
/// the result.
pub fn run_on<O, F: FnOnce(&mut O)>(f: F, out: O) -> (res: O)
    requires
        accepts(f, out),
    ensures
        exists|r: &mut O| *r == out && *final(r) == res && call_ensures(f, (r,), ()),
{
    let mut out = out;
    f(&mut out);
    out
}

/// Whether `after` is an output that one run of `f` on `before` may leave
/// behind.
///
/// These are the pairs that the contract of `run_on` lets it relate, so no
/// pair among them goes against the callback's own contract
/// (`transforms_as_called`).
pub open spec fn transforms<O, F: FnOnce(&mut O)>(f: F, before: O, after: O) -> bool {
    call_ensures(run_on::<O, F>, (f, before), after)
}

/// What `transforms` says in the callback's own terms: the callback was
/// handed a reference to `before`, and `after` is what that reference held
/// when the callback returned.
pub proof fn transforms_as_called<O, F: FnOnce(&mut O)>(f: F, before: O, after: O)
    requires
        transforms(f, before, after),
    ensures
        exists|r: &mut O| *r == before && *final(r) == after && call_ensures(f, (r,), ()),
{
}

/// The effect of the callback `f`.
pub open spec fn effect_of<O, F: FnOnce(&mut O)>(f: F) -> Effect<O> {
    Effect {
        accepts: |before: O| accepts(f, before),
        transforms: |before: O, after: O| transforms(f, before, after),
    }
}

/// A callable behind a pointer that no longer says which type it has.
trait Hook<O> {
    spec fn effect(&self) -> Effect<O>;

    fn run(self: Box<Self>, out: O) -> (res: O)
        requires
            (self.effect().accepts)(out),
        ensures
            (self.effect().transforms)(out, res),
    ;
}

impl<O, F: FnOnce(&mut O)> Hook<O> for F {
    spec fn effect(&self) -> Effect<O> {
        effect_of(*self)
    }

    fn run(self: Box<Self>, out: O) -> (res: O) {
        run_on(*self, out)
    }
}

/// A registered callback: a procedure that is run at most once, with mutable
/// access to an output.
#[verifier::reject_recursive_types(O)]
pub struct Callback<O> {
    hook: Box<dyn Hook<O>>,
}

impl<O> View for Callback<O> {
    type V = Effect<O>;

    closed spec fn view(&self) -> Effect<O> {
        self.hook.effect()
    }
}

impl<O> Callback<O> {
    /// Takes ownership of `f`, to run it later.
    pub fn new<F: FnOnce(&mut O) + 'static>(f: F) -> (callback: Self)
        ensures
            callback@ == effect_of(f),
    {
        Callback { hook: Box::new(f) }
    }

    /// Runs the callback on `out` and hands the output back. The callback is
    /// used up.
    pub fn run(self, out: O) -> (res: O)
        requires
            (self@.accepts)(out),
        ensures
            (self@.transforms)(out, res),
    {
        self.hook.run(out)
    }
}

/// The callbacks that wait for an output, in the order in which they were
/// registered.
#[verifier::reject_recursive_types(O)]
pub struct Pending<O> {
    queue: VecDeque<Callback<O>>,
}

impl<O> View for Pending<O> {
    type V = Seq<Effect<O>>;

    closed spec fn view(&self) -> Seq<Effect<O>> {
        self.queue@.map_values(|callback: Callback<O>| callback@)
    }
}

impl<O> Pending<O> {
    /// A queue with nothing in it.
    pub fn new() -> (pending: Self)
        ensures
            pending@ == Seq::<Effect<O>>::empty(),
    {
        Pending { queue: VecDeque::new() }
    }

    /// How many callbacks wait.
    pub fn len(&self) -> (n: usize)
        ensures
            n == self@.len(),
    {
        self.queue.len()
    }

    /// Puts `f` behind the callbacks that already wait. Nothing is run.
    pub fn register(&mut self, f: impl FnOnce(&mut O) + 'static)
        ensures
            final(self)@ == old(self)@.push(effect_of(f)),
    {
        let callback = Callback::new(f);
        self.queue.push_back(callback);
    }

    /// Empties the queue onto `out`: runs every callback once, oldest first,
    /// each on what the one before it left, and hands the output back.
    pub fn fire(self, out: O) -> (res: O)
        requires
            admits(self@, out),
        ensures
            runs(self@, out, res),
            self@.len() == 0 ==> res == out,
    {
        let ghost effects = self@;
        let ghost first = out;
        let ghost mut done: int = 0;
        let mut queue = self.queue;
        let mut out = out;
        while queue.len() > 0
            invariant
                0 <= done <= effects.len(),
                queue@.len() == effects.len() - done,
                forall|i: int|
                    0 <= i < queue@.len() ==> (#[trigger] queue@[i])@ == effects[done + i],
                admits(effects, first),
                runs(effects.take(done), first, out),
            decreases queue@.len(),
        {
            let callback = queue.pop_front().unwrap();
            let ghost before = out;
            out = callback.run(out);
            proof {
                assert(effects.take(done + 1).drop_last() == effects.take(done));
                assert((effects.take(done + 1).last().transforms)(before, out));
                done = done + 1;
            }
        }
        proof {
            assert(effects.take(done) == effects);
        }
        out
    }
}

} // verus!
