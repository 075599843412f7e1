//! The two traits: a definition, and a definition under construction.

use crate::callback::effect_of;
use crate::plan::Plan;
use vstd::prelude::*;

verus! {

/// A definition: a value that knows how to turn itself into an output.
///
/// `define` always gives an output; a definition that can go wrong says so
/// in the output's own type.
pub trait Template: Sized {
    /// What the definition is turned into.
    type Output;

    /// Uses the definition up and gives its output.
    fn define(self) -> Self::Output;
}

/// Whether `out` is an output that `definition` may be turned into: what the
/// contract of its `define` lets it be.
pub open spec fn defines<T: Template>(definition: T, out: T::Output) -> bool {
    call_ensures(T::define, (definition,), out)
}

/// A definition under construction: callbacks can be registered with it, and
/// they are run on its output when that is created.
pub trait TemplateConstruction: Default + Template {
    /// What creation will do, as things stand.
    spec fn plan(&self) -> Plan<Self::Output>;

    /// Registers `f` behind the callbacks that are already there. It is not
    /// run now, and the definition stays as it is.
    fn on_create(&mut self, f: impl FnOnce(&mut Self::Output) + 'static)
        ensures
            final(self).plan() == old(self).plan().with(effect_of(f)),
    ;

    /// Defines the output, runs every registered callback on it once, oldest
    /// first, and gives the output as the last of them left it. With no
    /// callback registered, that is the output as the definition gave it.
    fn create(self) -> (out: Self::Output)
        requires
            self.plan().ready(),
        ensures
            self.plan().creates(out),
            self.plan().callbacks.len() == 0 ==> (self.plan().defines)(out),
    ;

    /// Creates the output as `create` does, hands it to `f`, and gives what
    /// `f` returns.
    fn build<O, F: FnOnce(Self::Output) -> O>(self, f: F) -> (res: O)
        requires
            self.plan().ready(),
            forall|out: Self::Output| #[trigger]
                self.plan().creates(out) ==> call_requires(f, (out,)),
        ensures
            self.plan().builds(f, res),
    ;
}

} // verus!
