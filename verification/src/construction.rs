//! A ready-made construction for any definition.

use crate::callback::Pending;
use crate::plan::{plan_without_callbacks, Plan};
use crate::template::{defines, Template, TemplateConstruction};
use vstd::prelude::*;

verus! {

/// A definition together with the callbacks that wait for its output.
#[verifier::reject_recursive_types(T)]
pub struct Construction<T: Template> {
    /// The definition; its fields may be set until the output is created.
    pub definition: T,
    /// The callbacks registered so far.
    pub pending: Pending<T::Output>,
}

impl<T: Template> Template for Construction<T> {
    type Output = T::Output;

    /// Turns the definition into its output. The callbacks are dropped
    /// without being run.
    fn define(self) -> (out: T::Output)
        ensures
            defines(self.definition, out),
    {
        self.definition.define()
    }
}

impl<T: Template + Default> Default for Construction<T> {
    /// The default definition, with no callback.
    fn default() -> (construction: Self)
        ensures
            call_ensures(T::default, (), construction.definition),
            construction.pending@.len() == 0,
    {
        Construction { definition: T::default(), pending: Pending::new() }
    }
}

impl<T: Template + Default> TemplateConstruction for Construction<T> {
    open spec fn plan(&self) -> Plan<T::Output> {
        Plan {
            defines: |out: T::Output| defines(self.definition, out),
            callbacks: self.pending@,
        }
    }

    fn on_create(&mut self, f: impl FnOnce(&mut T::Output) + 'static)
        ensures
            final(self).definition == old(self).definition,
    {
        self.pending.register(f);
    }

    fn create(self) -> (out: T::Output) {
        let first = self.definition.define();
        assert((self.plan().defines)(first));
        self.pending.fire(first)
    }

    fn build<O, F: FnOnce(T::Output) -> O>(self, f: F) -> (res: O) {
        let out = self.create();
        f(out)
    }
}

/// What `define` may give for a construction is an output of its definition:
/// one that creation may start from, and that it gives unchanged where no
/// callback is registered.
pub proof fn define_starts_creation<T: Template + Default>(
    construction: Construction<T>,
    out: T::Output,
)
    requires
        defines(construction, out),
    ensures
        (construction.plan().defines)(out),
        construction.pending@.len() == 0 ==> construction.plan().creates(out),
{
    if construction.pending@.len() == 0 {
        plan_without_callbacks(construction.plan(), out);
    }
}

} // verus!
