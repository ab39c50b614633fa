//! A small builder primitive for constructing or mutating values.
//!
//! A [`FluentBuilder`] either holds a concrete value or a recipe for one: an
//! optional seed from which a default can be made later, together with a chain
//! of deferred fluent steps. The builder is resolved at most once, by
//! [`FluentBuilder::into_value`] or [`FluentBuilder::try_into_value`], which
//! constructs the base value and then runs the accumulated steps over it.
//!
//! Two type-level policies shape a builder:
//!
//! * the stacking policy — [`Override`] (each fluent call replaces the
//!   previous step) or [`Stack`] (fluent calls compose, first added runs
//!   first);
//! * the storage strategy — [`Inline`] (the accumulated chain keeps its exact
//!   composed type), [`Boxed`] (the chain is erased behind a single-owner
//!   box), or [`Shared`] (erased and transferable across threads).
//!
//! [`StatefulFluentBuilder`] additionally threads a caller-supplied seed into
//! default construction and, under the [`Stack`] policy, into each fluent
//! step. Every operation carries a contract describing exactly how it changes
//! the builder's state, and the crate proves the laws that relate them:
//! resolution of an untouched builder is default construction, a set value
//! wins over any accumulated steps, overriding keeps only the last step, and
//! stacked steps run in call order.

mod imp;

pub use imp::{
    lemma_default_resolution_identity, lemma_override_last_write_wins,
    lemma_stack_fifo_composition, lemma_storage_equivalence, lemma_value_override_totality,
    mut_applies, mut_ready, opt_applies, opt_ready, run_mut, run_seeded_mut, seeded_mut_applies,
    seeded_mut_ready, Apply, Boxed, BoxedFluentBuilder, BoxedMethod, BoxedStatefulFluentBuilder,
    ByRefMut, ByValue, DefaultStack, DefaultStorage, ErasedMethod, FluentBuilder, Inline, Method,
    Override, SendErasedMethod, Shared, SharedFluentBuilder, SharedMethod,
    SharedStatefulFluentBuilder, Stack, StatefulApply, StatefulFluentBuilder, Storage,
    TryIntoValue,
};
