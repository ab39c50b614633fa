use core::marker::PhantomData;
use vstd::prelude::*;

verus! {

/// Indicate that fluent methods should be stacked on top of each other.
pub struct Stack(());

/// Indicate that fluent methods should override each other.
pub struct Override(());

/// Fluent methods will be stored inline: the builder's type records the exact
/// composed chain. A bare `Inline` also acts as the identity method for a
/// chain with nothing accumulated.
pub struct Inline(());

/// Fluent methods will be boxed behind a single-owner erased handle.
///
/// This doesn't necessarily mean each individual method lives in its own box:
/// each call to `boxed` creates one box containing everything accumulated
/// since the last time the builder was boxed.
pub struct Boxed(());

/// Fluent methods will be boxed like [`Boxed`], and the erased handle can
/// additionally be sent to another thread.
pub struct Shared(());

/// The default way to stack fluent methods.
pub type DefaultStack = Override;

/// The default way to store fluent methods.
pub type DefaultStorage = Inline;

/// A boxed fluent builder.
pub type BoxedFluentBuilder<TValue, TStack = DefaultStack> = FluentBuilder<TValue, TStack, Boxed>;

/// A shared fluent builder.
pub type SharedFluentBuilder<TValue, TStack = DefaultStack> = FluentBuilder<TValue, TStack, Shared>;

/// A boxed stateful fluent builder.
pub type BoxedStatefulFluentBuilder<TSeed, TValue, TStack = DefaultStack> = StatefulFluentBuilder<
    TSeed,
    TValue,
    TStack,
    Boxed,
>;

/// A shared stateful fluent builder.
pub type SharedStatefulFluentBuilder<TSeed, TValue, TStack = DefaultStack> = StatefulFluentBuilder<
    TSeed,
    TValue,
    TStack,
    Shared,
>;

/// Runs one by-mutation step now: hands `f` a mutable view of `value` and
/// returns the mutated value.
pub fn run_mut<TValue, TFluent: FnOnce(&mut TValue)>(f: TFluent, value: TValue) -> (result:
    TValue)
    requires
        forall|m: &mut TValue| mut_ref_current(m) == value ==> call_requires(f, (m,)),
    ensures
        exists|m: &mut TValue|
            mut_ref_current(m) == value && mut_ref_future(m) == result && call_ensures(
                f,
                (m,),
                (),
            ),
{
    let mut value = value;
    f(&mut value);
    value
}

/// Runs one seeded by-mutation step now: hands `f` the seed and a mutable
/// view of `value` and returns the mutated value.
pub fn run_seeded_mut<TSeed, TValue, TFluent: FnOnce(TSeed, &mut TValue)>(
    f: TFluent,
    seed: TSeed,
    value: TValue,
) -> (result: TValue)
    requires
        forall|m: &mut TValue| mut_ref_current(m) == value ==> call_requires(f, (seed, m)),
    ensures
        exists|m: &mut TValue|
            mut_ref_current(m) == value && mut_ref_future(m) == result && call_ensures(
                f,
                (seed, m),
                (),
            ),
{
    let mut value = value;
    f(seed, &mut value);
    value
}

/// The input-output relation of one by-mutation step: `result` is a value
/// that running `f` on `value` can leave behind.
pub open spec fn mut_applies<TValue, TFluent: FnOnce(&mut TValue)>(
    f: TFluent,
    value: TValue,
    result: TValue,
) -> bool {
    call_ensures(run_mut::<TValue, TFluent>, (f, value), result)
}

/// When the by-mutation step `f` may be run on `value`.
pub open spec fn mut_ready<TValue, TFluent: FnOnce(&mut TValue)>(f: TFluent, value: TValue) -> bool {
    call_requires(run_mut::<TValue, TFluent>, (f, value))
}

/// The input-output relation of one seeded by-mutation step: `result` is a
/// value that running `f` with `seed` on `value` can leave behind.
pub open spec fn seeded_mut_applies<TSeed, TValue, TFluent: FnOnce(TSeed, &mut TValue)>(
    f: TFluent,
    seed: TSeed,
    value: TValue,
    result: TValue,
) -> bool {
    call_ensures(run_seeded_mut::<TSeed, TValue, TFluent>, (f, seed, value), result)
}

/// When the seeded by-mutation step `f` may be run on `value`.
pub open spec fn seeded_mut_ready<TSeed, TValue, TFluent: FnOnce(TSeed, &mut TValue)>(
    f: TFluent,
    seed: TSeed,
    value: TValue,
) -> bool {
    call_requires(run_seeded_mut::<TSeed, TValue, TFluent>, (f, seed, value))
}

/// A deferred transformation over a value: the capability shared by every
/// fluent step and by every composed chain of steps. Applying a method
/// consumes it, so a chain can never be replayed.
pub trait Method<TValue>: Sized {
    /// When the method may be applied to `value`.
    spec fn ready(self, value: TValue) -> bool;

    /// The input-output relation of applying the method once.
    spec fn applies(self, value: TValue, result: TValue) -> bool;

    fn apply(self, value: TValue) -> (result: TValue)
        requires
            self.ready(value),
        ensures
            self.applies(value, result),
    ;
}

/// A step that replaces the value outright.
pub struct ByValue<TFluent>(pub TFluent);

/// A step that mutates the value in place; the combinator passes a mutable
/// view in and hands the same, now mutated, value back.
pub struct ByRefMut<TFluent>(pub TFluent);

impl<TValue, TFluent: FnOnce(TValue) -> TValue> Method<TValue> for ByValue<TFluent> {
    open spec fn ready(self, value: TValue) -> bool {
        call_requires(self.0, (value,))
    }

    open spec fn applies(self, value: TValue, result: TValue) -> bool {
        call_ensures(self.0, (value,), result)
    }

    fn apply(self, value: TValue) -> (result: TValue) {
        (self.0)(value)
    }
}

impl<TValue, TFluent: FnOnce(&mut TValue)> Method<TValue> for ByRefMut<TFluent> {
    open spec fn ready(self, value: TValue) -> bool {
        mut_ready(self.0, value)
    }

    open spec fn applies(self, value: TValue, result: TValue) -> bool {
        mut_applies(self.0, value, result)
    }

    fn apply(self, value: TValue) -> (result: TValue) {
        run_mut(self.0, value)
    }
}

impl<TValue> Method<TValue> for Inline {
    open spec fn ready(self, value: TValue) -> bool {
        true
    }

    open spec fn applies(self, value: TValue, result: TValue) -> bool {
        result == value
    }

    fn apply(self, value: TValue) -> (result: TValue) {
        value
    }
}

/// A chain: an optional previously composed method, then one more step.
/// Applying it applies the previous method first, then the new step, so steps
/// run in the order they were added.
pub struct Apply<TValue, TPreviousMethod, TNextMethod> {
    pub previous: Option<TPreviousMethod>,
    pub next: TNextMethod,
    pub marker: PhantomData<TValue>,
}

impl<TValue, TPreviousMethod, TNextMethod> Apply<TValue, TPreviousMethod, TNextMethod> {
    pub fn new(previous: Option<TPreviousMethod>, next: TNextMethod) -> (result: Self)
        ensures
            result == (Apply { previous, next, marker: PhantomData::<TValue> }),
    {
        Apply { previous, next, marker: PhantomData }
    }
}

impl<TValue, TPreviousMethod, TNextMethod> Method<TValue> for Apply<
    TValue,
    TPreviousMethod,
    ByValue<TNextMethod>,
> where TPreviousMethod: Method<TValue>, TNextMethod: FnOnce(TValue) -> TValue {
    open spec fn ready(self, value: TValue) -> bool {
        match self.previous {
            Option::None => call_requires(self.next.0, (value,)),
            Option::Some(p) => p.ready(value) && forall|mid: TValue|
                #[trigger] p.applies(value, mid) ==> call_requires(self.next.0, (mid,)),
        }
    }

    open spec fn applies(self, value: TValue, result: TValue) -> bool {
        match self.previous {
            Option::None => call_ensures(self.next.0, (value,), result),
            Option::Some(p) => exists|mid: TValue|
                #[trigger] p.applies(value, mid) && call_ensures(self.next.0, (mid,), result),
        }
    }

    fn apply(self, value: TValue) -> (result: TValue) {
        match self.previous {
            Option::None => (self.next.0)(value),
            Option::Some(p) => {
                let mid = p.apply(value);
                (self.next.0)(mid)
            },
        }
    }
}

impl<TValue, TPreviousMethod, TNextMethod> Method<TValue> for Apply<
    TValue,
    TPreviousMethod,
    ByRefMut<TNextMethod>,
> where TPreviousMethod: Method<TValue>, TNextMethod: FnOnce(&mut TValue) {
    open spec fn ready(self, value: TValue) -> bool {
        match self.previous {
            Option::None => mut_ready(self.next.0, value),
            Option::Some(p) => p.ready(value) && forall|mid: TValue|
                #[trigger] p.applies(value, mid) ==> mut_ready(self.next.0, mid),
        }
    }

    open spec fn applies(self, value: TValue, result: TValue) -> bool {
        match self.previous {
            Option::None => mut_applies(self.next.0, value, result),
            Option::Some(p) => exists|mid: TValue|
                #[trigger] p.applies(value, mid) && mut_applies(self.next.0, mid, result),
        }
    }

    fn apply(self, value: TValue) -> (result: TValue) {
        let mid = match self.previous {
            Option::None => value,
            Option::Some(p) => p.apply(value),
        };
        run_mut(self.next.0, mid)
    }
}

/// A chain whose newest step also consumes a seed captured when the step was
/// composed.
pub struct StatefulApply<TSeed, TValue, TPreviousMethod, TNextMethod> {
    pub seed: TSeed,
    pub previous: Option<TPreviousMethod>,
    pub next: TNextMethod,
    pub marker: PhantomData<TValue>,
}

impl<TSeed, TValue, TPreviousMethod, TNextMethod> StatefulApply<
    TSeed,
    TValue,
    TPreviousMethod,
    TNextMethod,
> {
    pub fn new(seed: TSeed, previous: Option<TPreviousMethod>, next: TNextMethod) -> (result: Self)
        ensures
            result == (StatefulApply { seed, previous, next, marker: PhantomData::<TValue> }),
    {
        StatefulApply { seed, previous, next, marker: PhantomData }
    }
}

impl<TSeed, TValue, TPreviousMethod, TNextMethod> Method<TValue> for StatefulApply<
    TSeed,
    TValue,
    TPreviousMethod,
    ByValue<TNextMethod>,
> where TPreviousMethod: Method<TValue>, TNextMethod: FnOnce(TSeed, TValue) -> TValue {
    open spec fn ready(self, value: TValue) -> bool {
        match self.previous {
            Option::None => call_requires(self.next.0, (self.seed, value)),
            Option::Some(p) => p.ready(value) && forall|mid: TValue|
                #[trigger] p.applies(value, mid) ==> call_requires(self.next.0, (self.seed, mid)),
        }
    }

    open spec fn applies(self, value: TValue, result: TValue) -> bool {
        match self.previous {
            Option::None => call_ensures(self.next.0, (self.seed, value), result),
            Option::Some(p) => exists|mid: TValue|
                #[trigger] p.applies(value, mid) && call_ensures(
                    self.next.0,
                    (self.seed, mid),
                    result,
                ),
        }
    }

    fn apply(self, value: TValue) -> (result: TValue) {
        match self.previous {
            Option::None => (self.next.0)(self.seed, value),
            Option::Some(p) => {
                let mid = p.apply(value);
                (self.next.0)(self.seed, mid)
            },
        }
    }
}

impl<TSeed, TValue, TPreviousMethod, TNextMethod> Method<TValue> for StatefulApply<
    TSeed,
    TValue,
    TPreviousMethod,
    ByRefMut<TNextMethod>,
> where TPreviousMethod: Method<TValue>, TNextMethod: FnOnce(TSeed, &mut TValue) {
    open spec fn ready(self, value: TValue) -> bool {
        match self.previous {
            Option::None => seeded_mut_ready(self.next.0, self.seed, value),
            Option::Some(p) => p.ready(value) && forall|mid: TValue|
                #[trigger] p.applies(value, mid) ==> seeded_mut_ready(self.next.0, self.seed, mid),
        }
    }

    open spec fn applies(self, value: TValue, result: TValue) -> bool {
        match self.previous {
            Option::None => seeded_mut_applies(self.next.0, self.seed, value, result),
            Option::Some(p) => exists|mid: TValue|
                #[trigger] p.applies(value, mid) && seeded_mut_applies(
                    self.next.0,
                    self.seed,
                    mid,
                    result,
                ),
        }
    }

    fn apply(self, value: TValue) -> (result: TValue) {
        let mid = match self.previous {
            Option::None => value,
            Option::Some(p) => p.apply(value),
        };
        run_seeded_mut(self.next.0, self.seed, mid)
    }
}

/// Maps a storage-strategy tag to the representation it stores accumulated
/// methods in.
pub trait Storage<TValue> {
    type Method: Method<TValue>;
}

impl<TValue> Storage<TValue> for Inline {
    type Method = Inline;
}

impl<TValue, TPreviousMethod, TNextMethod> Storage<TValue> for Apply<
    TValue,
    TPreviousMethod,
    TNextMethod,
> where Apply<TValue, TPreviousMethod, TNextMethod>: Method<TValue> {
    type Method = Apply<TValue, TPreviousMethod, TNextMethod>;
}

impl<TSeed, TValue, TPreviousMethod, TNextMethod> Storage<TValue> for StatefulApply<
    TSeed,
    TValue,
    TPreviousMethod,
    TNextMethod,
> where StatefulApply<TSeed, TValue, TPreviousMethod, TNextMethod>: Method<TValue> {
    type Method = StatefulApply<TSeed, TValue, TPreviousMethod, TNextMethod>;
}

/// The object-safe face of a [`Method`]: what a type-erased, boxed chain
/// still exposes. Implemented by the private erasure wrapper that `boxed` and
/// `shared` put behind their handles.
pub trait ErasedMethod<TValue> {
    /// When the erased method may be applied to `value`.
    spec fn erased_ready(&self, value: TValue) -> bool;

    /// The input-output relation of applying the erased method once.
    spec fn erased_applies(&self, value: TValue, result: TValue) -> bool;

    fn apply_erased(self: Box<Self>, value: TValue) -> (result: TValue)
        requires
            self.erased_ready(value),
        ensures
            self.erased_applies(value, result),
    ;
}

/// The object-safe face of a [`Method`] that can additionally be sent to
/// another thread: the erased representation behind [`Shared`] storage.
pub trait SendErasedMethod<TValue>: Send {
    /// When the erased method may be applied to `value`.
    spec fn shared_ready(&self, value: TValue) -> bool;

    /// The input-output relation of applying the erased method once.
    spec fn shared_applies(&self, value: TValue, result: TValue) -> bool;

    fn apply_shared(self: Box<Self>, value: TValue) -> (result: TValue)
        requires
            self.shared_ready(value),
        ensures
            self.shared_applies(value, result),
    ;
}

/// A boxed fluent method: a single-owner type-erased handle around an
/// accumulated chain.
pub struct BoxedMethod<TValue, TErased = Box<dyn ErasedMethod<TValue>>>(
    pub TErased,
    pub PhantomData<TValue>,
);

/// A shared fluent method: a type-erased handle like [`BoxedMethod`] that can
/// also be sent to another thread.
pub struct SharedMethod<TValue, TErased = Box<dyn SendErasedMethod<TValue>>>(
    pub TErased,
    pub PhantomData<TValue>,
);

/// Carries a concrete method behind the object-safe trait, together with
/// ghost copies of its contract so the erased handle keeps an exact spec.
#[verifier::reject_recursive_types(TValue)]
struct Erasure<TValue, M> where M: Method<TValue> {
    method: M,
    ready_spec: Ghost<spec_fn(TValue) -> bool>,
    applies_spec: Ghost<spec_fn(TValue, TValue) -> bool>,
}

impl<TValue, M: Method<TValue>> Erasure<TValue, M> {
    #[verifier::type_invariant]
    spec fn wf(self) -> bool {
        &&& forall|v: TValue| #[trigger] (self.ready_spec@)(v) <==> self.method.ready(v)
        &&& forall|v: TValue, r: TValue| #[trigger]
            (self.applies_spec@)(v, r) <==> self.method.applies(v, r)
    }
}

impl<TValue, M: Method<TValue>> ErasedMethod<TValue> for Erasure<TValue, M> {
    closed spec fn erased_ready(&self, value: TValue) -> bool {
        (self.ready_spec@)(value)
    }

    closed spec fn erased_applies(&self, value: TValue, result: TValue) -> bool {
        (self.applies_spec@)(value, result)
    }

    fn apply_erased(self: Box<Self>, value: TValue) -> (result: TValue) {
        proof {
            use_type_invariant(&*self);
        }
        let erasure = *self;
        erasure.method.apply(value)
    }
}

impl<TValue, M: Method<TValue> + Send> SendErasedMethod<TValue> for Erasure<TValue, M> {
    closed spec fn shared_ready(&self, value: TValue) -> bool {
        (self.ready_spec@)(value)
    }

    closed spec fn shared_applies(&self, value: TValue, result: TValue) -> bool {
        (self.applies_spec@)(value, result)
    }

    fn apply_shared(self: Box<Self>, value: TValue) -> (result: TValue) {
        proof {
            use_type_invariant(&*self);
        }
        let erasure = *self;
        erasure.method.apply(value)
    }
}

impl<TValue> Method<TValue> for BoxedMethod<TValue> {
    open spec fn ready(self, value: TValue) -> bool {
        self.0.erased_ready(value)
    }

    open spec fn applies(self, value: TValue, result: TValue) -> bool {
        self.0.erased_applies(value, result)
    }

    fn apply(self, value: TValue) -> (result: TValue) {
        self.0.apply_erased(value)
    }
}

impl<TValue> Method<TValue> for SharedMethod<TValue> {
    open spec fn ready(self, value: TValue) -> bool {
        self.0.shared_ready(value)
    }

    open spec fn applies(self, value: TValue, result: TValue) -> bool {
        self.0.shared_applies(value, result)
    }

    fn apply(self, value: TValue) -> (result: TValue) {
        self.0.apply_shared(value)
    }
}

impl<TValue: 'static> Storage<TValue> for Boxed {
    type Method = BoxedMethod<TValue>;
}

impl<TValue: 'static> Storage<TValue> for Shared {
    type Method = SharedMethod<TValue>;
}

/// When an optional accumulated method may be applied to `value`; an empty
/// slot is always ready.
pub open spec fn opt_ready<TValue, M: Method<TValue>>(method: Option<M>, value: TValue) -> bool {
    match method {
        Option::None => true,
        Option::Some(m) => m.ready(value),
    }
}

/// The input-output relation of an optional accumulated method: an empty
/// slot returns the base value unchanged.
pub open spec fn opt_applies<TValue, M: Method<TValue>>(
    method: Option<M>,
    value: TValue,
    result: TValue,
) -> bool {
    match method {
        Option::None => result == value,
        Option::Some(m) => m.applies(value, result),
    }
}

/// The result of attempting to pull a value out of a builder.
///
/// `try_into_value` returns `TryIntoValue::Value` when the builder was given
/// an explicit value, and hands the builder back in `TryIntoValue::Builder`
/// when it was not. `into_value` never fails, because a missing value is
/// constructed from the default function.
pub enum TryIntoValue<TValue, TBuilder> {
    Value(TValue),
    Builder(TBuilder),
}

enum State<TSeed, TValue> {
    Value(TValue),
    Seed(TSeed),
}

/// A stateful structure that can contain a value, or stack mutating methods
/// over one supplied later.
pub struct StatefulFluentBuilder<TSeed, TValue, TStack = DefaultStack, TStorage = DefaultStorage> where
    TStorage: Storage<TValue>,
{
    state: State<TSeed, TValue>,
    fluent_method: Option<TStorage::Method>,
    marker: PhantomData<TStack>,
}

/// A structure that can contain a value, or stack mutating methods over one
/// supplied later.
///
/// The `FluentBuilder<TValue>` is effectively a
/// `StatefulFluentBuilder<(), TValue>`.
pub struct FluentBuilder<TValue, TStack = DefaultStack, TStorage = DefaultStorage> where
    TStorage: Storage<TValue>,
{
    inner: StatefulFluentBuilder<(), TValue, TStack, TStorage>,
}

impl<TSeed, TValue, TStack, TStorage> StatefulFluentBuilder<TSeed, TValue, TStack, TStorage> where
    TStorage: Storage<TValue>,
{
    /// The concrete value the builder holds, if one was supplied.
    pub closed spec fn value_state(self) -> Option<TValue> {
        match self.state {
            State::Value(v) => Some(v),
            State::Seed(_) => None,
        }
    }

    /// The seed the builder holds while no concrete value was supplied.
    pub closed spec fn seed_state(self) -> Option<TSeed> {
        match self.state {
            State::Value(_) => None,
            State::Seed(s) => Some(s),
        }
    }

    /// The accumulated fluent method, if any.
    pub closed spec fn pending_method(self) -> Option<TStorage::Method> {
        self.fluent_method
    }

    /// A builder holds exactly one of a concrete value or a seed.
    pub proof fn lemma_state_exclusive(self)
        ensures
            self.value_state() is Some <==> self.seed_state() is None,
    {
    }

    /// Create a new `StatefulFluentBuilder` from the given value.
    pub fn from_value(value: TValue) -> (result: Self)
        ensures
            result.value_state() == Some(value),
            result.seed_state() is None,
            result.pending_method() is None,
    {
        StatefulFluentBuilder { state: State::Value(value), fluent_method: None, marker: PhantomData }
    }

    /// Create a new `StatefulFluentBuilder` from the given seed.
    pub fn from_seed(seed: TSeed) -> (result: Self)
        ensures
            result.seed_state() == Some(seed),
            result.value_state() is None,
            result.pending_method() is None,
    {
        StatefulFluentBuilder { state: State::Seed(seed), fluent_method: None, marker: PhantomData }
    }

    /// Set a value on the builder.
    ///
    /// This overrides any contained state: a seed is discarded, and so are
    /// any fluent methods accumulated so far.
    pub fn value(self, value: TValue) -> (result: Self)
        ensures
            result.value_state() == Some(value),
            result.seed_state() is None,
            result.pending_method() is None,
    {
        StatefulFluentBuilder { state: State::Value(value), fluent_method: None, marker: PhantomData }
    }

    /// Convert the fluent builder into a value.
    ///
    /// This consumes the builder. The base value is the contained value if
    /// one was supplied, and is otherwise constructed from the seed by
    /// `default_value`; any accumulated fluent method is then applied to the
    /// base exactly once.
    pub fn into_value<TDefault: FnOnce(TSeed) -> TValue>(self, default_value: TDefault) -> (result:
        TValue)
        requires
            self.value_state() matches Some(v) ==> opt_ready(self.pending_method(), v),
            self.seed_state() matches Some(s) ==> call_requires(default_value, (s,)) && forall|
                base: TValue,
            |
                #[trigger] call_ensures(default_value, (s,), base) ==> opt_ready(
                    self.pending_method(),
                    base,
                ),
        ensures
            self.value_state() matches Some(v) ==> opt_applies(self.pending_method(), v, result),
            self.seed_state() matches Some(s) ==> exists|base: TValue|
                #[trigger] call_ensures(default_value, (s,), base) && opt_applies(
                    self.pending_method(),
                    base,
                    result,
                ),
    {
        let StatefulFluentBuilder { state, fluent_method, marker: _ } = self;
        let base = match state {
            State::Value(v) => v,
            State::Seed(s) => default_value(s),
        };
        match fluent_method {
            Option::Some(m) => m.apply(base),
            Option::None => base,
        }
    }

    /// Attempt to take a value from the builder.
    ///
    /// If the builder holds a concrete value, any accumulated fluent method
    /// is applied to it and the outcome is returned in the `Value` variant.
    /// If it holds only a seed, the builder comes back unchanged in the
    /// `Builder` variant.
    pub fn try_into_value(self) -> (result: TryIntoValue<TValue, Self>)
        requires
            self.value_state() matches Some(v) ==> opt_ready(self.pending_method(), v),
        ensures
            self.value_state() matches Some(v) ==> (result matches TryIntoValue::Value(out)
                && opt_applies(self.pending_method(), v, out)),
            self.value_state() is None ==> (result matches TryIntoValue::Builder(b) && b == self),
    {
        let StatefulFluentBuilder { state, fluent_method, marker } = self;
        match state {
            State::Value(v) => TryIntoValue::Value(
                match fluent_method {
                    Option::Some(m) => m.apply(v),
                    Option::None => v,
                },
            ),
            State::Seed(s) => TryIntoValue::Builder(
                StatefulFluentBuilder { state: State::Seed(s), fluent_method, marker },
            ),
        }
    }
}

impl<TSeed, TValue, TStack> StatefulFluentBuilder<TSeed, TValue, TStack, DefaultStorage> {
    /// Create a new `StatefulFluentBuilder` from the given seed and fluent
    /// method.
    pub fn from_fluent<TNextMethod: FnOnce(TValue) -> TValue>(
        seed: TSeed,
        fluent_method: TNextMethod,
    ) -> (result: StatefulFluentBuilder<
        TSeed,
        TValue,
        TStack,
        Apply<TValue, DefaultStorage, ByValue<TNextMethod>>,
    >)
        ensures
            result.seed_state() == Some(seed),
            result.value_state() is None,
            result.pending_method() == Some(
                (Apply {
                    previous: None::<Inline>,
                    next: ByValue(fluent_method),
                    marker: PhantomData::<TValue>,
                }),
            ),
    {
        StatefulFluentBuilder {
            state: State::Seed(seed),
            fluent_method: Some(Apply::new(None, ByValue(fluent_method))),
            marker: PhantomData,
        }
    }

    /// Create a new `StatefulFluentBuilder` from the given seed and fluent
    /// method.
    ///
    /// This method is the same as `from_fluent`, but mutates the value
    /// instead of replacing it.
    pub fn from_fluent_mut<TNextMethod: FnOnce(&mut TValue)>(
        seed: TSeed,
        fluent_method: TNextMethod,
    ) -> (result: StatefulFluentBuilder<
        TSeed,
        TValue,
        TStack,
        Apply<TValue, DefaultStorage, ByRefMut<TNextMethod>>,
    >)
        ensures
            result.seed_state() == Some(seed),
            result.value_state() is None,
            result.pending_method() == Some(
                (Apply {
                    previous: None::<Inline>,
                    next: ByRefMut(fluent_method),
                    marker: PhantomData::<TValue>,
                }),
            ),
    {
        StatefulFluentBuilder {
            state: State::Seed(seed),
            fluent_method: Some(Apply::new(None, ByRefMut(fluent_method))),
            marker: PhantomData,
        }
    }
}

impl<TSeed, TValue, TStorage> StatefulFluentBuilder<TSeed, TValue, Override, TStorage> where
    TStorage: Storage<TValue>,
{
    /// Set the fluent method on the builder.
    ///
    /// Under the `Override` policy each call replaces everything the builder
    /// held: a previous fluent method is discarded, and so is a previous
    /// value or seed — the builder keeps the seed given here.
    pub fn fluent<TNextMethod: FnOnce(TValue) -> TValue + 'static>(
        self,
        seed: TSeed,
        fluent_method: TNextMethod,
    ) -> (result: StatefulFluentBuilder<
        TSeed,
        TValue,
        Override,
        Apply<TValue, DefaultStorage, ByValue<TNextMethod>>,
    >)
        ensures
            result.seed_state() == Some(seed),
            result.value_state() is None,
            result.pending_method() == Some(
                (Apply {
                    previous: None::<Inline>,
                    next: ByValue(fluent_method),
                    marker: PhantomData::<TValue>,
                }),
            ),
    {
        StatefulFluentBuilder::<TSeed, TValue, Override, Inline>::from_fluent(seed, fluent_method)
    }

    /// Set the fluent method on the builder.
    ///
    /// This method behaves the same as `fluent`, but mutates the value
    /// instead of replacing it.
    pub fn fluent_mut<TNextMethod: FnOnce(&mut TValue) + 'static>(
        self,
        seed: TSeed,
        fluent_method: TNextMethod,
    ) -> (result: StatefulFluentBuilder<
        TSeed,
        TValue,
        Override,
        Apply<TValue, DefaultStorage, ByRefMut<TNextMethod>>,
    >)
        ensures
            result.seed_state() == Some(seed),
            result.value_state() is None,
            result.pending_method() == Some(
                (Apply {
                    previous: None::<Inline>,
                    next: ByRefMut(fluent_method),
                    marker: PhantomData::<TValue>,
                }),
            ),
    {
        StatefulFluentBuilder::<TSeed, TValue, Override, Inline>::from_fluent_mut(
            seed,
            fluent_method,
        )
    }
}

impl<TSeed, TValue, TStorage> StatefulFluentBuilder<TSeed, TValue, Stack, TStorage> where
    TStorage: Storage<TValue>,
{
    /// Stack a fluent method on the builder.
    ///
    /// Under the `Stack` policy the new step is composed on top of whatever
    /// was accumulated so far, and any previous value or seed is retained;
    /// at resolution the previous steps run first and the new step runs
    /// last, on the already-transformed value.
    pub fn fluent<TNextMethod: FnOnce(TSeed, TValue) -> TValue>(
        self,
        seed: TSeed,
        fluent_method: TNextMethod,
    ) -> (result: StatefulFluentBuilder<
        TSeed,
        TValue,
        Stack,
        StatefulApply<TSeed, TValue, TStorage::Method, ByValue<TNextMethod>>,
    >)
        ensures
            result.value_state() == self.value_state(),
            result.seed_state() == self.seed_state(),
            result.pending_method() == Some(
                (StatefulApply {
                    seed,
                    previous: self.pending_method(),
                    next: ByValue(fluent_method),
                    marker: PhantomData::<TValue>,
                }),
            ),
    {
        let StatefulFluentBuilder { state, fluent_method: previous, marker: _ } = self;
        StatefulFluentBuilder {
            state,
            fluent_method: Some(StatefulApply::new(seed, previous, ByValue(fluent_method))),
            marker: PhantomData,
        }
    }

    /// Stack a fluent method on the builder.
    ///
    /// This method behaves the same as `fluent`, but mutates the value
    /// instead of replacing it.
    pub fn fluent_mut<TNextMethod: FnOnce(TSeed, &mut TValue)>(
        self,
        seed: TSeed,
        fluent_method: TNextMethod,
    ) -> (result: StatefulFluentBuilder<
        TSeed,
        TValue,
        Stack,
        StatefulApply<TSeed, TValue, TStorage::Method, ByRefMut<TNextMethod>>,
    >)
        ensures
            result.value_state() == self.value_state(),
            result.seed_state() == self.seed_state(),
            result.pending_method() == Some(
                (StatefulApply {
                    seed,
                    previous: self.pending_method(),
                    next: ByRefMut(fluent_method),
                    marker: PhantomData::<TValue>,
                }),
            ),
    {
        let StatefulFluentBuilder { state, fluent_method: previous, marker: _ } = self;
        StatefulFluentBuilder {
            state,
            fluent_method: Some(StatefulApply::new(seed, previous, ByRefMut(fluent_method))),
            marker: PhantomData,
        }
    }
}

impl<TSeed, TValue, TStack, TStorage> StatefulFluentBuilder<TSeed, TValue, TStack, TStorage> where
    TValue: 'static,
    TSeed: 'static,
    TStorage: Storage<TValue>,
    TStorage::Method: 'static,
{
    /// Box a fluent builder so it can be easily captured as a field without
    /// generics. The state is kept, and the accumulated method is erased
    /// behind a handle with exactly the same behaviour.
    pub fn boxed(self) -> (result: BoxedStatefulFluentBuilder<TSeed, TValue, TStack>)
        ensures
            result.value_state() == self.value_state(),
            result.seed_state() == self.seed_state(),
            self.pending_method() is None ==> result.pending_method() is None,
            self.pending_method() matches Some(m) ==> (result.pending_method() matches Some(bm)
                && (forall|v: TValue, r: TValue| #[trigger] bm.applies(v, r) <==> m.applies(v, r))
                && (forall|v: TValue| #[trigger] bm.ready(v) <==> m.ready(v))),
    {
        let StatefulFluentBuilder { state, fluent_method, marker: _ } = self;
        match fluent_method {
            Option::None => StatefulFluentBuilder {
                state,
                fluent_method: None,
                marker: PhantomData,
            },
            Option::Some(m) => {
                let ghost m0 = m;
                let wrapped = Erasure {
                    method: m,
                    ready_spec: Ghost(|v: TValue| m0.ready(v)),
                    applies_spec: Ghost(|v: TValue, r: TValue| m0.applies(v, r)),
                };
                let ghost w0 = wrapped;
                let b: Box<dyn ErasedMethod<TValue>> = Box::new(wrapped);
                proof {
                    assert forall|v: TValue, r: TValue| #[trigger]
                        b.erased_applies(v, r) <==> m0.applies(v, r) by {
                        assert(w0.erased_applies(v, r) <==> m0.applies(v, r));
                    }
                    assert forall|v: TValue| #[trigger] b.erased_ready(v) <==> m0.ready(v) by {
                        assert(w0.erased_ready(v) <==> m0.ready(v));
                    }
                }
                let handle = BoxedMethod(b, PhantomData);
                proof {
                    assert(forall|v: TValue, r: TValue| #[trigger]
                        handle.applies(v, r) <==> m0.applies(v, r));
                    assert(forall|v: TValue| #[trigger] handle.ready(v) <==> m0.ready(v));
                }
                let erased: Option<BoxedMethod<TValue>> = Option::Some(handle);
                let result = StatefulFluentBuilder { state, fluent_method: erased, marker: PhantomData };
                proof {
                    assert(result.pending_method() == erased);
                    assert(erased matches Option::Some(bm) && (forall|v: TValue, r: TValue|
                        #[trigger] bm.applies(v, r) <==> m0.applies(v, r)) && (forall|v: TValue|
                        #[trigger] bm.ready(v) <==> m0.ready(v)));
                }
                result
            },
        }
    }
}

impl<TSeed, TValue, TStack, TStorage> StatefulFluentBuilder<TSeed, TValue, TStack, TStorage> where
    TValue: 'static,
    TSeed: 'static,
    TStorage: Storage<TValue>,
    TStorage::Method: Send + 'static,
{
    /// Box a fluent builder so it can be easily shared: as `boxed`, and the
    /// erased handle can also be sent to another thread.
    pub fn shared(self) -> (result: SharedStatefulFluentBuilder<TSeed, TValue, TStack>)
        ensures
            result.value_state() == self.value_state(),
            result.seed_state() == self.seed_state(),
            self.pending_method() is None ==> result.pending_method() is None,
            self.pending_method() matches Some(m) ==> (result.pending_method() matches Some(bm)
                && (forall|v: TValue, r: TValue| #[trigger] bm.applies(v, r) <==> m.applies(v, r))
                && (forall|v: TValue| #[trigger] bm.ready(v) <==> m.ready(v))),
    {
        let StatefulFluentBuilder { state, fluent_method, marker: _ } = self;
        match fluent_method {
            Option::None => StatefulFluentBuilder {
                state,
                fluent_method: None,
                marker: PhantomData,
            },
            Option::Some(m) => {
                let ghost m0 = m;
                let wrapped = Erasure {
                    method: m,
                    ready_spec: Ghost(|v: TValue| m0.ready(v)),
                    applies_spec: Ghost(|v: TValue, r: TValue| m0.applies(v, r)),
                };
                let ghost w0 = wrapped;
                let b: Box<dyn SendErasedMethod<TValue>> = Box::new(wrapped);
                proof {
                    assert forall|v: TValue, r: TValue| #[trigger]
                        b.shared_applies(v, r) <==> m0.applies(v, r) by {
                        assert(w0.shared_applies(v, r) <==> m0.applies(v, r));
                    }
                    assert forall|v: TValue| #[trigger] b.shared_ready(v) <==> m0.ready(v) by {
                        assert(w0.shared_ready(v) <==> m0.ready(v));
                    }
                }
                let handle = SharedMethod(b, PhantomData);
                proof {
                    assert(forall|v: TValue, r: TValue| #[trigger]
                        handle.applies(v, r) <==> m0.applies(v, r));
                    assert(forall|v: TValue| #[trigger] handle.ready(v) <==> m0.ready(v));
                }
                let erased: Option<SharedMethod<TValue>> = Option::Some(handle);
                let result = StatefulFluentBuilder { state, fluent_method: erased, marker: PhantomData };
                proof {
                    assert(result.pending_method() == erased);
                    assert(erased matches Option::Some(bm) && (forall|v: TValue, r: TValue|
                        #[trigger] bm.applies(v, r) <==> m0.applies(v, r)) && (forall|v: TValue|
                        #[trigger] bm.ready(v) <==> m0.ready(v)));
                }
                result
            },
        }
    }
}

impl<TSeed, TValue, TStack> StatefulFluentBuilder<TSeed, TValue, TStack, Boxed> where
    TSeed: 'static,
    TValue: 'static,
{
    /// Create a new boxed `StatefulFluentBuilder` from the given seed and
    /// fluent method.
    pub fn from_fluent<TNextMethod: FnOnce(TValue) -> TValue + 'static>(
        seed: TSeed,
        fluent_method: TNextMethod,
    ) -> (result: Self)
        ensures
            result.seed_state() == Some(seed),
            result.value_state() is None,
            result.pending_method() matches Some(bm) && (forall|v: TValue, r: TValue| #[trigger]
                bm.applies(v, r) <==> call_ensures(fluent_method, (v,), r)) && (forall|v: TValue|
                #[trigger] bm.ready(v) <==> call_requires(fluent_method, (v,))),
    {
        StatefulFluentBuilder::<TSeed, TValue, TStack, Inline>::from_fluent(
            seed,
            fluent_method,
        ).boxed()
    }

    /// Create a new boxed `StatefulFluentBuilder` from the given seed and
    /// fluent method.
    ///
    /// This method is the same as `from_fluent`, but mutates the value
    /// instead of replacing it.
    pub fn from_fluent_mut<TNextMethod: FnOnce(&mut TValue) + 'static>(
        seed: TSeed,
        fluent_method: TNextMethod,
    ) -> (result: Self)
        ensures
            result.seed_state() == Some(seed),
            result.value_state() is None,
            result.pending_method() matches Some(bm) && (forall|v: TValue, r: TValue| #[trigger]
                bm.applies(v, r) <==> mut_applies(fluent_method, v, r)) && (forall|v: TValue|
                #[trigger] bm.ready(v) <==> mut_ready(fluent_method, v)),
    {
        StatefulFluentBuilder::<TSeed, TValue, TStack, Inline>::from_fluent_mut(
            seed,
            fluent_method,
        ).boxed()
    }
}

impl<TSeed, TValue, TStack> StatefulFluentBuilder<TSeed, TValue, TStack, Shared> where
    TSeed: Send + 'static,
    TValue: Send + 'static,
{
    /// Create a new shared `StatefulFluentBuilder` from the given seed and
    /// fluent method.
    pub fn from_fluent<TNextMethod: FnOnce(TValue) -> TValue + Send + 'static>(
        seed: TSeed,
        fluent_method: TNextMethod,
    ) -> (result: Self)
        ensures
            result.seed_state() == Some(seed),
            result.value_state() is None,
            result.pending_method() matches Some(bm) && (forall|v: TValue, r: TValue| #[trigger]
                bm.applies(v, r) <==> call_ensures(fluent_method, (v,), r)) && (forall|v: TValue|
                #[trigger] bm.ready(v) <==> call_requires(fluent_method, (v,))),
    {
        StatefulFluentBuilder::<TSeed, TValue, TStack, Inline>::from_fluent(
            seed,
            fluent_method,
        ).shared()
    }

    /// Create a new shared `StatefulFluentBuilder` from the given seed and
    /// fluent method.
    ///
    /// This method is the same as `from_fluent`, but mutates the value
    /// instead of replacing it.
    pub fn from_fluent_mut<TNextMethod: FnOnce(&mut TValue) + Send + 'static>(
        seed: TSeed,
        fluent_method: TNextMethod,
    ) -> (result: Self)
        ensures
            result.seed_state() == Some(seed),
            result.value_state() is None,
            result.pending_method() matches Some(bm) && (forall|v: TValue, r: TValue| #[trigger]
                bm.applies(v, r) <==> mut_applies(fluent_method, v, r)) && (forall|v: TValue|
                #[trigger] bm.ready(v) <==> mut_ready(fluent_method, v)),
    {
        StatefulFluentBuilder::<TSeed, TValue, TStack, Inline>::from_fluent_mut(
            seed,
            fluent_method,
        ).shared()
    }
}

impl<TValue, TStack, TStorage> FluentBuilder<TValue, TStack, TStorage> where
    TStorage: Storage<TValue>,
{
    /// The concrete value the builder holds, if one was supplied.
    pub closed spec fn value_state(self) -> Option<TValue> {
        self.inner.value_state()
    }

    /// The accumulated fluent method, if any.
    pub closed spec fn pending_method(self) -> Option<TStorage::Method> {
        self.inner.pending_method()
    }

    /// Create a default `FluentBuilder`: no value and no fluent methods.
    pub fn new() -> (result: Self)
        ensures
            result.value_state() is None,
            result.pending_method() is None,
    {
        FluentBuilder { inner: StatefulFluentBuilder::from_seed(()) }
    }

    /// Set a value on the builder.
    ///
    /// This overrides any contained state: fluent methods accumulated so far
    /// are discarded.
    pub fn value(self, value: TValue) -> (result: Self)
        ensures
            result.value_state() == Some(value),
            result.pending_method() is None,
    {
        FluentBuilder { inner: self.inner.value(value) }
    }

    /// Convert the fluent builder into a value.
    ///
    /// This consumes the builder. The base value is the contained value if
    /// one was supplied, and is otherwise constructed by `default_value`; any
    /// accumulated fluent method is then applied to the base exactly once.
    pub fn into_value<TDefault: FnOnce() -> TValue + 'static>(self, default_value: TDefault) -> (result:
        TValue)
        requires
            self.value_state() matches Some(v) ==> opt_ready(self.pending_method(), v),
            self.value_state() is None ==> call_requires(default_value, ()) && forall|base: TValue|
                #[trigger] call_ensures(default_value, (), base) ==> opt_ready(
                    self.pending_method(),
                    base,
                ),
        ensures
            self.value_state() matches Some(v) ==> opt_applies(self.pending_method(), v, result),
            self.value_state() is None ==> exists|base: TValue|
                #[trigger] call_ensures(default_value, (), base) && opt_applies(
                    self.pending_method(),
                    base,
                    result,
                ),
    {
        let FluentBuilder { inner } = self;
        let StatefulFluentBuilder { state, fluent_method, marker: _ } = inner;
        let base = match state {
            State::Value(v) => v,
            State::Seed(_) => default_value(),
        };
        match fluent_method {
            Option::Some(m) => m.apply(base),
            Option::None => base,
        }
    }

    /// Attempt to take a value from the builder.
    ///
    /// If the builder holds a concrete value, any accumulated fluent method
    /// is applied to it and the outcome is returned in the `Value` variant.
    /// Otherwise the builder comes back unchanged in the `Builder` variant.
    pub fn try_into_value(self) -> (result: TryIntoValue<TValue, Self>)
        requires
            self.value_state() matches Some(v) ==> opt_ready(self.pending_method(), v),
        ensures
            self.value_state() matches Some(v) ==> (result matches TryIntoValue::Value(out)
                && opt_applies(self.pending_method(), v, out)),
            self.value_state() is None ==> (result matches TryIntoValue::Builder(b) && b == self),
    {
        let FluentBuilder { inner } = self;
        match inner.try_into_value() {
            TryIntoValue::Value(value) => TryIntoValue::Value(value),
            TryIntoValue::Builder(inner) => TryIntoValue::Builder(FluentBuilder { inner }),
        }
    }
}

impl<TValue, TStorage> FluentBuilder<TValue, Stack, TStorage> where TStorage: Storage<TValue> {
    /// Stack a fluent method on the builder.
    ///
    /// Under the `Stack` policy the new step is composed on top of whatever
    /// was accumulated so far, and a previous value is retained; at
    /// resolution the previous steps run first and the new step runs last.
    pub fn fluent<TNextMethod: FnOnce(TValue) -> TValue>(self, fluent_method: TNextMethod) -> (result:
        FluentBuilder<TValue, Stack, Apply<TValue, TStorage::Method, ByValue<TNextMethod>>>)
        ensures
            result.value_state() == self.value_state(),
            result.pending_method() == Some(
                (Apply {
                    previous: self.pending_method(),
                    next: ByValue(fluent_method),
                    marker: PhantomData::<TValue>,
                }),
            ),
    {
        let FluentBuilder { inner } = self;
        let StatefulFluentBuilder { state, fluent_method: previous, marker: _ } = inner;
        FluentBuilder {
            inner: StatefulFluentBuilder {
                state,
                fluent_method: Some(Apply::new(previous, ByValue(fluent_method))),
                marker: PhantomData,
            },
        }
    }

    /// Stack a fluent method on the builder.
    ///
    /// This method behaves the same as `fluent`, but mutates the value
    /// instead of replacing it.
    pub fn fluent_mut<TNextMethod: FnOnce(&mut TValue)>(self, fluent_method: TNextMethod) -> (result:
        FluentBuilder<TValue, Stack, Apply<TValue, TStorage::Method, ByRefMut<TNextMethod>>>)
        ensures
            result.value_state() == self.value_state(),
            result.pending_method() == Some(
                (Apply {
                    previous: self.pending_method(),
                    next: ByRefMut(fluent_method),
                    marker: PhantomData::<TValue>,
                }),
            ),
    {
        let FluentBuilder { inner } = self;
        let StatefulFluentBuilder { state, fluent_method: previous, marker: _ } = inner;
        FluentBuilder {
            inner: StatefulFluentBuilder {
                state,
                fluent_method: Some(Apply::new(previous, ByRefMut(fluent_method))),
                marker: PhantomData,
            },
        }
    }
}

impl<TValue, TStorage> FluentBuilder<TValue, Override, TStorage> where TStorage: Storage<TValue> {
    /// Set the fluent method on the builder.
    ///
    /// Under the `Override` policy each call replaces everything the builder
    /// held: a previous fluent method is discarded, and so is a previous
    /// value.
    pub fn fluent<TNextMethod: FnOnce(TValue) -> TValue + 'static>(self, fluent_method: TNextMethod) -> (result:
        FluentBuilder<TValue, Override, Apply<TValue, DefaultStorage, ByValue<TNextMethod>>>)
        ensures
            result.value_state() is None,
            result.pending_method() == Some(
                (Apply {
                    previous: None::<Inline>,
                    next: ByValue(fluent_method),
                    marker: PhantomData::<TValue>,
                }),
            ),
    {
        FluentBuilder {
            inner: StatefulFluentBuilder::<(), TValue, Override, Inline>::from_fluent(
                (),
                fluent_method,
            ),
        }
    }

    /// Set the fluent method on the builder.
    ///
    /// This method behaves the same as `fluent`, but mutates the value
    /// instead of replacing it.
    pub fn fluent_mut<TNextMethod: FnOnce(&mut TValue) + 'static>(self, fluent_method: TNextMethod) -> (result:
        FluentBuilder<TValue, Override, Apply<TValue, DefaultStorage, ByRefMut<TNextMethod>>>)
        ensures
            result.value_state() is None,
            result.pending_method() == Some(
                (Apply {
                    previous: None::<Inline>,
                    next: ByRefMut(fluent_method),
                    marker: PhantomData::<TValue>,
                }),
            ),
    {
        FluentBuilder {
            inner: StatefulFluentBuilder::<(), TValue, Override, Inline>::from_fluent_mut(
                (),
                fluent_method,
            ),
        }
    }
}

impl<TValue, TStack, TStorage> FluentBuilder<TValue, TStack, TStorage> where
    TValue: 'static,
    TStorage: Storage<TValue>,
    TStorage::Method: 'static,
{
    /// Box a fluent builder so it can be easily captured as a field without
    /// generics. The state is kept, and the accumulated method is erased
    /// behind a handle with exactly the same behaviour.
    pub fn boxed(self) -> (result: BoxedFluentBuilder<TValue, TStack>)
        ensures
            result.value_state() == self.value_state(),
            self.pending_method() is None ==> result.pending_method() is None,
            self.pending_method() matches Some(m) ==> (result.pending_method() matches Some(bm)
                && (forall|v: TValue, r: TValue| #[trigger] bm.applies(v, r) <==> m.applies(v, r))
                && (forall|v: TValue| #[trigger] bm.ready(v) <==> m.ready(v))),
    {
        let FluentBuilder { inner } = self;
        FluentBuilder { inner: inner.boxed() }
    }
}

impl<TValue, TStack, TStorage> FluentBuilder<TValue, TStack, TStorage> where
    TValue: 'static,
    TStorage: Storage<TValue>,
    TStorage::Method: Send + 'static,
{
    /// Box a fluent builder so it can be easily shared: as `boxed`, and the
    /// erased handle can also be sent to another thread.
    pub fn shared(self) -> (result: SharedFluentBuilder<TValue, TStack>)
        ensures
            result.value_state() == self.value_state(),
            self.pending_method() is None ==> result.pending_method() is None,
            self.pending_method() matches Some(m) ==> (result.pending_method() matches Some(bm)
                && (forall|v: TValue, r: TValue| #[trigger] bm.applies(v, r) <==> m.applies(v, r))
                && (forall|v: TValue| #[trigger] bm.ready(v) <==> m.ready(v))),
    {
        let FluentBuilder { inner } = self;
        FluentBuilder { inner: inner.shared() }
    }
}

impl<TValue, TStack, TStorage> Default for FluentBuilder<TValue, TStack, TStorage> where
    TStorage: Storage<TValue>,
{
    /// Create a default `FluentBuilder`: no value and no fluent methods.
    fn default() -> (result: Self)
        ensures
            result.value_state() is None,
            result.pending_method() is None,
    {
        FluentBuilder { inner: StatefulFluentBuilder::from_seed(()) }
    }
}

/// Law: resolving a builder that was created from a seed and then left
/// untouched yields exactly what the default constructor built from that
/// seed.
///
/// The first two premises are how `from_seed(seed)` leaves a builder; the
/// last two are what `into_value(default_value)` ensures of its result on
/// such a builder, with `base` the witness value the default constructor
/// produced.
pub proof fn lemma_default_resolution_identity<TSeed, TValue, TStack, TStorage, TDefault>(
    builder: StatefulFluentBuilder<TSeed, TValue, TStack, TStorage>,
    seed: TSeed,
    default_value: TDefault,
    base: TValue,
    result: TValue,
) where TStorage: Storage<TValue>, TDefault: FnOnce(TSeed) -> TValue
    requires
        builder.seed_state() == Some(seed),
        builder.pending_method() is None,
        call_ensures(default_value, (seed,), base),
        opt_applies(builder.pending_method(), base, result),
    ensures
        result == base,
        call_ensures(default_value, (seed,), result),
{
}

/// Law: a builder that was last given an explicit value resolves to exactly
/// that value, whatever default constructor is supplied; steps stacked
/// before the value was set leave no trace.
///
/// The first two premises are how `.value(value)` leaves a builder,
/// whatever it held before; the third is what `into_value` (or
/// `try_into_value`) ensures of its outcome on such a builder.
pub proof fn lemma_value_override_totality<TSeed, TValue, TStack, TStorage>(
    builder: StatefulFluentBuilder<TSeed, TValue, TStack, TStorage>,
    value: TValue,
    result: TValue,
) where TStorage: Storage<TValue>
    requires
        builder.value_state() == Some(value),
        builder.pending_method() is None,
        opt_applies(builder.pending_method(), value, result),
    ensures
        result == value,
{
}

/// Law: under the `Override` policy the last fluent call wins. After
/// `.fluent_mut(s1, f1)` and then `.fluent_mut(s2, f2)`, the builder is in
/// exactly the state that `from_fluent_mut(s2, f2)` creates from scratch, so
/// `s1` and `f1` have no observable effect on resolution.
///
/// The premises on `after_first` are what the first call ensures; those on
/// `after_second` are what the second call, made on `after_first`, ensures;
/// those on `fresh` are what `from_fluent_mut(s2, f2)` ensures.
pub proof fn lemma_override_last_write_wins<TSeed, TValue, TFirst, TSecond>(
    after_first: StatefulFluentBuilder<TSeed, TValue, Override, Apply<TValue, Inline, ByRefMut<TFirst>>>,
    after_second: StatefulFluentBuilder<TSeed, TValue, Override, Apply<TValue, Inline, ByRefMut<TSecond>>>,
    fresh: StatefulFluentBuilder<TSeed, TValue, Override, Apply<TValue, Inline, ByRefMut<TSecond>>>,
    s1: TSeed,
    f1: TFirst,
    s2: TSeed,
    f2: TSecond,
) where TFirst: FnOnce(&mut TValue), TSecond: FnOnce(&mut TValue)
    requires
        after_first.seed_state() == Some(s1),
        after_first.value_state() is None,
        after_first.pending_method() == Some(
            (Apply { previous: None::<Inline>, next: ByRefMut(f1), marker: PhantomData::<TValue> }),
        ),
        after_second.seed_state() == Some(s2),
        after_second.value_state() is None,
        after_second.pending_method() == Some(
            (Apply { previous: None::<Inline>, next: ByRefMut(f2), marker: PhantomData::<TValue> }),
        ),
        fresh.seed_state() == Some(s2),
        fresh.value_state() is None,
        fresh.pending_method() == Some(
            (Apply { previous: None::<Inline>, next: ByRefMut(f2), marker: PhantomData::<TValue> }),
        ),
    ensures
        after_second.seed_state() == fresh.seed_state(),
        after_second.value_state() == fresh.value_state(),
        after_second.pending_method() == fresh.pending_method(),
{
}

/// Law: under the `Stack` policy, steps compose first-in first-out. The
/// method accumulated by `.fluent_mut(s1, f1)` then `.fluent_mut(s2, f2)` on
/// a builder holding `previous` relates `base` to `result` exactly when some
/// intermediate values connect them: the previously accumulated steps run
/// first, then `f1` with `s1`, then `f2` with `s2`, in that order.
pub proof fn lemma_stack_fifo_composition<TSeed, TValue, M, TFirst, TSecond>(
    previous: Option<M>,
    s1: TSeed,
    f1: TFirst,
    s2: TSeed,
    f2: TSecond,
    base: TValue,
    result: TValue,
) where
    M: Method<TValue>,
    TFirst: FnOnce(TSeed, &mut TValue),
    TSecond: FnOnce(TSeed, &mut TValue),

    ensures
        (StatefulApply {
            seed: s2,
            previous: Some(
                (StatefulApply {
                    seed: s1,
                    previous,
                    next: ByRefMut(f1),
                    marker: PhantomData::<TValue>,
                }),
            ),
            next: ByRefMut(f2),
            marker: PhantomData::<TValue>,
        }).applies(base, result) <==> exists|mid1: TValue, mid2: TValue|
            opt_applies(previous, base, mid1) && #[trigger] seeded_mut_applies(f1, s1, mid1, mid2)
                && seeded_mut_applies(f2, s2, mid2, result),
{
    let inner = StatefulApply {
        seed: s1,
        previous,
        next: ByRefMut(f1),
        marker: PhantomData::<TValue>,
    };
    let outer = StatefulApply {
        seed: s2,
        previous: Some(inner),
        next: ByRefMut(f2),
        marker: PhantomData::<TValue>,
    };
    assert(outer.applies(base, result) <==> (exists|mid: TValue|
        #[trigger] inner.applies(base, mid) && seeded_mut_applies(f2, s2, mid, result)));
    if outer.applies(base, result) {
        let mid2 = choose|mid: TValue|
            #[trigger] inner.applies(base, mid) && seeded_mut_applies(f2, s2, mid, result);
        match previous {
            Option::None => {
                assert(opt_applies(previous, base, base) && seeded_mut_applies(f1, s1, base, mid2)
                    && seeded_mut_applies(f2, s2, mid2, result));
            },
            Option::Some(p) => {
                let mid1 = choose|mid1: TValue|
                    #[trigger] p.applies(base, mid1) && seeded_mut_applies(f1, s1, mid1, mid2);
                assert(opt_applies(previous, base, mid1) && seeded_mut_applies(f1, s1, mid1, mid2)
                    && seeded_mut_applies(f2, s2, mid2, result));
            },
        }
    }
    if exists|mid1: TValue, mid2: TValue|
        opt_applies(previous, base, mid1) && #[trigger] seeded_mut_applies(f1, s1, mid1, mid2)
            && seeded_mut_applies(f2, s2, mid2, result) {
        let (mid1, mid2) = choose|mid1: TValue, mid2: TValue|
            opt_applies(previous, base, mid1) && #[trigger] seeded_mut_applies(f1, s1, mid1, mid2)
                && seeded_mut_applies(f2, s2, mid2, result);
        match previous {
            Option::None => {
                assert(inner.applies(base, mid2));
            },
            Option::Some(p) => {
                assert(p.applies(base, mid1) && seeded_mut_applies(f1, s1, mid1, mid2));
                assert(inner.applies(base, mid2));
            },
        }
        assert(inner.applies(base, mid2) && seeded_mut_applies(f2, s2, mid2, result));
        assert(exists|mid: TValue|
            #[trigger] inner.applies(base, mid) && seeded_mut_applies(f2, s2, mid, result));
        assert(outer.applies(base, result));
    }
}

/// Law: erasing the storage never changes behaviour. When an erased builder
/// relates to the original as `boxed` and `shared` ensure, the two builders'
/// accumulated methods have the same input-output relation and the same
/// readiness, so every resolution outcome of the one is an outcome of the
/// other.
pub proof fn lemma_storage_equivalence<TSeed, TValue, TStackA, TStorageA, TStackB, TStorageB>(
    original: StatefulFluentBuilder<TSeed, TValue, TStackA, TStorageA>,
    erased: StatefulFluentBuilder<TSeed, TValue, TStackB, TStorageB>,
) where TStorageA: Storage<TValue>, TStorageB: Storage<TValue>
    requires
        erased.value_state() == original.value_state(),
        erased.seed_state() == original.seed_state(),
        original.pending_method() is None ==> erased.pending_method() is None,
        original.pending_method() matches Some(m) ==> (erased.pending_method() matches Some(bm) && (
        forall|v: TValue, r: TValue| #[trigger] bm.applies(v, r) <==> m.applies(v, r)) && (forall|
            v: TValue,
        | #[trigger] bm.ready(v) <==> m.ready(v))),
    ensures
        forall|base: TValue, r: TValue| #[trigger]
            opt_applies(erased.pending_method(), base, r) <==> opt_applies(
                original.pending_method(),
                base,
                r,
            ),
        forall|base: TValue| #[trigger]
            opt_ready(erased.pending_method(), base) <==> opt_ready(
                original.pending_method(),
                base,
            ),
{
}

} // verus!
