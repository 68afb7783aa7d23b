//! A single-operation capability interface and an adapter that turns a
//! closure into such a capability.

use vstd::prelude::*;

verus! {

/// One stage of processing: a value goes in, a value comes out.
///
/// `spec_call` is the mathematical model of the implementation: `call` must
/// return exactly `spec_call(input)`.  Implementations therefore describe
/// services whose behaviour is a function of the input alone.
pub trait Service<Input, Output> {
    /// What `call` returns on `input`.
    spec fn spec_call(&self, input: Input) -> Output;

    /// Run the service on one input.
    fn call(&self, input: Input) -> (out: Output)
        ensures
            out == self.spec_call(input),
    ;
}

impl<'a, Input, Output, T: Service<Input, Output>> Service<Input, Output> for &'a T {
    open spec fn spec_call(&self, input: Input) -> Output {
        (**self).spec_call(input)
    }

    fn call(&self, input: Input) -> (out: Output) {
        (**self).call(input)
    }
}

/// A closure wrapped as a [`Service`].
///
/// The wrapped closure must be total (callable on every input) and
/// deterministic (its postcondition admits a single output per input);
/// [`Function::new`] demands both, and the type keeps them as an invariant.
#[verifier::reject_recursive_types(Input)]
#[verifier::reject_recursive_types(Output)]
pub struct Function<F: Fn(Input) -> Output, Input, Output> {
    func: F,
    _marker: core::marker::PhantomData<(Input, Output)>,
}

impl<F: Fn(Input) -> Output, Input, Output> Function<F, Input, Output> {
    #[verifier::type_invariant]
    spec fn inv(self) -> bool {
        &&& forall|i: Input| #[trigger] call_requires(self.func, (i,))
        &&& forall|i: Input, o1: Output, o2: Output|
            call_ensures(self.func, (i,), o1) && call_ensures(self.func, (i,), o2) ==> o1 == o2
    }

    /// Wrap a total, deterministic closure.
    pub fn new(func: F) -> (r: Self)
        requires
            forall|i: Input| #[trigger] call_requires(func, (i,)),
            forall|i: Input, o1: Output, o2: Output|
                call_ensures(func, (i,), o1) && call_ensures(func, (i,), o2) ==> o1 == o2,
        ensures
            forall|i: Input, o: Output| #[trigger] call_ensures(func, (i,), o)
                ==> r.spec_call(i) == o,
    {
        Self { func, _marker: core::marker::PhantomData }
    }
}

impl<F: Fn(Input) -> Output, Input, Output> Service<Input, Output> for Function<F, Input, Output> {
    closed spec fn spec_call(&self, input: Input) -> Output {
        choose|o: Output| call_ensures(self.func, (input,), o)
    }

    fn call(&self, input: Input) -> (out: Output) {
        proof {
            use_type_invariant(self);
        }
        (self.func)(input)
    }
}

/// Wrap a total, deterministic closure as a [`Service`].
pub fn service<F: Fn(Input) -> Output, Input, Output>(f: F) -> (r: Function<F, Input, Output>)
    requires
        forall|i: Input| #[trigger] call_requires(f, (i,)),
        forall|i: Input, o1: Output, o2: Output|
            call_ensures(f, (i,), o1) && call_ensures(f, (i,), o2) ==> o1 == o2,
    ensures
        forall|i: Input, o: Output| #[trigger] call_ensures(f, (i,), o) ==> r.spec_call(i) == o,
{
    Function::new(f)
}

} // verus!
