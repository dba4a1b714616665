//! An allocation-backed handle that owns one heap-allocated callable.
//!
//! [`Func`] plays the role of a boxed function: it can be seen as
//! semantically equivalent to a `Box<dyn Fn(T) -> O>`. Constructing a handle
//! moves the callable, together with everything it captured, into a single
//! heap allocation; invoking the handle calls the stored callable by shared
//! reference; releasing the handle (explicitly, or implicitly when it goes
//! out of scope) runs the captured value's cleanup exactly once and frees
//! the allocation. Ownership of the record is exclusive: moving the handle
//! moves the record with it, and only the final owner's release destroys it.

use core::marker::PhantomData;
use vstd::prelude::*;

verus! {

/// A boxed function.
///
/// The handle owns a heap record holding a callable of concrete type `F`
/// accepting an argument of type `T` and returning a value of type `O`.
/// The lifetime parameter ties the handle to any data the callable borrowed
/// from its surroundings, so a handle can never outlive what its payload
/// refers to; a payload that owns everything it captured may live for
/// `'static`.
///
/// A multi-argument callable is carried with its arguments gathered into one
/// aggregate (a tuple), and the handle then offers the three usual
/// invocation modes: by shared access ([`Func::call`]), by exclusive access
/// ([`Func::call_mut`]) and consuming the handle ([`Func::call_once`]).
pub struct Func<'a, T, O, F> {
    data: Box<F>,
    phantom: PhantomData<&'a (T, O)>,
}

impl<'a, T, O, F: Fn(T) -> O + 'a> Func<'a, T, O, F> {
    /// The callable stored in the handle's heap record, with everything it
    /// captured.
    pub closed spec fn payload(&self) -> F {
        *self.data
    }

    /// Create a new [`Func`] encapsulating the provided function, `f`.
    ///
    /// The callable is moved into one fresh heap allocation. When the
    /// handle is released, the encapsulated function is dropped with it.
    pub fn new(f: F) -> (h: Self)
        ensures
            h.payload() == f,
    {
        Func { data: Box::new(f), phantom: PhantomData }
    }

    /// Call the encapsulated function with the given argument.
    ///
    /// The handle is only read, never consumed: it may be invoked any
    /// number of times, and every result is one the stored callable itself
    /// could have produced on that argument.
    pub fn call_(&self, arg: T) -> (r: O)
        requires
            call_requires(self.payload(), (arg,)),
        ensures
            call_ensures(self.payload(), (arg,), r),
    {
        (*self.data)(arg)
    }

    /// Call the encapsulated function by shared access.
    ///
    /// The same operation as [`Func::call_`], under the name the shared
    /// invocation mode usually carries.
    pub fn call(&self, args: T) -> (r: O)
        requires
            call_requires(self.payload(), (args,)),
        ensures
            call_ensures(self.payload(), (args,), r),
    {
        (*self.data)(args)
    }

    /// Call the encapsulated function by exclusive access.
    ///
    /// Exclusive access changes nothing about the record: the payload after
    /// the call is the payload before it, so later invocations see the same
    /// stored callable.
    pub fn call_mut(&mut self, args: T) -> (r: O)
        requires
            call_requires(old(self).payload(), (args,)),
        ensures
            final(self).payload() == old(self).payload(),
            call_ensures(old(self).payload(), (args,), r),
    {
        (*self.data)(args)
    }

    /// Call the encapsulated function once, consuming the handle.
    ///
    /// This is the single-use invocation mode: the call takes the handle by
    /// value, so no code path can invoke or release it afterwards. The
    /// record's cleanup runs before the call returns.
    pub fn call_once(self, args: T) -> (r: O)
        requires
            call_requires(self.payload(), (args,)),
        ensures
            call_ensures(self.payload(), (args,), r),
    {
        (*self.data)(args)
    }

    /// Release the handle, destroying the record it owns.
    ///
    /// The stored callable's cleanup runs exactly once, here, and the
    /// allocation is freed. The same happens implicitly when a handle goes
    /// out of scope; this operation only makes the point of destruction
    /// explicit. Taking the handle by value is what makes a second release,
    /// or an invocation after the release, impossible.
    pub fn release(self) {
    }
}

/// Law: invocation through a handle agrees with a direct call.
///
/// `new` yields a handle whose payload is exactly the callable given to it,
/// and `call_` yields only results the payload admits. So for a pure
/// callable — one whose specification admits a single result per argument —
/// the value obtained through the handle equals the value a direct call
/// yields: `invoke(construct(f), a) == f(a)`.
pub proof fn lemma_pure_invoke_matches_direct<'a, T, O, F: Fn(T) -> O + 'a>(
    h: Func<'a, T, O, F>,
    f: F,
    a: T,
    through_handle: O,
    direct: O,
)
    requires
        h.payload() == f,
        call_ensures(f, (a,), through_handle),
        call_ensures(f, (a,), direct),
        forall|r1: O, r2: O|
            call_ensures(f, (a,), r1) && call_ensures(f, (a,), r2) ==> r1 == r2,
    ensures
        through_handle == direct,
{
}

/// Law: repeated invocations agree with repeated direct calls.
///
/// A reusable handle leaves its payload untouched, so a run of invocations
/// is a run of calls of one and the same callable: every result in the run
/// satisfies the callable's specification on its argument, and for a pure
/// callable the whole run equals the run of direct calls on the same
/// arguments.
pub proof fn lemma_repeated_invocations_match_direct<'a, T, O, F: Fn(T) -> O + 'a>(
    h: Func<'a, T, O, F>,
    f: F,
    args: Seq<T>,
    through_handle: Seq<O>,
    direct: Seq<O>,
)
    requires
        h.payload() == f,
        args.len() == through_handle.len(),
        args.len() == direct.len(),
        forall|i: int|
            0 <= i < args.len() ==> call_ensures(f, (args[i],), #[trigger] through_handle[i]),
        forall|i: int| 0 <= i < args.len() ==> call_ensures(f, (args[i],), #[trigger] direct[i]),
        forall|x: T, r1: O, r2: O|
            call_ensures(f, (x,), r1) && call_ensures(f, (x,), r2) ==> r1 == r2,
    ensures
        through_handle =~= direct,
{
    assert forall|i: int| 0 <= i < args.len() implies through_handle[i] == direct[i] by {
        assert(call_ensures(f, (args[i],), through_handle[i]));
        assert(call_ensures(f, (args[i],), direct[i]));
    }
}

} // verus!
