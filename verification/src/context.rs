use vstd::prelude::*;

verus! {

/// What one `lock` call hands through a critical section: the guarded value,
/// the caller's closure until it is invoked, and the slot that receives the
/// closure's result.
///
/// `new` makes a context armed (closure present, slot empty). The trampoline
/// asks for an armed context and leaves it discharged (closure gone, slot
/// filled), so it cannot run twice on one context; `into_result` asks for a
/// discharged one. The fields are public: these states are what the contracts
/// demand and give, not an invariant of the type.
pub struct CallContext<'a, T, F, R> {
    pub value: &'a mut T,
    pub closure: Option<F>,
    pub result: Option<R>,
}

impl<'a, T, R, F: FnOnce(&mut T) -> R> CallContext<'a, T, F, R> {
    /// The closure has not run yet and the result slot is empty.
    pub open spec fn armed(&self) -> bool {
        self.closure is Some && self.result is None
    }

    /// The closure is spent and the result slot holds what it returned.
    pub open spec fn discharged(&self) -> bool {
        self.closure is None && self.result is Some
    }

    /// The closure of this context may be called on a reference whose target
    /// is the guarded value.
    pub open spec fn callable(&self) -> bool {
        forall|a: &mut T| *a == *self.value ==> call_requires(self.closure->0, (a,))
    }

    /// Packs the guarded value and the closure into an armed context.
    pub fn new(value: &'a mut T, f: F) -> (ctx: Self)
        ensures
            ctx.armed(),
            ctx.closure == Some(f),
            *ctx.value == *old(value),
            *final(ctx.value) == *final(value),
    {
        CallContext { value, closure: Some(f), result: None }
    }

    /// The fixed entry point that a critical section calls: takes the closure
    /// out, invokes it once on the guarded value and stores its result.
    pub fn trampoline(&mut self)
        requires
            old(self).armed(),
            old(self).callable(),
        ensures
            final(self).discharged(),
            exists|a: &mut T|
                *a == *old(self).value && *final(a) == *final(self).value && call_ensures(
                    old(self).closure->0,
                    (a,),
                    final(self).result->0,
                ),
            *final(final(self).value) == *final(old(self).value),
    {
        let f = self.closure.take().unwrap();
        let r = f(&mut *self.value);
        self.result = Some(r);
    }

    /// Reads the result out of a discharged context.
    pub fn into_result(self) -> (r: R)
        requires
            self.discharged(),
        ensures
            self.result == Some(r),
            *final(self.value) == *old(self.value),
    {
        self.result.unwrap()
    }
}

} // verus!
