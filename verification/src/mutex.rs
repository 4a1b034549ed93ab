use crate::context::CallContext;
use crate::provider::{the_critical_section, CriticalSection, Registry};
use vstd::prelude::*;

verus! {

/// A value that is only reached from inside a critical section.
///
/// The mutex stores the value and nothing else: no flag, no owner. Its view
/// is the value.
pub struct Mutex<T>(T);

impl<T> View for Mutex<T> {
    type V = T;

    closed spec fn view(&self) -> T {
        self.0
    }
}

impl<T> Mutex<T> {
    /// Wraps `t`.
    pub fn new(t: T) -> (m: Mutex<T>)
        ensures
            m@ == t,
    {
        Mutex(t)
    }

    /// Runs `f` once on the guarded value inside the critical section that
    /// `registry` names, and returns what `f` returned. The value afterwards
    /// is the value as `f` left it.
    ///
    /// The call enters the registered provider if there is one, else the
    /// registry's default, with a context that holds `f` and the value.
    ///
    /// Locking again from inside `f` is not supported. A registry without a
    /// critical section (nothing registered, no default) is a configuration
    /// error that the precondition leaves out.
    pub fn lock<R, F: FnOnce(&mut T) -> R, D: CriticalSection, P: CriticalSection>(
        &mut self,
        registry: &Registry<D, P>,
        f: F,
    ) -> (r: R)
        requires
            registry.available(),
            forall|a: &mut T| *a == old(self)@ ==> call_requires(f, (a,)),
        ensures
            exists|a: &mut T|
                *a == old(self)@ && *final(a) == final(self)@ && call_ensures(f, (a,), r),
            registry.provider() is Some ==> exists|c: &mut CallContext<'_, T, F, R>|
                c.armed() && c.closure == Some(f) && *c.value == old(self)@ && final(c).result == Some(r)
                    && call_ensures(
                    <P as CriticalSection>::enter::<T, R, F>,
                    (&registry.provider()->0, c),
                    (),
                ),
            registry.provider() is None ==> exists|c: &mut CallContext<'_, T, F, R>|
                c.armed() && c.closure == Some(f) && *c.value == old(self)@ && final(c).result == Some(r)
                    && call_ensures(
                    <D as CriticalSection>::enter::<T, R, F>,
                    (&registry.default()->0, c),
                    (),
                ),
    {
        self.lock_impl(registry, f)
    }

    /// As `lock`, for any registry: where the registry has no critical
    /// section, `f` is not run, the value stays as it was and the answer is
    /// `None`.
    pub fn try_lock<R, F: FnOnce(&mut T) -> R, D: CriticalSection, P: CriticalSection>(
        &mut self,
        registry: &Registry<D, P>,
        f: F,
    ) -> (r: Option<R>)
        requires
            forall|a: &mut T| *a == old(self)@ ==> call_requires(f, (a,)),
        ensures
            r is Some <==> registry.available(),
            r is Some ==> exists|a: &mut T|
                *a == old(self)@ && *final(a) == final(self)@ && call_ensures(f, (a,), r->0),
            r is None ==> final(self)@ == old(self)@,
            registry.provider() is Some ==> exists|c: &mut CallContext<'_, T, F, R>|
                c.armed() && c.closure == Some(f) && *c.value == old(self)@ && final(c).result == r
                    && call_ensures(
                    <P as CriticalSection>::enter::<T, R, F>,
                    (&registry.provider()->0, c),
                    (),
                ),
            registry.provider() is None && registry.default() is Some ==> exists|c: &mut CallContext<'_, T, F, R>|
                c.armed() && c.closure == Some(f) && *c.value == old(self)@ && final(c).result == r
                    && call_ensures(
                    <D as CriticalSection>::enter::<T, R, F>,
                    (&registry.default()->0, c),
                    (),
                ),
    {
        if registry.is_available() {
            Some(self.lock_impl(registry, f))
        } else {
            None
        }
    }

    /// The bridge between the typed closure and the critical section: packs
    /// the guarded value, the closure and an empty result slot into a
    /// context, hands the context to the registered provider or else to the
    /// registry's default, and reads the result out once that returns.
    fn lock_impl<R, F: FnOnce(&mut T) -> R, D: CriticalSection, P: CriticalSection>(
        &mut self,
        registry: &Registry<D, P>,
        f: F,
    ) -> (r: R)
        requires
            registry.available(),
            forall|a: &mut T| *a == old(self)@ ==> call_requires(f, (a,)),
        ensures
            exists|a: &mut T|
                *a == old(self)@ && *final(a) == final(self)@ && call_ensures(f, (a,), r),
            registry.provider() is Some ==> exists|c: &mut CallContext<'_, T, F, R>|
                c.armed() && c.closure == Some(f) && *c.value == old(self)@ && final(c).result == Some(r)
                    && call_ensures(
                    <P as CriticalSection>::enter::<T, R, F>,
                    (&registry.provider()->0, c),
                    (),
                ),
            registry.provider() is None ==> exists|c: &mut CallContext<'_, T, F, R>|
                c.armed() && c.closure == Some(f) && *c.value == old(self)@ && final(c).result == Some(r)
                    && call_ensures(
                    <D as CriticalSection>::enter::<T, R, F>,
                    (&registry.default()->0, c),
                    (),
                ),
    {
        let mut ctx = CallContext::new(&mut self.0, f);
        match registry.registered() {
            Some(provider) => provider.enter(&mut ctx),
            None => the_critical_section(registry, &mut ctx),
        }
        ctx.into_result()
    }
}

} // verus!
