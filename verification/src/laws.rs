use crate::context::CallContext;
use crate::mutex::Mutex;
use crate::provider::{CriticalSection, Registry, Route};
use vstd::prelude::*;

verus! {

/// Reading round-trips. Let `f` be a closure that returns the value it is
/// given and leaves it as it was. Whatever `lock` call runs `f`, on whatever
/// mutex and through whatever registry, it returns the value that the mutex
/// held, and the mutex still holds it.
pub proof fn law_read_round_trip<T, F: FnOnce(&mut T) -> T, D: CriticalSection, P: CriticalSection>(
    f: F,
)
    requires
        forall|a: &mut T, out: T| call_ensures(f, (a,), out) ==> out == *a && *final(a) == *a,
    ensures
        forall|m: &mut Mutex<T>, registry: &Registry<D, P>, r: T|
            call_ensures(Mutex::<T>::lock::<T, F, D, P>, (m, registry, f), r) ==> r == m@
                && final(m)@ == m@,
{
}

/// A mutation made inside one `lock` call is what the next one finds. Let a
/// first call run `f`, which leaves the value `w` behind whatever it found,
/// and a second call on the same mutex, which starts where the first one
/// ended, run `g`, which returns the value it is given. Then the second call
/// returns `w`.
pub proof fn law_mutation_is_visible<
    T,
    R,
    F: FnOnce(&mut T) -> R,
    G: FnOnce(&mut T) -> T,
    D: CriticalSection,
    P: CriticalSection,
>(f: F, g: G, w: T)
    requires
        forall|a: &mut T, out: R| call_ensures(f, (a,), out) ==> *final(a) == w,
        forall|a: &mut T, out: T| call_ensures(g, (a,), out) ==> out == *a,
    ensures
        forall|
            first: &mut Mutex<T>,
            second: &mut Mutex<T>,
            registry: &Registry<D, P>,
            r0: R,
            r: T,
        |
            call_ensures(Mutex::<T>::lock::<R, F, D, P>, (first, registry, f), r0) && *second
                == *final(first) && call_ensures(
                Mutex::<T>::lock::<T, G, D, P>,
                (second, registry, g),
                r,
            ) ==> r == w,
{
}

/// The closure runs exactly once per `lock` call. Let the mutex hold a
/// counter and `f` add one to it and return the count it found. Then a `lock`
/// call leaves the counter exactly one higher and returns the count from
/// before: `f` was neither skipped nor run again.
pub proof fn law_closure_runs_once<F: FnOnce(&mut u64) -> u64, D: CriticalSection, P: CriticalSection>(
    f: F,
)
    requires
        forall|a: &mut u64, out: u64|
            call_ensures(f, (a,), out) ==> *final(a) == *a + 1 && out == *a,
    ensures
        forall|m: &mut Mutex<u64>, registry: &Registry<D, P>, r: u64|
            call_ensures(Mutex::<u64>::lock::<u64, F, D, P>, (m, registry, f), r) ==> final(m)@
                == m@ + 1 && r == m@,
{
}

/// Once a provider is registered, every `lock` call is routed to it, whatever
/// the default and whatever was registered before: the call enters that
/// provider, with a context that holds the caller's closure and the mutex's
/// value, and hands back the result that the provider left in the context.
pub proof fn law_registered_provider_is_used<
    T,
    R,
    F: FnOnce(&mut T) -> R,
    D: CriticalSection,
    P: CriticalSection,
>(before: Registry<D, P>, provider: P, f: F)
    ensures
        before.with(provider).provider() == Some(provider),
        before.with(provider).default() == before.default(),
        before.with(provider).route() == Route::Registered,
        before.with(provider).available(),
        forall|m: &mut Mutex<T>, registry: &Registry<D, P>, r: R|
            *registry == before.with(provider) && call_ensures(
                Mutex::<T>::lock::<R, F, D, P>,
                (m, registry, f),
                r,
            ) ==> exists|c: &mut CallContext<'_, T, F, R>|
                c.closure == Some(f) && *c.value == m@ && final(c).result == Some(r)
                    && call_ensures(<P as CriticalSection>::enter::<T, R, F>, (&provider, c), ()),
{
    Registry::lemma_with(before, provider);
}

/// While nothing is registered, a `lock` call is routed to the registry's
/// default and enters it.
pub proof fn law_unset_registry_uses_default<
    T,
    R,
    F: FnOnce(&mut T) -> R,
    D: CriticalSection,
    P: CriticalSection,
>(registry: Registry<D, P>, f: F)
    requires
        registry.provider() is None,
        registry.default() is Some,
    ensures
        registry.route() == Route::Default,
        registry.available(),
        forall|m: &mut Mutex<T>, r: R|
            call_ensures(Mutex::<T>::lock::<R, F, D, P>, (m, &registry, f), r) ==> exists|
                c: &mut CallContext<'_, T, F, R>,
            |
                c.closure == Some(f) && *c.value == m@ && final(c).result == Some(r)
                    && call_ensures(
                    <D as CriticalSection>::enter::<T, R, F>,
                    (&registry.default()->0, c),
                    (),
                ),
{
}

/// With nothing registered and no default there is no critical section, and
/// no closure is ever run without one: every `try_lock` call answers `None`
/// and leaves the mutex holding what it held.
pub proof fn law_no_critical_section_no_run<
    T,
    R,
    F: FnOnce(&mut T) -> R,
    D: CriticalSection,
    P: CriticalSection,
>(registry: Registry<D, P>, f: F)
    requires
        registry.provider() is None,
        registry.default() is None,
    ensures
        registry.route() == Route::Unavailable,
        !registry.available(),
        forall|m: &mut Mutex<T>, r: Option<R>|
            call_ensures(Mutex::<T>::try_lock::<R, F, D, P>, (m, &registry, f), r) ==> r is None
                && final(m)@ == m@,
{
}

} // verus!
