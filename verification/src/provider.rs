use crate::context::CallContext;
use vstd::prelude::*;

verus! {

/// Where a `lock` call is sent.
#[derive(Clone, Copy, Debug, PartialEq, Eq, Structural)]
pub enum Route {
    /// To the provider that the application registered.
    Registered,
    /// To the default critical section that the registry was made with.
    Default,
    /// Nowhere: nothing is registered and there is no default. Locking is
    /// then a fatal configuration error.
    Unavailable,
}

/// A critical section: runs the trampoline of the context it is given exactly
/// once, while nothing else on the core can enter a critical section.
///
/// What an implementation guarantees about exclusion is outside this
/// contract; what it must do with the context is inside it. The context
/// arrives armed and leaves discharged by one call of its closure on the
/// guarded value.
pub trait CriticalSection {
    fn enter<T, R, F: FnOnce(&mut T) -> R>(&self, ctx: &mut CallContext<'_, T, F, R>)
        requires
            old(ctx).armed(),
            old(ctx).callable(),
        ensures
            final(ctx).discharged(),
            exists|a: &mut T|
                *a == *old(ctx).value && *final(a) == *final(ctx).value && call_ensures(
                    old(ctx).closure->0,
                    (a,),
                    final(ctx).result->0,
                ),
            *final(final(ctx).value) == *final(old(ctx).value),
    ;
}

/// The critical section that masks nothing: it calls the trampoline directly.
/// It excludes nobody, so it is only right where nothing can interrupt.
#[derive(Clone, Copy, Debug)]
pub struct Direct;

impl CriticalSection for Direct {
    fn enter<T, R, F: FnOnce(&mut T) -> R>(&self, ctx: &mut CallContext<'_, T, F, R>) {
        ctx.trampoline()
    }
}

/// The slot that holds the application's critical section, together with the
/// default that is used while the slot is empty. The default is handed in by
/// whoever knows the machine; a registry made without one has no critical
/// section until a provider is registered.
pub struct Registry<D, P> {
    default: Option<D>,
    provider: Option<P>,
}

impl<D, P> Registry<D, P> {
    /// The default critical section, if the registry was made with one.
    pub closed spec fn default(&self) -> Option<D> {
        self.default
    }

    /// The registered provider, if any.
    pub closed spec fn provider(&self) -> Option<P> {
        self.provider
    }

    /// Where a `lock` call goes: to the registered provider if there is one,
    /// else to the default if there is one.
    pub open spec fn route(&self) -> Route {
        if self.provider() is Some {
            Route::Registered
        } else if self.default() is Some {
            Route::Default
        } else {
            Route::Unavailable
        }
    }

    /// A `lock` call has a critical section to run in.
    pub open spec fn available(&self) -> bool {
        self.provider() is Some || self.default() is Some
    }

    /// This registry after `provider` was registered in it.
    pub closed spec fn with(self, provider: P) -> Self {
        Registry { default: self.default, provider: Some(provider) }
    }

    /// What `with` leaves in the registry.
    pub proof fn lemma_with(registry: Self, provider: P)
        ensures
            registry.with(provider).provider() == Some(provider),
            registry.with(provider).default() == registry.default(),
    {
    }

    /// A registry with the given default and nothing registered.
    pub fn new(default: Option<D>) -> (registry: Self)
        ensures
            registry.default() == default,
            registry.provider() is None,
    {
        Registry { default, provider: None }
    }

    /// The default critical section, if any.
    pub fn compiled_in(&self) -> (default: Option<&D>)
        ensures
            default is Some <==> self.default() is Some,
            default is Some ==> *default->0 == self.default()->0,
    {
        self.default.as_ref()
    }

    /// The registered provider, if any.
    pub fn registered(&self) -> (provider: Option<&P>)
        ensures
            provider is Some <==> self.provider() is Some,
            provider is Some ==> *provider->0 == self.provider()->0,
    {
        self.provider.as_ref()
    }

    /// Where a `lock` call goes.
    pub fn resolve(&self) -> (route: Route)
        ensures
            route == self.route(),
    {
        match self.provider {
            Some(_) => Route::Registered,
            None => match self.default {
                Some(_) => Route::Default,
                None => Route::Unavailable,
            },
        }
    }

    /// Whether a `lock` call has a critical section to run in: false exactly
    /// when nothing is registered and there is no default.
    pub fn is_available(&self) -> (yes: bool)
        ensures
            yes == self.available(),
            yes == (self.route() != Route::Unavailable),
    {
        match self.provider {
            Some(_) => true,
            None => self.default.is_some(),
        }
    }
}

/// Enters the default critical section of `registry` with `ctx`: the
/// default's `enter` is called on it, and the context comes back discharged
/// by one call of its closure.
///
/// A registry without a default has nothing to enter, which the precondition
/// leaves out: to go on without exclusion would be a silent error.
pub fn the_critical_section<D: CriticalSection, P, T, R, F: FnOnce(&mut T) -> R>(
    registry: &Registry<D, P>,
    ctx: &mut CallContext<'_, T, F, R>,
)
    requires
        registry.default() is Some,
        old(ctx).armed(),
        old(ctx).callable(),
    ensures
        final(ctx).discharged(),
        exists|a: &mut T|
            *a == *old(ctx).value && *final(a) == *final(ctx).value && call_ensures(
                old(ctx).closure->0,
                (a,),
                final(ctx).result->0,
            ),
        *final(final(ctx).value) == *final(old(ctx).value),
        exists|c: &mut CallContext<'_, T, F, R>|
            *c == *old(ctx) && *final(c) == *final(ctx) && call_ensures(
                <D as CriticalSection>::enter::<T, R, F>,
                (&registry.default()->0, c),
                (),
            ),
{
    match registry.compiled_in() {
        Some(default) => default.enter(ctx),
        None => {},
    }
}

/// Registers `provider` as the critical section of every later `lock` call
/// through `registry`, in place of the default or of a provider registered
/// before.
pub fn set_the_critical_section<D, P>(registry: &mut Registry<D, P>, provider: P)
    ensures
        *final(registry) == old(registry).with(provider),
        final(registry).provider() == Some(provider),
        final(registry).default() == old(registry).default(),
{
    registry.provider = Some(provider);
}

} // verus!
