use cs_mutex::{
    set_the_critical_section, the_critical_section, CallContext, CriticalSection, Direct, Mutex,
    Registry, Route,
};
use std::cell::Cell;
use std::rc::Rc;

struct Counting {
    entered: Rc<Cell<u32>>,
}

impl CriticalSection for Counting {
    fn enter<T, R, F: FnOnce(&mut T) -> R>(&self, ctx: &mut CallContext<'_, T, F, R>) {
        self.entered.set(self.entered.get() + 1);
        ctx.trampoline()
    }
}

fn counting() -> (Counting, Rc<Cell<u32>>) {
    let entered = Rc::new(Cell::new(0u32));
    (Counting { entered: entered.clone() }, entered)
}

#[test]
fn lock_goes_through_the_registered_provider_once_per_call() {
    let (default, default_entered) = counting();
    let (provider, entered) = counting();
    let mut registry: Registry<Counting, Counting> = Registry::new(Some(default));
    set_the_critical_section(&mut registry, provider);
    let mut m = Mutex::new(0u64);
    let mut calls = 0u32;
    let r = m.lock(&registry, |x| {
        calls += 1;
        *x = 11;
        *x + 1
    });
    assert_eq!(r, 12);
    assert_eq!(calls, 1);
    assert_eq!(entered.get(), 1);
    m.lock(&registry, |x| *x += 1);
    m.lock(&registry, |x| *x += 1);
    assert_eq!(entered.get(), 3);
    assert_eq!(m.lock(&registry, |x| *x), 13);
    assert_eq!(entered.get(), 4);
    assert_eq!(default_entered.get(), 0);
}

#[test]
fn registration_reaches_mutexes_made_before_and_after() {
    let (provider, entered) = counting();
    let mut registry: Registry<Direct, Counting> = Registry::new(Some(Direct));
    let mut before = Mutex::new(1u8);
    set_the_critical_section(&mut registry, provider);
    let mut after = Mutex::new(2u8);
    assert_eq!(before.lock(&registry, |x| *x), 1);
    assert_eq!(entered.get(), 1);
    assert_eq!(after.lock(&registry, |x| *x), 2);
    assert_eq!(entered.get(), 2);
}

#[test]
fn closure_counter_in_the_value_rises_by_one_per_lock() {
    let (provider, _entered) = counting();
    let mut registry: Registry<Direct, Counting> = Registry::new(None);
    set_the_critical_section(&mut registry, provider);
    let mut m = Mutex::new(40u64);
    let found = m.lock(&registry, |c| {
        let v = *c;
        *c = v + 1;
        v
    });
    assert_eq!(found, 40);
    assert_eq!(m.lock(&registry, |c| *c), 41);
}

#[test]
fn registering_again_replaces_the_provider() {
    let (first, first_entered) = counting();
    let (second, second_entered) = counting();
    let mut registry: Registry<Direct, Counting> = Registry::new(None);
    set_the_critical_section(&mut registry, first);
    let mut m = Mutex::new(0i8);
    m.lock(&registry, |x| *x += 1);
    set_the_critical_section(&mut registry, second);
    m.lock(&registry, |x| *x += 1);
    m.lock(&registry, |x| *x += 1);
    assert_eq!(first_entered.get(), 1);
    assert_eq!(second_entered.get(), 2);
    assert_eq!(m.lock(&registry, |x| *x), 3);
}

#[test]
fn unset_registry_locks_through_the_default() {
    let (default, entered) = counting();
    let registry: Registry<Counting, Direct> = Registry::new(Some(default));
    assert_eq!(registry.resolve(), Route::Default);
    assert!(registry.is_available());
    assert!(registry.registered().is_none());
    assert!(registry.compiled_in().is_some());
    let mut m = Mutex::new(String::from("de"));
    let mut calls = 0u32;
    let len = m.lock(&registry, |s| {
        calls += 1;
        s.push_str("fault");
        s.len()
    });
    assert_eq!(len, 7);
    assert_eq!(calls, 1);
    assert_eq!(entered.get(), 1);
    assert_eq!(m.try_lock(&registry, |s| s.clone()), Some(String::from("default")));
    assert_eq!(entered.get(), 2);
}

#[test]
fn the_critical_section_enters_the_default_once() {
    let (default, entered) = counting();
    let (provider, provider_entered) = counting();
    let mut registry: Registry<Counting, Counting> = Registry::new(Some(default));
    set_the_critical_section(&mut registry, provider);
    let mut value = 6u32;
    let mut ctx = CallContext::new(&mut value, |v: &mut u32| {
        *v += 1;
        *v * 2
    });
    the_critical_section(&registry, &mut ctx);
    assert!(ctx.closure.is_none());
    assert_eq!(ctx.into_result(), 14);
    assert_eq!(value, 7);
    assert_eq!(entered.get(), 1);
    assert_eq!(provider_entered.get(), 0);
}

#[test]
fn registry_without_default_or_provider_is_not_available() {
    let registry: Registry<Direct, Direct> = Registry::new(None);
    assert_eq!(registry.resolve(), Route::Unavailable);
    assert!(!registry.is_available());
    assert!(registry.compiled_in().is_none());
    assert!(registry.registered().is_none());
}

#[test]
fn registering_makes_a_registry_without_default_available() {
    let mut registry: Registry<Direct, Direct> = Registry::new(None);
    assert!(!registry.is_available());
    set_the_critical_section(&mut registry, Direct);
    assert!(registry.is_available());
    assert!(registry.registered().is_some());
    assert!(registry.compiled_in().is_none());
    assert_eq!(registry.resolve(), Route::Registered);
}

#[test]
fn registered_provider_wins_over_the_default() {
    let (default, default_entered) = counting();
    let (provider, entered) = counting();
    let mut registry: Registry<Counting, Counting> = Registry::new(Some(default));
    set_the_critical_section(&mut registry, provider);
    assert_eq!(registry.resolve(), Route::Registered);
    let mut m = Mutex::new(1u8);
    assert_eq!(m.lock(&registry, |x| *x), 1);
    assert_eq!(entered.get(), 1);
    assert_eq!(default_entered.get(), 0);
}

#[test]
fn trampoline_discharges_an_armed_context() {
    let mut value = 4u32;
    let mut ctx = CallContext::new(&mut value, |v: &mut u32| {
        *v *= 3;
        *v + 1
    });
    assert!(ctx.closure.is_some());
    assert!(ctx.result.is_none());
    ctx.trampoline();
    assert!(ctx.closure.is_none());
    assert_eq!(ctx.result, Some(13));
    assert_eq!(ctx.into_result(), 13);
    assert_eq!(value, 12);
}

#[test]
fn direct_enters_by_calling_the_trampoline() {
    let mut value = String::from("in");
    let mut ctx = CallContext::new(&mut value, |s: &mut String| {
        s.push_str("side");
        s.len()
    });
    Direct.enter(&mut ctx);
    assert_eq!(ctx.into_result(), 6);
    assert_eq!(value, String::from("inside"));
}

#[test]
fn try_lock_without_critical_section_leaves_everything_alone() {
    let mut registry: Registry<Direct, Direct> = Registry::new(None);
    let mut m = Mutex::new(8u16);
    let mut calls = 0u32;
    let r = m.try_lock(&registry, |x| {
        calls += 1;
        *x = 0;
        1u8
    });
    assert_eq!(r, None);
    assert_eq!(calls, 0);
    set_the_critical_section(&mut registry, Direct);
    assert_eq!(m.try_lock(&registry, |x| *x), Some(8));
}

#[test]
fn try_lock_with_provider_runs_closure_once() {
    let (provider, entered) = counting();
    let mut registry: Registry<Direct, Counting> = Registry::new(None);
    set_the_critical_section(&mut registry, provider);
    let mut m = Mutex::new(vec![1u8]);
    let mut calls = 0u32;
    let r = m.try_lock(&registry, |v| {
        calls += 1;
        v.push(2);
        v.len()
    });
    assert_eq!(r, Some(2));
    assert_eq!(calls, 1);
    assert_eq!(entered.get(), 1);
    assert_eq!(m.try_lock(&registry, |v| v.clone()), Some(vec![1u8, 2]));
}
