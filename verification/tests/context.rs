use warnings::{Registry, SuppressionContext, Warning, WarningId};

struct First {}

impl Warning for First {
    const ID: u64 = 10;
}

struct Second {}

impl Warning for Second {
    const ID: u64 = 20;
}

struct FirstAgain {}

impl Warning for FirstAgain {
    const ID: u64 = 10;
}

#[test]
fn identity_follows_the_declared_number() {
    assert_eq!(WarningId::of::<First>(), WarningId::of::<First>());
    assert_ne!(WarningId::of::<First>(), WarningId::of::<Second>());
    assert_eq!(WarningId::of::<First>(), WarningId::of::<FirstAgain>());
    let id = WarningId::of::<Second>();
    let copy = id;
    assert_eq!(id, copy);
}

#[test]
fn registry_accepts_each_number_once() {
    let mut registry = Registry::new();
    assert!(!registry.is_declared(10));

    let first = registry.declare::<First>();
    assert_eq!(first, Some(WarningId::of::<First>()));
    assert!(registry.is_declared(10));
    assert!(!registry.is_declared(20));

    assert_eq!(registry.declare::<FirstAgain>(), None);
    assert_eq!(registry.declare::<First>(), None);

    let second = registry.declare::<Second>();
    assert_eq!(second, Some(WarningId::of::<Second>()));
    assert_ne!(first, second);
    assert!(registry.is_declared(10));
    assert!(registry.is_declared(20));
}

#[test]
fn context_keeps_its_number() {
    let mut ctx = SuppressionContext::new(41);
    assert_eq!(ctx.id(), 41);
    ctx.push(WarningId::of::<First>());
    assert_eq!(ctx.id(), 41);
    ctx.pop();
    assert_eq!(ctx.id(), 41);
}

#[test]
fn empty_context_contains_nothing() {
    let ctx = SuppressionContext::new(1);
    assert_eq!(ctx.depth(), 0);
    assert_eq!(ctx.innermost(), None);
    assert!(!ctx.contains(WarningId::of::<First>()));
}

#[test]
fn push_appends_and_pop_removes_the_last_entry() {
    let a = WarningId::of::<First>();
    let b = WarningId::of::<Second>();
    let mut ctx = SuppressionContext::new(1);

    ctx.push(a);
    assert_eq!(ctx.depth(), 1);
    assert_eq!(ctx.innermost(), Some(a));
    ctx.push(b);
    assert_eq!(ctx.depth(), 2);
    assert_eq!(ctx.innermost(), Some(b));
    assert!(ctx.contains(a));
    assert!(ctx.contains(b));

    ctx.pop();
    assert_eq!(ctx.depth(), 1);
    assert_eq!(ctx.innermost(), Some(a));
    assert!(ctx.contains(a));
    assert!(!ctx.contains(b));

    ctx.pop();
    assert_eq!(ctx.depth(), 0);
    assert!(!ctx.contains(a));
}

#[test]
fn contains_finds_an_entry_anywhere_in_the_stack() {
    let a = WarningId::of::<First>();
    let b = WarningId::of::<Second>();
    let mut ctx = SuppressionContext::new(1);
    ctx.push(a);
    ctx.push(b);
    ctx.push(b);
    assert!(ctx.contains(a));
    ctx.pop();
    assert!(ctx.contains(b));
    assert!(!a.enabled(&ctx));
    assert!(!b.enabled(&ctx));
}

#[test]
fn if_enabled_runs_the_body_exactly_once_when_enabled() {
    let w = WarningId::of::<First>();
    let ctx = SuppressionContext::new(1);
    let mut runs = 0;
    let ran = w.if_enabled(&ctx, || runs += 1);
    assert_eq!(ran, Some(()));
    assert_eq!(runs, 1);
}

#[test]
fn if_enabled_skips_the_body_when_suppressed() {
    let w = WarningId::of::<First>();
    let mut ctx = SuppressionContext::new(1);
    ctx.push(w);
    let mut runs = 0;
    let ran = w.if_enabled(&ctx, || runs += 1);
    assert_eq!(ran, None);
    assert_eq!(runs, 0);

    let other = WarningId::of::<Second>().if_enabled(&ctx, || 7);
    assert_eq!(other, Some(7));

    ctx.pop();
    let ran = w.if_enabled(&ctx, || runs += 1);
    assert_eq!(ran, Some(()));
    assert_eq!(runs, 1);
}

#[test]
fn declared_warning_offers_the_operations_of_its_identity() {
    let mut ctx = SuppressionContext::new(1);
    assert!(First::enabled(&ctx));
    assert_eq!(First::if_enabled(&ctx, || 3), Some(3));

    let inside = First::allow(&mut ctx, |ctx| {
        (First::enabled(ctx), Second::enabled(ctx), First::if_enabled(ctx, || 3))
    });
    assert_eq!(inside, (false, true, None));
    assert!(First::enabled(&ctx));
    assert_eq!(ctx.depth(), 0);

    let wrapped = First::allow_async(std::future::ready(5));
    assert_eq!(wrapped.warning(), WarningId::of::<First>());
}
