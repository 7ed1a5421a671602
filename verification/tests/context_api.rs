use pollcore::Context;
use pollcore::LocalWaker;
use pollcore::Waker;

#[test]
fn context_exposes_both_waker_forms() {
    let lw = LocalWaker::new(21);
    let cx = Context::new(&lw, 0u64);
    assert_eq!(cx.local_waker().token(), 21);
    // The transferable form denotes the same notification target.
    assert_eq!(cx.waker().token(), 21);
}

#[test]
fn waker_handles_carry_their_token() {
    let w = Waker::new(5);
    assert_eq!(w.token(), 5);
    let copy = w;
    assert_eq!(copy, w);
    let lw = LocalWaker::new(5);
    assert_eq!(lw.token(), 5);
    assert_eq!(lw.waker().token(), 5);
}

#[test]
fn spawner_accessor_reaches_the_carried_spawner() {
    let lw = LocalWaker::new(1);
    let mut cx = Context::new(&lw, 10u64);
    *cx.spawner() += 5;
    let (w, s) = cx.into_parts();
    assert_eq!(w.token(), 1);
    assert_eq!(s, 15u64);
}

#[test]
fn with_waker_leaves_spawner_and_parent_waker_unaffected() {
    let lw1 = LocalWaker::new(1);
    let lw2 = LocalWaker::new(2);
    let cx = Context::new(&lw1, 10u64);
    let narrowed = cx.with_waker(&lw2);
    assert_eq!(narrowed.local_waker().token(), 2);
    // Substituting the parent's own handle back reconstructs the parent:
    // nothing of the substituted handle leaked.
    let restored = narrowed.with_waker(&lw1);
    let (w, s) = restored.into_parts();
    assert_eq!(w.token(), 1);
    assert_eq!(s, 10u64);
}

#[test]
fn with_spawner_hands_back_the_displaced_spawner() {
    let lw = LocalWaker::new(3);
    let cx = Context::new(&lw, 10u64);
    let (narrowed, displaced) = cx.with_spawner(99u32);
    assert_eq!(displaced, 10u64);
    assert_eq!(narrowed.local_waker().token(), 3);
    let mut narrowed = narrowed;
    assert_eq!(*narrowed.spawner(), 99u32);
}

#[test]
fn with_spawner_round_trip_restores_the_parent() {
    let lw = LocalWaker::new(4);
    let cx = Context::new(&lw, 10u64);
    let (narrowed, displaced) = cx.with_spawner(99u32);
    let (restored, substituted) = narrowed.with_spawner(displaced);
    assert_eq!(substituted, 99u32);
    let (w, s) = restored.into_parts();
    assert_eq!(w.token(), 4);
    assert_eq!(s, 10u64);
}
