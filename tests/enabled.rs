use druid::controls::StepButton;
use druid::enabled_if::{EnabledIf, IsTrue, Predicate, Through, Within};
use druid::geometry::{BoxConstraints, Point, Size};
use druid::lens::{First, Second};
use druid::lens_wrap::LensWrap;
use druid::widget::{
    Env, Event, EventCtx, LayoutCtx, LifeCycle, LifeCycleCtx, UpdateCtx, WidgetPod,
};

type Data = (bool, i64);
type Gated = EnabledIf<Data, LensWrap<i64, StepButton, Second>, Through<First, IsTrue, bool>>;

fn gated() -> WidgetPod<Data, Gated> {
    let button = StepButton::new(1, 0, 10, 7, Size::new(20, 10));
    WidgetPod::new(EnabledIf::new(LensWrap::new(button, Second), Through::new(First, IsTrue)))
}

fn add(pod: &mut WidgetPod<Data, Gated>, data: &Data, env: &Env) {
    let mut ctx = LifeCycleCtx::new();
    pod.lifecycle(&mut ctx, &LifeCycle::WidgetAdded { initially_enabled: true }, data, env);
    let mut lctx = LayoutCtx::new();
    let bc = BoxConstraints::new(Size::new(0, 0), Size::new(100, 100));
    pod.layout(&mut lctx, &bc, data, env);
}

#[test]
fn initially_disabled_when_predicate_false() {
    let env = Env::new(0);
    let mut data: Data = (false, 3);
    let mut pod = gated();
    add(&mut pod, &data, &env);
    assert!(!pod.is_enabled());
    assert!(!pod.inner.inner.is_enabled());
    let mut ctx = EventCtx::new();
    pod.event(&mut ctx, &Event::MouseDown(Point::new(5, 5)), &mut data, &env);
    assert_eq!(data, (false, 3));
    assert!(!ctx.handled);
}

#[test]
fn initially_enabled_when_predicate_true() {
    let env = Env::new(0);
    let mut data: Data = (true, 3);
    let mut pod = gated();
    add(&mut pod, &data, &env);
    assert!(pod.is_enabled());
    assert!(pod.inner.inner.is_enabled());
    let mut ctx = EventCtx::new();
    pod.event(&mut ctx, &Event::MouseDown(Point::new(5, 5)), &mut data, &env);
    assert_eq!(data, (true, 4));
    assert!(ctx.handled);
}

#[test]
fn disabled_ancestor_disables_at_birth() {
    let env = Env::new(0);
    let data: Data = (true, 3);
    let mut pod = gated();
    let mut ctx = LifeCycleCtx::new();
    pod.lifecycle(&mut ctx, &LifeCycle::WidgetAdded { initially_enabled: false }, &data, &env);
    assert!(!pod.is_enabled());
    assert!(!pod.state.explicitly_disabled);
    assert!(pod.state.ancestor_disabled);
}

#[test]
fn update_flips_enabled_on_the_next_pass() {
    let env = Env::new(0);
    let mut data: Data = (true, 3);
    let mut pod = gated();
    add(&mut pod, &data, &env);
    assert!(pod.is_enabled());

    let old = data;
    data.0 = false;
    let mut uctx = UpdateCtx::new(false);
    pod.update(&mut uctx, &old, &data, &env);
    assert!(!pod.is_enabled());
    assert!(!pod.inner.inner.is_enabled());
    let mut ectx = EventCtx::new();
    pod.event(&mut ectx, &Event::MouseDown(Point::new(5, 5)), &mut data, &env);
    assert_eq!(data, (false, 3));

    let old = data;
    data.0 = true;
    let mut uctx = UpdateCtx::new(false);
    pod.update(&mut uctx, &old, &data, &env);
    assert!(pod.is_enabled());
    assert!(pod.inner.inner.is_enabled());
    pod.event(&mut ectx, &Event::MouseDown(Point::new(5, 5)), &mut data, &env);
    assert_eq!(data, (true, 4));
}

#[test]
fn layout_passes_child_size_through() {
    let env = Env::new(0);
    let data: Data = (true, 0);
    let mut pod = gated();
    let mut ctx = LifeCycleCtx::new();
    pod.lifecycle(&mut ctx, &LifeCycle::WidgetAdded { initially_enabled: true }, &data, &env);
    let mut lctx = LayoutCtx::new();
    for (bc, expected) in [
        (BoxConstraints::new(Size::new(0, 0), Size::new(100, 100)), Size::new(20, 10)),
        (BoxConstraints::tight(Size::new(40, 30)), Size::new(40, 30)),
        (BoxConstraints::new(Size::new(0, 0), Size::new(15, 5)), Size::new(15, 5)),
    ] {
        let size = pod.layout(&mut lctx, &bc, &data, &env);
        assert_eq!(size, expected);
        assert_eq!(pod.inner.inner.size(), size);
        assert_eq!(pod.inner.inner.origin(), Point::zero());
    }
}

#[test]
fn pointer_outside_widget_is_not_delivered() {
    let env = Env::new(0);
    let mut data: Data = (true, 3);
    let mut pod = gated();
    add(&mut pod, &data, &env);
    let mut ctx = EventCtx::new();
    pod.event(&mut ctx, &Event::MouseDown(Point::new(25, 5)), &mut data, &env);
    assert_eq!(data, (true, 3));
    assert!(!ctx.handled);
}

#[test]
fn predicates_evaluate() {
    let env = Env::new(0);
    let w = Within::new(1, 4);
    assert!(!w.eval(&0, &env));
    assert!(w.eval(&1, &env));
    assert!(w.eval(&4, &env));
    assert!(!w.eval(&5, &env));
    assert!(IsTrue.eval(&true, &env));
    assert!(!IsTrue.eval(&false, &env));
    let t: Through<Second, Within, i64> = Through::new(Second, Within::new(0, 0));
    assert!(t.eval(&(false, 0i64), &env));
    assert!(!t.eval(&(false, 2i64), &env));
}

#[test]
fn boxed_matches_new() {
    let env = Env::new(0);
    let data: i64 = 0;
    let button = StepButton::new(1, 0, 5, 1, Size::new(10, 10));
    let mut pod = WidgetPod::new(EnabledIf::boxed(button, Box::new(Within::new(1, 5))));
    let mut ctx = LifeCycleCtx::new();
    pod.lifecycle(&mut ctx, &LifeCycle::WidgetAdded { initially_enabled: true }, &data, &env);
    assert!(!pod.is_enabled());
}

#[test]
fn child_added_with_ancestor_flag_and_predicate() {
    let env = Env::new(0);
    for (ie, enabled, child_enabled) in [(true, true, true), (true, false, false), (false, true, false), (false, false, false)] {
        let data: Data = (enabled, 1);
        let mut pod = gated();
        let mut ctx = LifeCycleCtx::new();
        pod.lifecycle(&mut ctx, &LifeCycle::WidgetAdded { initially_enabled: ie }, &data, &env);
        assert!(pod.inner.inner.state.added);
        assert_eq!(pod.inner.inner.is_enabled(), child_enabled);
        assert_eq!(pod.inner.inner.state.ancestor_disabled, !child_enabled);
        assert!(!ctx.disabled_initially);
    }
}

#[test]
fn disabled_ancestor_change_reaches_child() {
    let env = Env::new(0);
    let data: Data = (true, 1);
    let mut pod = gated();
    add(&mut pod, &data, &env);
    let mut ctx = LifeCycleCtx::new();
    pod.lifecycle(&mut ctx, &LifeCycle::DisabledChanged(true), &data, &env);
    assert!(!pod.is_enabled());
    assert!(!pod.inner.inner.is_enabled());
    pod.lifecycle(&mut ctx, &LifeCycle::DisabledChanged(false), &data, &env);
    assert!(pod.is_enabled());
    assert!(pod.inner.inner.is_enabled());
}

#[test]
fn handled_flag_follows_the_button() {
    let env = Env::new(0);
    let mut data: Data = (true, 0);
    let mut pod = gated();
    add(&mut pod, &data, &env);
    let mut ctx = EventCtx::new();
    pod.event(&mut ctx, &Event::Command(1), &mut data, &env);
    assert!(!ctx.handled);
    pod.event(&mut ctx, &Event::MouseUp(Point::new(1, 1)), &mut data, &env);
    assert!(!ctx.handled);
    assert_eq!(data, (true, 0));
    pod.event(&mut ctx, &Event::MouseDown(Point::new(1, 1)), &mut data, &env);
    assert!(ctx.handled);
    assert_eq!(data, (true, 1));
}

#[test]
fn boxed_and_new_start_alike() {
    let a = EnabledIf::new(StepButton::new(1, 0, 5, 1, Size::new(10, 10)), Within::new(0, 5));
    let b = EnabledIf::boxed(StepButton::new(1, 0, 5, 1, Size::new(10, 10)), Box::new(Within::new(0, 5)));
    assert_eq!(a.inner.state, b.inner.state);
    assert_eq!(a.inner.state.size, Size::new(0, 0));
    assert_eq!(a.inner.state.origin, Point::zero());
    assert_eq!(*a.enabled_if, *b.enabled_if);
}
