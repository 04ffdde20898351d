use druid::controls::{EventLog, Label, StepButton};
use druid::enabled_if::{EnabledIf, Within};
use druid::flex::Row;
use druid::geometry::{BoxConstraints, Point, Size};
use druid::lens::Second;
use druid::lens_wrap::LensWrap;
use druid::widget::{
    Env, Event, EventCtx, LayoutCtx, LifeCycle, LifeCycleCtx, PaintCtx, UpdateCtx, WidgetPod,
};

fn logs() -> WidgetPod<Vec<u64>, Row<Vec<u64>, EventLog>> {
    WidgetPod::new(
        Row::new()
            .with_child(EventLog::new(1, Size::new(30, 10)))
            .with_child(EventLog::new(2, Size::new(20, 15))),
    )
}

#[test]
fn row_dispatches_in_order_every_cycle() {
    let env = Env::new(0);
    let mut pod = logs();
    let mut data: Vec<u64> = Vec::new();
    let mut lc = LifeCycleCtx::new();
    pod.lifecycle(&mut lc, &LifeCycle::WidgetAdded { initially_enabled: true }, &data, &env);
    for cycle in 0..3u64 {
        data.clear();
        let mut ectx = EventCtx::new();
        pod.event(&mut ectx, &Event::Command(cycle), &mut data, &env);
        assert_eq!(data, vec![1, 2]);

        let mut lctx = LayoutCtx::new();
        let bc = BoxConstraints::new(Size::new(0, 0), Size::new(200, 100));
        let size = pod.layout(&mut lctx, &bc, &data, &env);
        assert_eq!(size, Size::new(50, 15));
        assert_eq!(pod.inner.children[0].origin(), Point::new(0, 0));
        assert_eq!(pod.inner.children[1].origin(), Point::new(30, 0));

        let mut pctx = PaintCtx::new();
        pod.paint(&mut pctx, &data, &env);
        let tags: Vec<u64> = pctx.commands.iter().map(|c| c.tag).collect();
        assert_eq!(tags, vec![1, 2]);
        assert_eq!(pctx.commands[1].origin, Point::new(30, 0));
    }
}

#[test]
fn row_pointer_reaches_only_child_under_it() {
    let env = Env::new(0);
    let mut pod = logs();
    let mut data: Vec<u64> = Vec::new();
    let mut lc = LifeCycleCtx::new();
    pod.lifecycle(&mut lc, &LifeCycle::WidgetAdded { initially_enabled: true }, &data, &env);
    let mut lctx = LayoutCtx::new();
    let bc = BoxConstraints::new(Size::new(0, 0), Size::new(200, 100));
    pod.layout(&mut lctx, &bc, &data, &env);
    let mut ectx = EventCtx::new();
    pod.event(&mut ectx, &Event::MouseDown(Point::new(35, 5)), &mut data, &env);
    assert_eq!(data, vec![2]);
    pod.event(&mut ectx, &Event::MouseUp(Point::new(5, 5)), &mut data, &env);
    assert_eq!(data, vec![2, 1]);
    pod.event(&mut ectx, &Event::MouseDown(Point::new(60, 5)), &mut data, &env);
    assert_eq!(data, vec![2, 1]);
}

#[test]
fn row_shrinks_later_children_to_remaining_width() {
    let env = Env::new(0);
    let data: u8 = 0;
    let mut pod = WidgetPod::new(
        Row::new().with_child(Label::new(1, Size::new(30, 10))).with_child(Label::new(2, Size::new(30, 10))),
    );
    let mut lctx = LayoutCtx::new();
    let bc = BoxConstraints::new(Size::new(0, 0), Size::new(45, 100));
    let size = pod.layout(&mut lctx, &bc, &data, &env);
    assert_eq!(size, Size::new(45, 10));
    assert_eq!(pod.inner.children[1].size(), Size::new(15, 10));
    assert_eq!(pod.inner.children[1].origin(), Point::new(30, 0));
}

#[test]
fn row_respects_minimum_size() {
    let env = Env::new(0);
    let data: u8 = 0;
    let mut pod = WidgetPod::new(Row::new().with_child(Label::new(1, Size::new(10, 10))));
    let mut lctx = LayoutCtx::new();
    let bc = BoxConstraints::new(Size::new(50, 20), Size::new(100, 100));
    assert_eq!(pod.layout(&mut lctx, &bc, &data, &env), Size::new(50, 20));
}

#[test]
fn empty_row_takes_minimum() {
    let env = Env::new(0);
    let data: u8 = 0;
    let mut pod: WidgetPod<u8, Row<u8, Label>> = WidgetPod::new(Row::new());
    let mut lctx = LayoutCtx::new();
    let bc = BoxConstraints::new(Size::new(5, 6), Size::new(100, 100));
    assert_eq!(pod.layout(&mut lctx, &bc, &data, &env), Size::new(5, 6));
    assert_eq!(pod.inner.len(), 0);
}

type Counter = Row<(bool, i64), LensWrap<i64, EnabledIf<i64, StepButton, Within>, Second>>;

fn counter() -> WidgetPod<(bool, i64), Counter> {
    let dec = EnabledIf::new(StepButton::new(-1, 0, 5, 10, Size::new(20, 20)), Within::new(1, i64::MAX));
    let inc = EnabledIf::new(StepButton::new(1, 0, 5, 11, Size::new(20, 20)), Within::new(i64::MIN, 4));
    WidgetPod::new(Row::new().with_child(LensWrap::new(dec, Second)).with_child(LensWrap::new(inc, Second)))
}

fn click(pod: &mut WidgetPod<(bool, i64), Counter>, data: &mut (bool, i64), x: u32, env: &Env) {
    let old = *data;
    let mut ectx = EventCtx::new();
    pod.event(&mut ectx, &Event::MouseDown(Point::new(x, 5)), data, env);
    let mut uctx = UpdateCtx::new(false);
    pod.update(&mut uctx, &old, data, env);
}

#[test]
fn counter_stays_within_range() {
    let env = Env::new(0);
    let mut data: (bool, i64) = (true, 0);
    let mut pod = counter();
    let mut lc = LifeCycleCtx::new();
    pod.lifecycle(&mut lc, &LifeCycle::WidgetAdded { initially_enabled: true }, &data, &env);
    let mut lctx = LayoutCtx::new();
    let bc = BoxConstraints::new(Size::new(0, 0), Size::new(100, 40));
    pod.layout(&mut lctx, &bc, &data, &env);

    let dec = &pod.inner.children[0].inner.inner;
    assert!(!dec.inner.is_enabled());
    click(&mut pod, &mut data, 5, &env);
    assert_eq!(data.1, 0);
    assert!(!pod.inner.children[0].inner.inner.inner.is_enabled());

    for expected in 1..=5i64 {
        click(&mut pod, &mut data, 25, &env);
        assert_eq!(data.1, expected);
    }
    assert!(!pod.inner.children[1].inner.inner.inner.is_enabled());
    assert!(pod.inner.children[0].inner.inner.inner.is_enabled());
    click(&mut pod, &mut data, 25, &env);
    assert_eq!(data.1, 5);

    click(&mut pod, &mut data, 5, &env);
    assert_eq!(data.1, 4);
    assert!(pod.inner.children[1].inner.inner.inner.is_enabled());
    assert_eq!(data.0, true);
}

#[test]
fn step_button_press_clamps() {
    let b = StepButton::new(-1, 0, 5, 0, Size::new(1, 1));
    let mut v: i64 = 0;
    b.press(&mut v);
    assert_eq!(v, 0);
    v = 3;
    b.press(&mut v);
    assert_eq!(v, 2);
    let up = StepButton::new(i64::MAX, i64::MIN, i64::MAX, 0, Size::new(1, 1));
    let mut w: i64 = i64::MAX;
    up.press(&mut w);
    assert_eq!(w, i64::MAX);
    let mut u: i64 = 9;
    b.press(&mut u);
    assert_eq!(u, 5);
}

#[test]
fn constraints_constrain_axis_by_axis() {
    let bc = BoxConstraints::new(Size::new(10, 10), Size::new(20, 30));
    assert_eq!(bc.constrain(Size::new(5, 40)), Size::new(10, 30));
    assert_eq!(bc.constrain(Size::new(15, 12)), Size::new(15, 12));
    assert!(bc.is_satisfied_by(Size::new(20, 10)));
    assert!(!bc.is_satisfied_by(Size::new(21, 10)));
    let loose = bc.loosen();
    assert_eq!(loose.min, Size::new(0, 0));
    assert_eq!(loose.max, Size::new(20, 30));
}
