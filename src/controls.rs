//! Leaf widgets: a button that steps a number within a range, a fixed-size
//! label, and a log that records which widgets saw an event.
use crate::geometry::{BoxConstraints, Point, Size};
use crate::widget::{
    Env, Event, EventCtx, LayoutCtx, LifeCycle, LifeCycleCtx, PaintCommand, PaintCtx, UpdateCtx, Widget,
};
use vstd::prelude::*;

verus! {

pub open spec fn clamp_int(v: int, lo: int, hi: int) -> int {
    if v < lo {
        lo
    } else if v > hi {
        hi
    } else {
        v
    }
}

/// A button on a number: a press adds `delta` and clamps the sum to
/// `min..=max`.
#[derive(Clone, Copy, PartialEq, Eq, Structural, Debug)]
pub struct StepButton {
    pub delta: i64,
    pub min: i64,
    pub max: i64,
    pub tag: u64,
    pub preferred: Size,
    pub laid: Size,
}

impl StepButton {
    /// The number after one press.
    pub open spec fn pressed(&self, v: i64) -> i64 {
        clamp_int(v + self.delta, self.min as int, self.max as int) as i64
    }

    pub fn new(delta: i64, min: i64, max: i64, tag: u64, preferred: Size) -> (r: StepButton)
        requires
            min <= max,
        ensures
            r.delta == delta,
            r.min == min,
            r.max == max,
            r.tag == tag,
            r.preferred == preferred,
    {
        StepButton { delta, min, max, tag, preferred, laid: Size { width: 0, height: 0 } }
    }

    /// Applies one press to `value`.
    pub fn press(&self, value: &mut i64)
        ensures
            *final(value) == self.pressed(*old(value)),
            self.min <= self.max ==> self.min <= *final(value) <= self.max,
    {
        let sum: i128 = *value as i128 + self.delta as i128;
        *value = if sum < self.min as i128 {
            self.min
        } else if sum > self.max as i128 {
            self.max
        } else {
            sum as i64
        };
    }
}

impl Widget<i64> for StepButton {
    open spec fn birth_disabled(&self, data: i64, env: Env) -> bool {
        false
    }

    open spec fn update_disabled(&self, was: bool, data: i64, env: Env) -> bool {
        was
    }

    open spec fn laid_out(&self, bc: BoxConstraints, size: Size) -> bool {
        self.laid == size
    }

    open spec fn painted(&self, origin: Point, disabled: bool, data: i64) -> Seq<PaintCommand> {
        seq![PaintCommand { origin, size: self.laid, tag: self.tag, disabled }]
    }

    /// A mouse press presses the button; other events leave the number.
    open spec fn evented(&self, event: Event, data: i64) -> i64 {
        match event {
            Event::MouseDown(_) => self.pressed(data),
            _ => data,
        }
    }

    open spec fn handles(&self, event: Event, data: i64) -> bool {
        event is MouseDown
    }

    fn event(&mut self, ctx: &mut EventCtx, event: &Event, data: &mut i64, env: &Env) {
        if let Event::MouseDown(_) = event {
            self.press(data);
            ctx.set_handled();
            ctx.request_paint();
        }
    }

    fn lifecycle(&mut self, ctx: &mut LifeCycleCtx, event: &LifeCycle, data: &i64, env: &Env) {
    }

    fn update(&mut self, ctx: &mut UpdateCtx, old_data: &i64, data: &i64, env: &Env) {
        if *old_data != *data {
            ctx.request_paint();
        }
    }

    fn layout(&mut self, ctx: &mut LayoutCtx, bc: &BoxConstraints, data: &i64, env: &Env) -> (r:
        Size) {
        let size = bc.constrain(self.preferred);
        self.laid = size;
        size
    }

    fn paint(&mut self, ctx: &mut PaintCtx, data: &i64, env: &Env) {
        ctx.fill(self.laid, self.tag);
    }
}

/// A box of a preferred size that draws itself and ignores input.
#[derive(Clone, Copy, PartialEq, Eq, Structural, Debug)]
pub struct Label {
    pub tag: u64,
    pub preferred: Size,
    pub laid: Size,
}

impl Label {
    pub fn new(tag: u64, preferred: Size) -> (r: Label)
        ensures
            r.tag == tag,
            r.preferred == preferred,
    {
        Label { tag, preferred, laid: Size { width: 0, height: 0 } }
    }
}

impl<T: DeepView> Widget<T> for Label {
    open spec fn birth_disabled(&self, data: T::V, env: Env) -> bool {
        false
    }

    open spec fn update_disabled(&self, was: bool, data: T::V, env: Env) -> bool {
        was
    }

    open spec fn laid_out(&self, bc: BoxConstraints, size: Size) -> bool {
        self.laid == size
    }

    open spec fn painted(&self, origin: Point, disabled: bool, data: T::V) -> Seq<PaintCommand> {
        seq![PaintCommand { origin, size: self.laid, tag: self.tag, disabled }]
    }

    open spec fn evented(&self, event: Event, data: T::V) -> T::V {
        data
    }

    open spec fn handles(&self, event: Event, data: T::V) -> bool {
        false
    }

    fn event(&mut self, ctx: &mut EventCtx, event: &Event, data: &mut T, env: &Env) {
    }

    fn lifecycle(&mut self, ctx: &mut LifeCycleCtx, event: &LifeCycle, data: &T, env: &Env) {
    }

    fn update(&mut self, ctx: &mut UpdateCtx, old_data: &T, data: &T, env: &Env) {
    }

    fn layout(&mut self, ctx: &mut LayoutCtx, bc: &BoxConstraints, data: &T, env: &Env) -> (r:
        Size) {
        let size = bc.constrain(self.preferred);
        self.laid = size;
        size
    }

    fn paint(&mut self, ctx: &mut PaintCtx, data: &T, env: &Env) {
        ctx.fill(self.laid, self.tag);
    }
}

/// Appends its tag to the data for every event that reaches it.
#[derive(Clone, Copy, PartialEq, Eq, Structural, Debug)]
pub struct EventLog {
    pub tag: u64,
    pub preferred: Size,
    pub laid: Size,
}

impl EventLog {
    pub fn new(tag: u64, preferred: Size) -> (r: EventLog)
        ensures
            r.tag == tag,
            r.preferred == preferred,
    {
        EventLog { tag, preferred, laid: Size { width: 0, height: 0 } }
    }

    /// Records that an event reached this widget.
    pub fn record(&self, log: &mut Vec<u64>)
        ensures
            final(log)@ == old(log)@.push(self.tag),
    {
        log.push(self.tag);
    }
}

impl Widget<Vec<u64>> for EventLog {
    open spec fn birth_disabled(&self, data: Seq<u64>, env: Env) -> bool {
        false
    }

    open spec fn update_disabled(&self, was: bool, data: Seq<u64>, env: Env) -> bool {
        was
    }

    open spec fn laid_out(&self, bc: BoxConstraints, size: Size) -> bool {
        self.laid == size
    }

    open spec fn painted(&self, origin: Point, disabled: bool, data: Seq<u64>) -> Seq<PaintCommand> {
        seq![PaintCommand { origin, size: self.laid, tag: self.tag, disabled }]
    }

    open spec fn evented(&self, event: Event, data: Seq<u64>) -> Seq<u64> {
        data.push(self.tag)
    }

    open spec fn handles(&self, event: Event, data: Seq<u64>) -> bool {
        false
    }

    fn event(&mut self, ctx: &mut EventCtx, event: &Event, data: &mut Vec<u64>, env: &Env) {
        let ghost before = data.deep_view();
        proof {
            assert(before =~= data@);
        }
        self.record(data);
        assert(data.deep_view() =~= before.push(self.tag));
    }

    fn lifecycle(&mut self, ctx: &mut LifeCycleCtx, event: &LifeCycle, data: &Vec<u64>, env: &Env) {
    }

    fn update(&mut self, ctx: &mut UpdateCtx, old_data: &Vec<u64>, data: &Vec<u64>, env: &Env) {
    }

    fn layout(
        &mut self,
        ctx: &mut LayoutCtx,
        bc: &BoxConstraints,
        data: &Vec<u64>,
        env: &Env,
    ) -> (r: Size) {
        let size = bc.constrain(self.preferred);
        self.laid = size;
        size
    }

    fn paint(&mut self, ctx: &mut PaintCtx, data: &Vec<u64>, env: &Env) {
        ctx.fill(self.laid, self.tag);
    }
}

} // verus!
