//! A decorator that enables its child only while a predicate over the data
//! holds, together with the predicates it is built from.
use crate::geometry::{BoxConstraints, Point, Size};
use crate::lens::Lens;
use crate::widget::{
    Env, Event, EventCtx, LayoutCtx, LifeCycle, LifeCycleCtx, PaintCommand, PaintCtx, UpdateCtx, Widget,
    WidgetPod,
};
use std::marker::PhantomData;
use vstd::prelude::*;

verus! {

/// A pure test of the data and environment.
pub trait Predicate<T: DeepView> {
    spec fn holds(&self, data: T::V, env: Env) -> bool;

    fn eval(&self, data: &T, env: &Env) -> (r: bool)
        ensures
            r == self.holds(data.deep_view(), *env),
    ;
}

/// Holds of a number in `lo..=hi`.
#[derive(Clone, Copy, PartialEq, Eq, Structural, Debug)]
pub struct Within {
    pub lo: i64,
    pub hi: i64,
}

impl Within {
    pub fn new(lo: i64, hi: i64) -> (r: Within)
        ensures
            r.lo == lo,
            r.hi == hi,
    {
        Within { lo, hi }
    }
}

impl Predicate<i64> for Within {
    open spec fn holds(&self, data: i64, env: Env) -> bool {
        self.lo <= data <= self.hi
    }

    fn eval(&self, data: &i64, env: &Env) -> (r: bool) {
        self.lo <= *data && *data <= self.hi
    }
}

/// Holds of `true`.
#[derive(Clone, Copy, PartialEq, Eq, Structural, Debug)]
pub struct IsTrue;

impl Predicate<bool> for IsTrue {
    open spec fn holds(&self, data: bool, env: Env) -> bool {
        data
    }

    fn eval(&self, data: &bool, env: &Env) -> (r: bool) {
        *data
    }
}

/// A predicate on a part, applied to the whole through a lens.
pub struct Through<L, P, U> {
    pub lens: L,
    pub pred: P,
    pub marker: PhantomData<U>,
}

impl<L, P, U> Through<L, P, U> {
    pub fn new(lens: L, pred: P) -> (r: Self)
        ensures
            r.lens == lens,
            r.pred == pred,
    {
        Through { lens, pred, marker: PhantomData }
    }
}

impl<T: DeepView, U: DeepView, L: Lens<T, U>, P: Predicate<U>> Predicate<T> for Through<L, P, U> {
    open spec fn holds(&self, data: T::V, env: Env) -> bool {
        self.pred.holds(self.lens.get_spec(data), env)
    }

    fn eval(&self, data: &T, env: &Env) -> (r: bool) {
        let part = self.lens.get(data);
        self.pred.eval(&part, env)
    }
}

/// Enables its child only while `enabled_if` holds of the data.
pub struct EnabledIf<T, W, P> {
    pub inner: WidgetPod<T, W>,
    pub enabled_if: Box<P>,
}

impl<T: DeepView, W: Widget<T>, P: Predicate<T>> EnabledIf<T, W, P> {
    /// Wraps `inner`, enabled while `enabled_if` holds.
    pub fn new(inner: W, enabled_if: P) -> (r: Self)
        ensures
            r.inner.inner == inner,
            r.inner.state.size == Size::new_spec(0, 0),
            r.inner.state.origin == Point::zero_spec(),
            r.inner.state.enabled(),
            !r.inner.state.added,
            r.inner.state.needs_layout,
            r.inner.state.needs_paint,
            *r.enabled_if == enabled_if,
    {
        EnabledIf { inner: WidgetPod::new(inner), enabled_if: Box::new(enabled_if) }
    }

    /// Wraps `inner` with a predicate that is already boxed.
    pub fn boxed(inner: W, enabled_if: Box<P>) -> (r: Self)
        ensures
            r.inner.inner == inner,
            r.inner.state.size == Size::new_spec(0, 0),
            r.inner.state.origin == Point::zero_spec(),
            r.inner.state.enabled(),
            !r.inner.state.added,
            r.inner.state.needs_layout,
            r.inner.state.needs_paint,
            r.enabled_if == enabled_if,
    {
        EnabledIf { inner: WidgetPod::new(inner), enabled_if }
    }
}

impl<T: DeepView, W: Widget<T>, P: Predicate<T>> Widget<T> for EnabledIf<T, W, P> {
    open spec fn birth_disabled(&self, data: T::V, env: Env) -> bool {
        !self.enabled_if.holds(data, env)
    }

    open spec fn update_disabled(&self, was: bool, data: T::V, env: Env) -> bool {
        !self.enabled_if.holds(data, env)
    }

    /// The child was laid out under the same constraints, took the very
    /// size returned, and sits at the decorator's origin.
    open spec fn laid_out(&self, bc: BoxConstraints, size: Size) -> bool {
        &&& self.inner.state.size == size
        &&& self.inner.state.origin == Point::zero_spec()
        &&& self.inner.inner.laid_out(bc, size)
    }

    open spec fn painted(&self, origin: Point, disabled: bool, data: T::V) -> Seq<PaintCommand> {
        self.inner.painted(origin, disabled, data)
    }

    open spec fn evented(&self, event: Event, data: T::V) -> T::V {
        self.inner.evented(event, data)
    }

    open spec fn handles(&self, event: Event, data: T::V) -> bool {
        self.inner.handles(event, data)
    }

    fn event(&mut self, ctx: &mut EventCtx, event: &Event, data: &mut T, env: &Env)
        ensures
            final(self).enabled_if == old(self).enabled_if,
            final(self).inner.state.explicitly_disabled == old(self).inner.state.explicitly_disabled,
            final(self).inner.state.ancestor_disabled == old(self).inner.state.ancestor_disabled,
            final(self).inner.state.size == old(self).inner.state.size,
            final(self).inner.state.origin == old(self).inner.state.origin,
    {
        self.inner.event(ctx, event, data, env);
    }

    /// On `WidgetAdded`, the child is added enabled only where the ancestors
    /// are enabled and the predicate holds; any other notification reaches
    /// the child unchanged.
    fn lifecycle(&mut self, ctx: &mut LifeCycleCtx, event: &LifeCycle, data: &T, env: &Env)
        ensures
            final(self).enabled_if == old(self).enabled_if,
            final(self).inner.state.size == old(self).inner.state.size,
            final(self).inner.state.origin == old(self).inner.state.origin,
            match *event {
                LifeCycle::WidgetAdded { initially_enabled } => {
                    &&& final(self).inner.state.added
                    &&& final(self).inner.state.ancestor_disabled == !(initially_enabled
                        && old(self).enabled_if.holds(data.deep_view(), *env))
                    &&& final(self).inner.state.explicitly_disabled
                        == old(self).inner.inner.birth_disabled(data.deep_view(), *env)
                },
                LifeCycle::DisabledChanged(d) => {
                    &&& final(self).inner.state.ancestor_disabled == d
                    &&& final(self).inner.state.explicitly_disabled
                        == old(self).inner.state.explicitly_disabled
                    &&& final(self).inner.state.added == old(self).inner.state.added
                },
            },
    {
        if let LifeCycle::WidgetAdded { .. } = event {
            let enabled = self.enabled_if.eval(data, env);
            if !enabled {
                ctx.set_disabled_initially();
                self.inner.lifecycle(
                    ctx,
                    &LifeCycle::WidgetAdded { initially_enabled: false },
                    data,
                    env,
                );
                return ;
            }
        }
        self.inner.lifecycle(ctx, event, data, env);
    }

    /// Re-evaluates the predicate, then always updates the child.
    fn update(&mut self, ctx: &mut UpdateCtx, old_data: &T, data: &T, env: &Env)
        ensures
            final(self).enabled_if == old(self).enabled_if,
            final(self).inner.state.explicitly_disabled == old(self).inner.inner.update_disabled(
                old(self).inner.state.explicitly_disabled,
                data.deep_view(),
                *env,
            ),
            final(self).inner.state.ancestor_disabled == old(self).inner.state.ancestor_disabled,
            final(self).inner.state.enabled() == old(self).inner.enabled_after_update(
                data.deep_view(),
                *env,
            ),
            final(self).inner.state.size == old(self).inner.state.size,
            final(self).inner.state.origin == old(self).inner.state.origin,
    {
        let enabled = self.enabled_if.eval(data, env);
        ctx.set_enabled(enabled);
        self.inner.update(ctx, old_data, data, env);
    }

    fn layout(&mut self, ctx: &mut LayoutCtx, bc: &BoxConstraints, data: &T, env: &Env) -> (r:
        Size)
        ensures
            final(self).enabled_if == old(self).enabled_if,
            final(self).inner.state.explicitly_disabled == old(self).inner.state.explicitly_disabled,
            final(self).inner.state.ancestor_disabled == old(self).inner.state.ancestor_disabled,
    {
        let size = self.inner.layout(ctx, bc, data, env);
        self.inner.set_origin(Point::zero());
        size
    }

    fn paint(&mut self, ctx: &mut PaintCtx, data: &T, env: &Env)
        ensures
            final(self).enabled_if == old(self).enabled_if,
            final(self).inner.state.enabled() == old(self).inner.state.enabled(),
            final(self).inner.state.size == old(self).inner.state.size,
            final(self).inner.state.origin == old(self).inner.state.origin,
    {
        self.inner.paint(ctx, data, env);
    }
}

/// Initial state: a decorated widget added under enabled ancestors is
/// enabled exactly when the predicate holds of the initial data.
pub proof fn lemma_enabled_if_initial<T: DeepView, W: Widget<T>, P: Predicate<T>>(
    pod: WidgetPod<T, EnabledIf<T, W, P>>,
    data: T::V,
    env: Env,
)
    ensures
        pod.enabled_after_added(true, data, env) == pod.inner.enabled_if.holds(data, env),
        !pod.enabled_after_added(false, data, env),
{
}

/// Reactive update: whatever the flag was before, the update pass with new
/// data leaves the decorated widget enabled exactly when the predicate holds
/// of that data (under enabled ancestors), with no pass of delay.
pub proof fn lemma_enabled_if_tracks_update<T: DeepView, W: Widget<T>, P: Predicate<T>>(
    pod: WidgetPod<T, EnabledIf<T, W, P>>,
    data: T::V,
    env: Env,
)
    ensures
        pod.enabled_after_update(data, env) == (!pod.state.ancestor_disabled
            && pod.inner.enabled_if.holds(data, env)),
{
}

/// Pass-through layout: once the decorator returned a size under `bc`, its
/// child has that very size and sits at the decorator's origin.
pub proof fn lemma_enabled_if_layout<T: DeepView, W: Widget<T>, P: Predicate<T>>(
    w: EnabledIf<T, W, P>,
    bc: BoxConstraints,
    size: Size,
)
    requires
        w.laid_out(bc, size),
    ensures
        w.inner.state.size == size,
        w.inner.state.origin == Point::zero_spec(),
{
}

} // verus!
