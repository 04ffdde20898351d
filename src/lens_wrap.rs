//! Embeds a widget that works on a part of the data into a parent that works
//! on the whole, by routing each pass through a lens.
use crate::geometry::{BoxConstraints, Point, Size};
use crate::lens::Lens;
use crate::widget::{
    Env, Event, EventCtx, LayoutCtx, LifeCycle, LifeCycleCtx, PaintCommand, PaintCtx, UpdateCtx, Widget,
};
use std::marker::PhantomData;
use vstd::prelude::*;

verus! {

/// A widget on `U` seen as a widget on the whole that `lens` focuses onto `U`.
pub struct LensWrap<U, W, L> {
    pub inner: W,
    pub lens: L,
    pub marker: PhantomData<U>,
}

impl<U, W, L> LensWrap<U, W, L> {
    pub fn new(inner: W, lens: L) -> (r: Self)
        ensures
            r.inner == inner,
            r.lens == lens,
    {
        LensWrap { inner, lens, marker: PhantomData }
    }
}

impl<U: DeepView, W: Widget<U>, L> LensWrap<U, W, L> {
    /// Runs the event pass on the focused part and commits the part back.
    /// The whole changes only through the lens: what the child made of the
    /// part is written into the whole as it was before.
    pub fn event_through<T: DeepView>(
        &mut self,
        ctx: &mut EventCtx,
        event: &Event,
        data: &mut T,
        env: &Env,
    ) where L: Lens<T, U>
        ensures
            final(self).lens == old(self).lens,
            final(ctx).handled == (old(ctx).handled || old(self).inner.handles(
                *event,
                old(self).lens.get_spec(old(data).deep_view()),
            )),
            final(data).deep_view() == old(self).lens.put_spec(
                old(data).deep_view(),
                old(self).inner.evented(*event, old(self).lens.get_spec(old(data).deep_view())),
            ),
    {
        let mut part = self.lens.get(data);
        self.inner.event(ctx, event, &mut part, env);
        self.lens.set(data, part);
    }
}

impl<T: DeepView, U: DeepView, W: Widget<U>, L: Lens<T, U>> Widget<T> for LensWrap<U, W, L> {
    open spec fn birth_disabled(&self, data: T::V, env: Env) -> bool {
        self.inner.birth_disabled(self.lens.get_spec(data), env)
    }

    open spec fn update_disabled(&self, was: bool, data: T::V, env: Env) -> bool {
        self.inner.update_disabled(was, self.lens.get_spec(data), env)
    }

    open spec fn laid_out(&self, bc: BoxConstraints, size: Size) -> bool {
        self.inner.laid_out(bc, size)
    }

    open spec fn painted(&self, origin: Point, disabled: bool, data: T::V) -> Seq<PaintCommand> {
        self.inner.painted(origin, disabled, self.lens.get_spec(data))
    }

    open spec fn evented(&self, event: Event, data: T::V) -> T::V {
        self.lens.put_spec(data, self.inner.evented(event, self.lens.get_spec(data)))
    }

    open spec fn handles(&self, event: Event, data: T::V) -> bool {
        self.inner.handles(event, self.lens.get_spec(data))
    }

    fn event(&mut self, ctx: &mut EventCtx, event: &Event, data: &mut T, env: &Env) {
        self.event_through(ctx, event, data, env);
    }

    fn lifecycle(&mut self, ctx: &mut LifeCycleCtx, event: &LifeCycle, data: &T, env: &Env) {
        let part = self.lens.get(data);
        self.inner.lifecycle(ctx, event, &part, env);
    }

    fn update(&mut self, ctx: &mut UpdateCtx, old_data: &T, data: &T, env: &Env) {
        let old_part = self.lens.get(old_data);
        let part = self.lens.get(data);
        self.inner.update(ctx, &old_part, &part, env);
    }

    fn layout(&mut self, ctx: &mut LayoutCtx, bc: &BoxConstraints, data: &T, env: &Env) -> (r:
        Size) {
        let part = self.lens.get(data);
        self.inner.layout(ctx, bc, &part, env)
    }

    fn paint(&mut self, ctx: &mut PaintCtx, data: &T, env: &Env) {
        let part = self.lens.get(data);
        self.inner.paint(ctx, &part, env);
    }
}

} // verus!
