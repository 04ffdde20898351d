//! The widget protocol: events, lifecycle notifications, data updates,
//! layout and paint, each handed down the tree through a `WidgetPod`.
use crate::geometry::{BoxConstraints, Point, Size};
use std::marker::PhantomData;
use vstd::prelude::*;

verus! {

/// Read-only configuration handed through every pass.
#[derive(Clone, Copy, PartialEq, Eq, Structural, Debug)]
pub struct Env {
    pub theme: u64,
}

impl Env {
    pub fn new(theme: u64) -> (r: Env)
        ensures
            r.theme == theme,
    {
        Env { theme }
    }
}

/// An input or command event. Pointer events carry a position relative to the
/// widget that receives them.
#[derive(Clone, Copy, PartialEq, Eq, Structural, Debug)]
pub enum Event {
    MouseDown(Point),
    MouseUp(Point),
    Command(u64),
}

impl Event {
    pub open spec fn is_pointer_spec(&self) -> bool {
        self is MouseDown || self is MouseUp
    }

    /// Pointer events are the ones that a disabled subtree does not receive.
    pub fn is_pointer(&self) -> (r: bool)
        ensures
            r == self.is_pointer_spec(),
    {
        match self {
            Event::MouseDown(_) | Event::MouseUp(_) => true,
            Event::Command(_) => false,
        }
    }
}

/// Structural notifications.
#[derive(Clone, Copy, PartialEq, Eq, Structural, Debug)]
pub enum LifeCycle {
    /// The widget has just joined the tree; `initially_enabled` is false when
    /// some ancestor is disabled.
    WidgetAdded { initially_enabled: bool },
    /// The effective disabled state of the ancestors changed to the value given.
    DisabledChanged(bool),
}

#[derive(Clone, Copy, PartialEq, Eq, Structural, Debug)]
pub struct EventCtx {
    pub handled: bool,
    pub request_paint: bool,
    pub request_layout: bool,
}

impl EventCtx {
    pub fn new() -> (r: EventCtx)
        ensures
            !r.handled && !r.request_paint && !r.request_layout,
    {
        EventCtx { handled: false, request_paint: false, request_layout: false }
    }

    pub fn set_handled(&mut self)
        ensures
            *final(self) == (EventCtx { handled: true, ..*old(self) }),
    {
        self.handled = true;
    }

    pub fn request_paint(&mut self)
        ensures
            *final(self) == (EventCtx { request_paint: true, ..*old(self) }),
    {
        self.request_paint = true;
    }
}

#[derive(Clone, Copy, PartialEq, Eq, Structural, Debug)]
pub struct LifeCycleCtx {
    pub disabled_initially: bool,
    pub request_layout: bool,
}

impl LifeCycleCtx {
    pub fn new() -> (r: LifeCycleCtx)
        ensures
            !r.disabled_initially && !r.request_layout,
    {
        LifeCycleCtx { disabled_initially: false, request_layout: false }
    }

    /// Marks the widget that owns this context disabled from the moment it is
    /// added.
    pub fn set_disabled_initially(&mut self)
        ensures
            *final(self) == (LifeCycleCtx { disabled_initially: true, ..*old(self) }),
    {
        self.disabled_initially = true;
    }
}

#[derive(Clone, Copy, PartialEq, Eq, Structural, Debug)]
pub struct UpdateCtx {
    /// Whether the widget that owns this context is explicitly disabled.
    pub disabled: bool,
    pub request_paint: bool,
    pub request_layout: bool,
}

impl UpdateCtx {
    pub fn new(disabled: bool) -> (r: UpdateCtx)
        ensures
            r.disabled == disabled && !r.request_paint && !r.request_layout,
    {
        UpdateCtx { disabled, request_paint: false, request_layout: false }
    }

    pub fn set_enabled(&mut self, enabled: bool)
        ensures
            *final(self) == (UpdateCtx { disabled: !enabled, ..*old(self) }),
    {
        self.disabled = !enabled;
    }

    pub fn request_paint(&mut self)
        ensures
            *final(self) == (UpdateCtx { request_paint: true, ..*old(self) }),
    {
        self.request_paint = true;
    }
}

#[derive(Clone, Copy, PartialEq, Eq, Structural, Debug)]
pub struct LayoutCtx {
    pub request_paint: bool,
}

impl LayoutCtx {
    pub fn new() -> (r: LayoutCtx)
        ensures
            !r.request_paint,
    {
        LayoutCtx { request_paint: false }
    }
}

/// One drawing command: a rectangle in window coordinates, with the widget's
/// tag and whether it was drawn in the disabled style.
#[derive(Clone, Copy, PartialEq, Eq, Structural, Debug)]
pub struct PaintCommand {
    pub origin: Point,
    pub size: Size,
    pub tag: u64,
    pub disabled: bool,
}

pub struct PaintCtx {
    /// Where the widget being painted sits in window coordinates.
    pub origin: Point,
    /// Whether the widget being painted, or one of its ancestors, is disabled.
    pub disabled: bool,
    pub commands: Vec<PaintCommand>,
}

impl PaintCtx {
    pub fn new() -> (r: PaintCtx)
        ensures
            r.origin == Point::zero_spec(),
            !r.disabled,
            r.commands@.len() == 0,
    {
        PaintCtx { origin: Point::zero(), disabled: false, commands: Vec::new() }
    }

    /// Records a rectangle of `size` at the current origin.
    pub fn fill(&mut self, size: Size, tag: u64)
        ensures
            final(self).origin == old(self).origin,
            final(self).disabled == old(self).disabled,
            final(self).commands@ == old(self).commands@.push(
                PaintCommand { origin: old(self).origin, size, tag, disabled: old(self).disabled },
            ),
    {
        self.commands.push(PaintCommand { origin: self.origin, size, tag, disabled: self.disabled });
    }
}

/// The four passes every widget answers. `T` is the data the widget works on.
///
/// `birth_disabled` tells whether the widget disables itself when added with
/// the given data; `update_disabled` is the explicit disabled flag that an
/// update leaves, given the flag before it; `laid_out` is what a layout pass
/// guarantees of the widget's own children once it returned a size;
/// `evented` is the data after the widget handled an event, and `handles`
/// whether it marks that event handled;
/// `painted` is the list of commands a paint pass appends when the widget
/// sits at `origin` in window coordinates.
pub trait Widget<T: DeepView> {
    spec fn birth_disabled(&self, data: T::V, env: Env) -> bool;

    spec fn update_disabled(&self, was: bool, data: T::V, env: Env) -> bool;

    spec fn laid_out(&self, bc: BoxConstraints, size: Size) -> bool;

    spec fn painted(&self, origin: Point, disabled: bool, data: T::V) -> Seq<PaintCommand>;

    spec fn evented(&self, event: Event, data: T::V) -> T::V;

    spec fn handles(&self, event: Event, data: T::V) -> bool;

    fn event(&mut self, ctx: &mut EventCtx, event: &Event, data: &mut T, env: &Env)
        ensures
            final(data).deep_view() == old(self).evented(*event, old(data).deep_view()),
            final(ctx).handled == (old(ctx).handled || old(self).handles(
                *event,
                old(data).deep_view(),
            )),
    ;

    fn lifecycle(&mut self, ctx: &mut LifeCycleCtx, event: &LifeCycle, data: &T, env: &Env)
        ensures
            final(ctx).disabled_initially == (old(ctx).disabled_initially || (event is WidgetAdded
                && old(self).birth_disabled(data.deep_view(), *env))),
    ;

    fn update(&mut self, ctx: &mut UpdateCtx, old_data: &T, data: &T, env: &Env)
        ensures
            final(ctx).disabled == old(self).update_disabled(
                old(ctx).disabled,
                data.deep_view(),
                *env,
            ),
    ;

    fn layout(&mut self, ctx: &mut LayoutCtx, bc: &BoxConstraints, data: &T, env: &Env) -> (r:
        Size)
        requires
            bc.wf(),
        ensures
            bc.contains(r),
            final(self).laid_out(*bc, r),
    ;

    fn paint(&mut self, ctx: &mut PaintCtx, data: &T, env: &Env)
        ensures
            final(ctx).origin == old(ctx).origin,
            final(ctx).disabled == old(ctx).disabled,
            final(ctx).commands@ == old(ctx).commands@ + old(self).painted(
                old(ctx).origin,
                old(ctx).disabled,
                data.deep_view(),
            ),
    ;
}

/// What a pod tracks of its child: where it sits, how large it is, and
/// whether it or an ancestor disabled it.
#[derive(Clone, Copy, PartialEq, Eq, Structural, Debug)]
pub struct WidgetState {
    pub size: Size,
    pub origin: Point,
    pub explicitly_disabled: bool,
    pub ancestor_disabled: bool,
    pub added: bool,
    pub needs_layout: bool,
    pub needs_paint: bool,
}

impl WidgetState {
    pub open spec fn enabled(&self) -> bool {
        !self.explicitly_disabled && !self.ancestor_disabled
    }

    /// Whether `p`, in the parent's coordinates, falls inside this widget.
    pub open spec fn hit(&self, p: Point) -> bool {
        self.origin.x <= p.x && p.x - self.origin.x < self.size.width && self.origin.y <= p.y
            && p.y - self.origin.y < self.size.height
    }
}

/// The sole owner of one child widget, with the state the tree tracks of it.
pub struct WidgetPod<T, W> {
    pub state: WidgetState,
    pub inner: W,
    pub marker: PhantomData<T>,
}

impl<T: DeepView, W: Widget<T>> WidgetPod<T, W> {
    /// The enabled flag a `WidgetAdded { initially_enabled }` pass leaves.
    pub open spec fn enabled_after_added(&self, initially_enabled: bool, data: T::V, env: Env) -> bool {
        initially_enabled && !self.inner.birth_disabled(data, env)
    }

    /// The enabled flag an update pass with `data` leaves.
    pub open spec fn enabled_after_update(&self, data: T::V, env: Env) -> bool {
        !self.state.ancestor_disabled && !self.inner.update_disabled(
            self.state.explicitly_disabled,
            data,
            env,
        )
    }

    /// What painting the child appends, for a parent at `origin`: the child
    /// is drawn at its own origin, and in the disabled style where it or an
    /// ancestor is disabled.
    pub open spec fn painted(&self, origin: Point, disabled: bool, data: T::V) -> Seq<PaintCommand> {
        self.inner.painted(
            Point {
                x: origin.x.saturating_add(self.state.origin.x),
                y: origin.y.saturating_add(self.state.origin.y),
            },
            disabled || !self.state.enabled(),
            data,
        )
    }

    /// Whether the pod drops `event` instead of handing it to its child.
    pub open spec fn blocks(&self, event: Event) -> bool {
        match event {
            Event::MouseDown(p) => !self.state.enabled() || !self.state.hit(p),
            Event::MouseUp(p) => !self.state.enabled() || !self.state.hit(p),
            Event::Command(_) => false,
        }
    }

    /// `event` in the child's coordinates.
    pub open spec fn to_child(&self, event: Event) -> Event {
        match event {
            Event::MouseDown(p) => Event::MouseDown(
                Point { x: (p.x - self.state.origin.x) as u32, y: (p.y - self.state.origin.y) as u32 },
            ),
            Event::MouseUp(p) => Event::MouseUp(
                Point { x: (p.x - self.state.origin.x) as u32, y: (p.y - self.state.origin.y) as u32 },
            ),
            Event::Command(c) => Event::Command(c),
        }
    }

    /// The data after the pod handled `event`: untouched where the pod drops
    /// it, else what the child makes of it in its own coordinates.
    pub open spec fn evented(&self, event: Event, data: T::V) -> T::V {
        if self.blocks(event) {
            data
        } else {
            self.inner.evented(self.to_child(event), data)
        }
    }

    /// Whether the child marks `event` handled.
    pub open spec fn handles(&self, event: Event, data: T::V) -> bool {
        !self.blocks(event) && self.inner.handles(self.to_child(event), data)
    }

    pub fn new(inner: W) -> (r: Self)
        ensures
            r.inner == inner,
            r.state.size == Size::new_spec(0, 0),
            r.state.origin == Point::zero_spec(),
            r.state.enabled(),
            !r.state.added,
            r.state.needs_layout,
            r.state.needs_paint,
    {
        WidgetPod {
            state: WidgetState {
                size: Size { width: 0, height: 0 },
                origin: Point { x: 0, y: 0 },
                explicitly_disabled: false,
                ancestor_disabled: false,
                added: false,
                needs_layout: true,
                needs_paint: true,
            },
            inner,
            marker: PhantomData,
        }
    }

    pub fn is_enabled(&self) -> (r: bool)
        ensures
            r == self.state.enabled(),
    {
        !self.state.explicitly_disabled && !self.state.ancestor_disabled
    }

    pub fn size(&self) -> (r: Size)
        ensures
            r == self.state.size,
    {
        self.state.size
    }

    pub fn origin(&self) -> (r: Point)
        ensures
            r == self.state.origin,
    {
        self.state.origin
    }

    /// Places the child at `origin` in the parent's coordinates.
    pub fn set_origin(&mut self, origin: Point)
        ensures
            final(self).state == (WidgetState { origin, ..old(self).state }),
            final(self).inner == old(self).inner,
    {
        self.state.origin = origin;
    }

    fn hit_test(&self, p: Point) -> (r: bool)
        ensures
            r == self.state.hit(p),
    {
        self.state.origin.x <= p.x && p.x - self.state.origin.x < self.state.size.width
            && self.state.origin.y <= p.y && p.y - self.state.origin.y < self.state.size.height
    }

    /// Hands `event` to the child, in the child's coordinates. A pointer event
    /// outside the child, or any pointer event while the child is disabled,
    /// stops here and leaves the data untouched.
    pub fn event(&mut self, ctx: &mut EventCtx, event: &Event, data: &mut T, env: &Env)
        ensures
            final(data).deep_view() == old(self).evented(*event, old(data).deep_view()),
            final(ctx).handled == (old(ctx).handled || old(self).handles(
                *event,
                old(data).deep_view(),
            )),
            old(self).blocks(*event) ==> *final(data) == *old(data) && *final(self) == *old(
                self,
            ) && *final(ctx) == *old(ctx),
            final(self).state.explicitly_disabled == old(self).state.explicitly_disabled,
            final(self).state.ancestor_disabled == old(self).state.ancestor_disabled,
            final(self).state.size == old(self).state.size,
            final(self).state.origin == old(self).state.origin,
    {
        let child_event = match event {
            Event::MouseDown(p) => {
                if !self.is_enabled() || !self.hit_test(*p) {
                    return ;
                }
                Event::MouseDown(Point { x: p.x - self.state.origin.x, y: p.y - self.state.origin.y })
            },
            Event::MouseUp(p) => {
                if !self.is_enabled() || !self.hit_test(*p) {
                    return ;
                }
                Event::MouseUp(Point { x: p.x - self.state.origin.x, y: p.y - self.state.origin.y })
            },
            Event::Command(c) => Event::Command(*c),
        };
        let mut child_ctx = EventCtx::new();
        self.inner.event(&mut child_ctx, &child_event, data, env);
        if child_ctx.handled {
            ctx.handled = true;
        }
        if child_ctx.request_paint {
            self.state.needs_paint = true;
            ctx.request_paint = true;
        }
        if child_ctx.request_layout {
            self.state.needs_layout = true;
            ctx.request_layout = true;
        }
    }

    /// Hands a lifecycle notification to the child and records what it
    /// decided. On `WidgetAdded` the child's disabled-at-birth decision and
    /// the ancestors' state fix the pod's enabled flag; on `DisabledChanged`
    /// the ancestors' state is recorded and passed on only where the pod's
    /// own effective state changed.
    pub fn lifecycle(&mut self, ctx: &mut LifeCycleCtx, event: &LifeCycle, data: &T, env: &Env)
        ensures
            final(ctx).disabled_initially == old(ctx).disabled_initially,
            match *event {
                LifeCycle::WidgetAdded { initially_enabled } => {
                    &&& final(self).state.explicitly_disabled == old(self).inner.birth_disabled(
                        data.deep_view(),
                        *env,
                    )
                    &&& final(self).state.ancestor_disabled == !initially_enabled
                    &&& final(self).state.added
                    &&& final(self).state.enabled() == old(self).enabled_after_added(
                        initially_enabled,
                        data.deep_view(),
                        *env,
                    )
                },
                LifeCycle::DisabledChanged(d) => {
                    &&& final(self).state.explicitly_disabled == old(self).state.explicitly_disabled
                    &&& final(self).state.ancestor_disabled == d
                    &&& final(self).state.added == old(self).state.added
                },
            },
            final(self).state.size == old(self).state.size,
            final(self).state.origin == old(self).state.origin,
    {
        match event {
            LifeCycle::WidgetAdded { initially_enabled } => {
                let mut child_ctx = LifeCycleCtx::new();
                self.inner.lifecycle(&mut child_ctx, event, data, env);
                self.state.explicitly_disabled = child_ctx.disabled_initially;
                self.state.ancestor_disabled = !*initially_enabled;
                self.state.added = true;
                self.state.needs_layout = true;
                ctx.request_layout = true;
            },
            LifeCycle::DisabledChanged(d) => {
                let was_enabled = self.is_enabled();
                self.state.ancestor_disabled = *d;
                let now_enabled = self.is_enabled();
                if was_enabled != now_enabled {
                    let mut child_ctx = LifeCycleCtx::new();
                    self.inner.lifecycle(
                        &mut child_ctx,
                        &LifeCycle::DisabledChanged(!now_enabled),
                        data,
                        env,
                    );
                    self.state.needs_paint = true;
                }
            },
        }
    }

    /// Hands an update to the child. The child's answer becomes the pod's
    /// explicit disabled flag; where that changes the effective state, the
    /// child's subtree is told at once.
    pub fn update(&mut self, ctx: &mut UpdateCtx, old_data: &T, data: &T, env: &Env)
        ensures
            final(self).state.explicitly_disabled == old(self).inner.update_disabled(
                old(self).state.explicitly_disabled,
                data.deep_view(),
                *env,
            ),
            final(self).state.ancestor_disabled == old(self).state.ancestor_disabled,
            final(self).state.enabled() == old(self).enabled_after_update(data.deep_view(), *env),
            final(self).state.size == old(self).state.size,
            final(self).state.origin == old(self).state.origin,
            final(ctx).disabled == old(ctx).disabled,
    {
        let was_enabled = self.is_enabled();
        let mut child_ctx = UpdateCtx::new(self.state.explicitly_disabled);
        self.inner.update(&mut child_ctx, old_data, data, env);
        self.state.explicitly_disabled = child_ctx.disabled;
        if child_ctx.request_paint {
            self.state.needs_paint = true;
            ctx.request_paint = true;
        }
        if child_ctx.request_layout {
            self.state.needs_layout = true;
            ctx.request_layout = true;
        }
        let now_enabled = self.is_enabled();
        if was_enabled != now_enabled {
            let mut lc = LifeCycleCtx::new();
            self.inner.lifecycle(&mut lc, &LifeCycle::DisabledChanged(!now_enabled), data, env);
            self.state.needs_paint = true;
            ctx.request_paint = true;
        }
    }

    /// Lays the child out under `bc` and records the size it chose.
    pub fn layout(&mut self, ctx: &mut LayoutCtx, bc: &BoxConstraints, data: &T, env: &Env) -> (r:
        Size)
        requires
            bc.wf(),
        ensures
            bc.contains(r),
            final(self).state.size == r,
            final(self).state.origin == old(self).state.origin,
            final(self).state.explicitly_disabled == old(self).state.explicitly_disabled,
            final(self).state.ancestor_disabled == old(self).state.ancestor_disabled,
            !final(self).state.needs_layout,
            final(self).inner.laid_out(*bc, r),
    {
        let size = self.inner.layout(ctx, bc, data, env);
        self.state.size = size;
        self.state.needs_layout = false;
        self.state.needs_paint = true;
        size
    }

    /// Paints the child at its origin, in the disabled style where it or an
    /// ancestor is disabled.
    pub fn paint(&mut self, ctx: &mut PaintCtx, data: &T, env: &Env)
        ensures
            final(ctx).origin == old(ctx).origin,
            final(ctx).disabled == old(ctx).disabled,
            final(ctx).commands@ == old(ctx).commands@ + old(self).painted(
                old(ctx).origin,
                old(ctx).disabled,
                data.deep_view(),
            ),
            final(self).state.size == old(self).state.size,
            final(self).state.origin == old(self).state.origin,
            final(self).state.enabled() == old(self).state.enabled(),
    {
        let saved_origin = ctx.origin;
        let saved_disabled = ctx.disabled;
        ctx.origin = Point {
            x: saved_origin.x.saturating_add(self.state.origin.x),
            y: saved_origin.y.saturating_add(self.state.origin.y),
        };
        ctx.disabled = saved_disabled || !self.is_enabled();
        self.inner.paint(ctx, data, env);
        ctx.origin = saved_origin;
        ctx.disabled = saved_disabled;
        self.state.needs_paint = false;
    }
}

} // verus!
