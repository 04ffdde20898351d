//! A row container: children laid out left to right, every pass handed to
//! them in the order they were added.
use crate::geometry::{BoxConstraints, Point, Size};
use crate::widget::{
    Env, Event, EventCtx, LayoutCtx, LifeCycle, LifeCycleCtx, PaintCommand, PaintCtx, UpdateCtx, Widget,
    WidgetPod,
};
use vstd::prelude::*;

verus! {

/// The x coordinate at which child `i` starts: the widths of the children
/// before it, added up.
pub open spec fn row_offset<T, W>(children: Seq<WidgetPod<T, W>>, i: int) -> int
    decreases i,
{
    if i <= 0 {
        0
    } else {
        row_offset(children, i - 1) + children[i - 1].state.size.width
    }
}

/// What the first `i` children paint, one after another.
pub open spec fn row_painted<T: DeepView, W: Widget<T>>(
    children: Seq<WidgetPod<T, W>>,
    i: int,
    origin: Point,
    disabled: bool,
    data: T::V,
) -> Seq<PaintCommand>
    decreases i,
{
    if i <= 0 {
        seq![]
    } else {
        row_painted(children, i - 1, origin, disabled, data) + children[i - 1].painted(
            origin,
            disabled,
            data,
        )
    }
}

/// The data after the first `i` children handled `event`, one after another.
pub open spec fn row_evented<T: DeepView, W: Widget<T>>(
    children: Seq<WidgetPod<T, W>>,
    i: int,
    event: Event,
    data: T::V,
) -> T::V
    decreases i,
{
    if i <= 0 {
        data
    } else {
        children[i - 1].evented(event, row_evented(children, i - 1, event, data))
    }
}

/// Whether one of the first `i` children marks `event` handled, each seeing
/// the data the ones before it left.
pub open spec fn row_handled<T: DeepView, W: Widget<T>>(
    children: Seq<WidgetPod<T, W>>,
    i: int,
    event: Event,
    data: T::V,
) -> bool
    decreases i,
{
    if i <= 0 {
        false
    } else {
        row_handled(children, i - 1, event, data) || children[i - 1].handles(
            event,
            row_evented(children, i - 1, event, data),
        )
    }
}

/// What a lifecycle notification leaves of a child's pod.
pub open spec fn child_after_lifecycle<T: DeepView, W: Widget<T>>(
    before: WidgetPod<T, W>,
    after: WidgetPod<T, W>,
    event: LifeCycle,
    data: T::V,
    env: Env,
) -> bool {
    match event {
        LifeCycle::WidgetAdded { initially_enabled } => {
            &&& after.state.added
            &&& after.state.explicitly_disabled == before.inner.birth_disabled(data, env)
            &&& after.state.ancestor_disabled == !initially_enabled
        },
        LifeCycle::DisabledChanged(d) => {
            &&& after.state.ancestor_disabled == d
            &&& after.state.explicitly_disabled == before.state.explicitly_disabled
            &&& after.state.added == before.state.added
        },
    }
}

/// What an update pass leaves of a child's pod.
pub open spec fn child_after_update<T: DeepView, W: Widget<T>>(
    before: WidgetPod<T, W>,
    after: WidgetPod<T, W>,
    data: T::V,
    env: Env,
) -> bool {
    &&& after.state.explicitly_disabled == before.inner.update_disabled(
        before.state.explicitly_disabled,
        data,
        env,
    )
    &&& after.state.ancestor_disabled == before.state.ancestor_disabled
    &&& after.state.enabled() == before.enabled_after_update(data, env)
}

/// Offsets grow along the row.
proof fn lemma_offset_mono<T, W>(s: Seq<WidgetPod<T, W>>, i: int, j: int)
    requires
        0 <= i <= j,
    ensures
        row_offset(s, i) <= row_offset(s, j),
    decreases j - i,
{
    if i < j {
        lemma_offset_mono(s, i, j - 1);
    }
}

/// The offset of child `i` depends on the children before it alone.
proof fn lemma_offset_prefix<T, W>(a: Seq<WidgetPod<T, W>>, b: Seq<WidgetPod<T, W>>, i: int)
    requires
        0 <= i <= a.len(),
        i <= b.len(),
        forall|j: int| 0 <= j < i ==> a[j].state.size == b[j].state.size,
    ensures
        row_offset(a, i) == row_offset(b, i),
    decreases i,
{
    if i > 0 {
        lemma_offset_prefix(a, b, i - 1);
    }
}

pub struct Row<T, W> {
    pub children: Vec<WidgetPod<T, W>>,
}

impl<T: DeepView, W: Widget<T>> Row<T, W> {
    pub fn new() -> (r: Self)
        ensures
            r.children@.len() == 0,
    {
        Row { children: Vec::new() }
    }

    /// Appends a child after the existing ones.
    pub fn with_child(self, child: W) -> (r: Self)
        ensures
            r.children@.len() == self.children@.len() + 1,
            forall|j: int| 0 <= j < self.children@.len() ==> r.children@[j] == self.children@[j],
            r.children@.last().inner == child,
            r.children@.last().state.enabled(),
    {
        let mut children = self.children;
        children.push(WidgetPod::new(child));
        Row { children }
    }

    pub fn len(&self) -> (r: usize)
        ensures
            r == self.children@.len(),
    {
        self.children.len()
    }
}

impl<T: DeepView, W: Widget<T>> Widget<T> for Row<T, W> {
    open spec fn birth_disabled(&self, data: T::V, env: Env) -> bool {
        false
    }

    open spec fn update_disabled(&self, was: bool, data: T::V, env: Env) -> bool {
        was
    }

    /// Children sit side by side in order, from the row's left edge, and
    /// all of them fit in the row's width.
    open spec fn laid_out(&self, bc: BoxConstraints, size: Size) -> bool {
        &&& forall|i: int|
            0 <= i < self.children@.len() ==> self.children@[i].state.origin.x == row_offset(
                self.children@,
                i,
            ) && self.children@[i].state.origin.y == 0
        &&& row_offset(self.children@, self.children@.len() as int) <= size.width
    }

    /// The children's commands, in the order the children were added.
    open spec fn painted(&self, origin: Point, disabled: bool, data: T::V) -> Seq<PaintCommand> {
        row_painted(self.children@, self.children@.len() as int, origin, disabled, data)
    }

    /// Each child, in order, handles the event on what the ones before it left.
    open spec fn evented(&self, event: Event, data: T::V) -> T::V {
        row_evented(self.children@, self.children@.len() as int, event, data)
    }

    open spec fn handles(&self, event: Event, data: T::V) -> bool {
        row_handled(self.children@, self.children@.len() as int, event, data)
    }

    fn event(&mut self, ctx: &mut EventCtx, event: &Event, data: &mut T, env: &Env)
        ensures
            final(self).children@.len() == old(self).children@.len(),
    {
        let ghost start = self.children@;
        let n = self.children.len();
        let mut i: usize = 0;
        while i < n
            invariant
                n == self.children@.len(),
                i <= n,
                data.deep_view() == row_evented(start, i as int, *event, old(data).deep_view()),
                ctx.handled == (old(ctx).handled || row_handled(
                    start,
                    i as int,
                    *event,
                    old(data).deep_view(),
                )),
                forall|j: int| i <= j < n ==> self.children@[j] == start[j],
            decreases n - i,
        {
            self.children[i].event(ctx, event, data, env);
            i += 1;
        }
    }

    /// Every child, in order, receives the notification.
    fn lifecycle(&mut self, ctx: &mut LifeCycleCtx, event: &LifeCycle, data: &T, env: &Env)
        ensures
            final(self).children@.len() == old(self).children@.len(),
            forall|i: int|
                0 <= i < old(self).children@.len() ==> child_after_lifecycle(
                    #[trigger] old(self).children@[i],
                    final(self).children@[i],
                    *event,
                    data.deep_view(),
                    *env,
                ),
    {
        let ghost start = self.children@;
        let n = self.children.len();
        let mut i: usize = 0;
        while i < n
            invariant
                n == self.children@.len(),
                n == start.len(),
                i <= n,
                ctx.disabled_initially == old(ctx).disabled_initially,
                forall|j: int|
                    0 <= j < i ==> child_after_lifecycle(
                        #[trigger] start[j],
                        self.children@[j],
                        *event,
                        data.deep_view(),
                        *env,
                    ),
                forall|j: int| i <= j < n ==> self.children@[j] == start[j],
            decreases n - i,
        {
            self.children[i].lifecycle(ctx, event, data, env);
            i += 1;
        }
    }

    /// Every child, in order, is updated.
    fn update(&mut self, ctx: &mut UpdateCtx, old_data: &T, data: &T, env: &Env)
        ensures
            final(self).children@.len() == old(self).children@.len(),
            forall|i: int|
                0 <= i < old(self).children@.len() ==> child_after_update(
                    #[trigger] old(self).children@[i],
                    final(self).children@[i],
                    data.deep_view(),
                    *env,
                ),
    {
        let ghost start = self.children@;
        let n = self.children.len();
        let mut i: usize = 0;
        while i < n
            invariant
                n == self.children@.len(),
                n == start.len(),
                i <= n,
                ctx.disabled == old(ctx).disabled,
                forall|j: int|
                    0 <= j < i ==> child_after_update(
                        #[trigger] start[j],
                        self.children@[j],
                        data.deep_view(),
                        *env,
                    ),
                forall|j: int| i <= j < n ==> self.children@[j] == start[j],
            decreases n - i,
        {
            self.children[i].update(ctx, old_data, data, env);
            i += 1;
        }
    }

    fn layout(&mut self, ctx: &mut LayoutCtx, bc: &BoxConstraints, data: &T, env: &Env) -> (r:
        Size)
        ensures
            final(self).children@.len() == old(self).children@.len(),
    {
        let n = self.children.len();
        let mut x: u32 = 0;
        let mut height: u32 = 0;
        let mut i: usize = 0;
        while i < n
            invariant
                bc.wf(),
                n == self.children@.len(),
                i <= n,
                x <= bc.max.width,
                height <= bc.max.height,
                x as int == row_offset(self.children@, i as int),
                forall|j: int|
                    0 <= j < i ==> self.children@[j].state.origin.x == row_offset(
                        self.children@,
                        j,
                    ) && self.children@[j].state.origin.y == 0,
            decreases n - i,
        {
            let ghost before = self.children@;
            let child_bc = BoxConstraints {
                min: Size { width: 0, height: 0 },
                max: Size { width: bc.max.width - x, height: bc.max.height },
            };
            let size = self.children[i].layout(ctx, &child_bc, data, env);
            self.children[i].set_origin(Point { x, y: 0 });
            proof {
                lemma_offset_prefix(before, self.children@, i as int);
                assert forall|j: int| 0 <= j < i implies row_offset(self.children@, j) == row_offset(
                    before,
                    j,
                ) && self.children@[j] == before[j] by {
                    lemma_offset_prefix(before, self.children@, j);
                }
                assert(row_offset(self.children@, i + 1) == row_offset(self.children@, i as int)
                    + size.width);
            }
            x = x + size.width;
            if size.height > height {
                height = size.height;
            }
            i += 1;
        }
        let r = bc.constrain(Size { width: x, height });
        assert(row_offset(self.children@, n as int) <= r.width);
        r
    }

    fn paint(&mut self, ctx: &mut PaintCtx, data: &T, env: &Env)
        ensures
            final(self).children@.len() == old(self).children@.len(),
    {
        let ghost start = self.children@;
        let n = self.children.len();
        let mut i: usize = 0;
        while i < n
            invariant
                n == self.children@.len(),
                i <= n,
                ctx.origin == old(ctx).origin,
                ctx.disabled == old(ctx).disabled,
                ctx.commands@ == old(ctx).commands@ + row_painted(
                    start,
                    i as int,
                    old(ctx).origin,
                    old(ctx).disabled,
                    data.deep_view(),
                ),
                forall|j: int| i <= j < n ==> self.children@[j] == start[j],
            decreases n - i,
        {
            let ghost before = ctx.commands@;
            self.children[i].paint(ctx, data, env);
            assert(ctx.commands@ =~= old(ctx).commands@ + row_painted(
                start,
                i + 1,
                old(ctx).origin,
                old(ctx).disabled,
                data.deep_view(),
            ));
            i += 1;
        }
    }
}

/// Composition order: after a layout pass, a child that comes earlier in the
/// row ends at or before the start of every child after it.
pub proof fn lemma_row_order<T: DeepView, W: Widget<T>>(
    row: Row<T, W>,
    bc: BoxConstraints,
    size: Size,
    i: int,
    j: int,
)
    requires
        row.laid_out(bc, size),
        0 <= i < j < row.children@.len(),
    ensures
        row.children@[i].state.origin.x + row.children@[i].state.size.width
            <= row.children@[j].state.origin.x,
{
    lemma_offset_mono(row.children@, i + 1, j);
    assert(row.children@[i].state.origin.x == row_offset(row.children@, i));
    assert(row.children@[j].state.origin.x == row_offset(row.children@, j));
    assert(row_offset(row.children@, i + 1) == row_offset(row.children@, i)
        + row.children@[i].state.size.width);
}

/// Composition order in painting: a row of two children paints everything
/// the first child paints, then everything the second one paints, whatever
/// the data.
pub proof fn lemma_row_paint_order<T: DeepView, W: Widget<T>>(
    row: Row<T, W>,
    origin: Point,
    disabled: bool,
    data: T::V,
)
    requires
        row.children@.len() == 2,
    ensures
        row.painted(origin, disabled, data) == row.children@[0].painted(origin, disabled, data)
            + row.children@[1].painted(origin, disabled, data),
{
    let c = row.children@;
    assert(row_painted(c, 0, origin, disabled, data) =~= Seq::<PaintCommand>::empty());
    assert(row_painted(c, 1, origin, disabled, data) =~= c[0].painted(origin, disabled, data));
    assert(row_painted(c, 2, origin, disabled, data) == row_painted(c, 1, origin, disabled, data)
        + c[1].painted(origin, disabled, data));
}

/// Composition order in event dispatch: in a row of two children the
/// second one handles the event on the data the first one left, whatever the
/// data.
pub proof fn lemma_row_event_order<T: DeepView, W: Widget<T>>(
    row: Row<T, W>,
    event: Event,
    data: T::V,
)
    requires
        row.children@.len() == 2,
    ensures
        row.evented(event, data) == row.children@[1].evented(
            event,
            row.children@[0].evented(event, data),
        ),
{
    let c = row.children@;
    assert(row_evented(c, 0, event, data) == data);
    assert(row_evented(c, 1, event, data) == c[0].evented(event, data));
}

} // verus!
