//! Lenses: a read-only projection from a whole value to one of its parts,
//! paired with a write-back that commits a new part into the whole.
use std::marker::PhantomData;
use std::sync::Arc;
use vstd::prelude::*;

verus! {

/// A projection of `W` onto a part `P`, modelled on the views of both.
///
/// `get_spec` is what a read sees, `put_spec` is the whole after a new part is
/// written, and `focused` says whether the part exists in the given whole.
/// Where it does not, a write leaves the whole unchanged.
pub trait Lens<W: DeepView, P: DeepView> {
    spec fn get_spec(&self, w: W::V) -> P::V;

    spec fn put_spec(&self, w: W::V, p: P::V) -> W::V;

    spec fn focused(&self, w: W::V) -> bool;

    /// Reads the focused part (or the lens's default where it is absent).
    fn get(&self, w: &W) -> (r: P)
        ensures
            r.deep_view() == self.get_spec(w.deep_view()),
    ;

    /// Writes `p` into the focused part of `w`.
    fn set(&self, w: &mut W, p: P)
        ensures
            final(w).deep_view() == self.put_spec(old(w).deep_view(), p.deep_view()),
    ;

    /// A part that was just written is read back.
    proof fn lemma_put_get(&self, w: W::V, p: P::V)
        requires
            self.focused(w),
        ensures
            self.get_spec(self.put_spec(w, p)) == p,
    ;

    /// Writing back what was read changes nothing.
    proof fn lemma_get_put(&self, w: W::V)
        ensures
            self.put_spec(w, self.get_spec(w)) == w,
    ;

    /// Where the focus is absent, a write changes nothing.
    proof fn lemma_absent(&self, w: W::V, p: P::V)
        requires
            !self.focused(w),
        ensures
            self.put_spec(w, p) == w,
    ;

    /// Writing never removes the focus.
    proof fn lemma_put_keeps_focus(&self, w: W::V, p: P::V)
        ensures
            self.focused(self.put_spec(w, p)) == self.focused(w),
    ;
}

/// The lens that focuses on the whole value.
#[derive(Clone, Copy)]
pub struct Id;

impl<T: DeepView + Copy> Lens<T, T> for Id {
    open spec fn get_spec(&self, w: T::V) -> T::V {
        w
    }

    open spec fn put_spec(&self, w: T::V, p: T::V) -> T::V {
        p
    }

    open spec fn focused(&self, w: T::V) -> bool {
        true
    }

    fn get(&self, w: &T) -> (r: T) {
        *w
    }

    fn set(&self, w: &mut T, p: T) {
        *w = p;
    }

    proof fn lemma_put_get(&self, w: T::V, p: T::V) {
    }

    proof fn lemma_get_put(&self, w: T::V) {
    }

    proof fn lemma_absent(&self, w: T::V, p: T::V) {
    }

    proof fn lemma_put_keeps_focus(&self, w: T::V, p: T::V) {
    }
}

/// Focuses on the first field of a pair.
#[derive(Clone, Copy)]
pub struct First;

impl<A: DeepView + Copy, B: DeepView> Lens<(A, B), A> for First {
    open spec fn get_spec(&self, w: (A::V, B::V)) -> A::V {
        w.0
    }

    open spec fn put_spec(&self, w: (A::V, B::V), p: A::V) -> (A::V, B::V) {
        (p, w.1)
    }

    open spec fn focused(&self, w: (A::V, B::V)) -> bool {
        true
    }

    fn get(&self, w: &(A, B)) -> (r: A) {
        w.0
    }

    fn set(&self, w: &mut (A, B), p: A) {
        w.0 = p;
    }

    proof fn lemma_put_get(&self, w: (A::V, B::V), p: A::V) {
    }

    proof fn lemma_get_put(&self, w: (A::V, B::V)) {
    }

    proof fn lemma_absent(&self, w: (A::V, B::V), p: A::V) {
    }

    proof fn lemma_put_keeps_focus(&self, w: (A::V, B::V), p: A::V) {
    }
}

/// Focuses on the second field of a pair.
#[derive(Clone, Copy)]
pub struct Second;

impl<A: DeepView, B: DeepView + Copy> Lens<(A, B), B> for Second {
    open spec fn get_spec(&self, w: (A::V, B::V)) -> B::V {
        w.1
    }

    open spec fn put_spec(&self, w: (A::V, B::V), p: B::V) -> (A::V, B::V) {
        (w.0, p)
    }

    open spec fn focused(&self, w: (A::V, B::V)) -> bool {
        true
    }

    fn get(&self, w: &(A, B)) -> (r: B) {
        w.1
    }

    fn set(&self, w: &mut (A, B), p: B) {
        w.1 = p;
    }

    proof fn lemma_put_get(&self, w: (A::V, B::V), p: B::V) {
    }

    proof fn lemma_get_put(&self, w: (A::V, B::V)) {
    }

    proof fn lemma_absent(&self, w: (A::V, B::V), p: B::V) {
    }

    proof fn lemma_put_keeps_focus(&self, w: (A::V, B::V), p: B::V) {
    }
}

/// Focuses on one element of a vector. Reading an index that is out of
/// bounds gives `default`; writing to one leaves the vector unchanged.
pub struct Index<T> {
    pub index: usize,
    pub default: T,
}

impl<T: DeepView + Copy> Index<T> {
    pub fn new(index: usize, default: T) -> (r: Self)
        ensures
            r.index == index,
            r.default == default,
    {
        Index { index, default }
    }
}

impl<T: DeepView + Copy> Lens<Vec<T>, T> for Index<T> {
    open spec fn get_spec(&self, w: Seq<T::V>) -> T::V {
        if self.index < w.len() {
            w[self.index as int]
        } else {
            self.default.deep_view()
        }
    }

    open spec fn put_spec(&self, w: Seq<T::V>, p: T::V) -> Seq<T::V> {
        if self.index < w.len() {
            w.update(self.index as int, p)
        } else {
            w
        }
    }

    open spec fn focused(&self, w: Seq<T::V>) -> bool {
        self.index < w.len()
    }

    fn get(&self, w: &Vec<T>) -> (r: T) {
        if self.index < w.len() {
            w[self.index]
        } else {
            self.default
        }
    }

    fn set(&self, w: &mut Vec<T>, p: T) {
        if self.index < w.len() {
            w.set(self.index, p);
            assert(final(w).deep_view() =~= self.put_spec(old(w).deep_view(), p.deep_view()));
        }
    }

    proof fn lemma_put_get(&self, w: Seq<T::V>, p: T::V) {
    }

    proof fn lemma_get_put(&self, w: Seq<T::V>) {
        if self.index < w.len() {
            assert(w.update(self.index as int, w[self.index as int]) =~= w);
        }
    }

    proof fn lemma_absent(&self, w: Seq<T::V>, p: T::V) {
    }

    proof fn lemma_put_keeps_focus(&self, w: Seq<T::V>, p: T::V) {
    }
}

/// Focuses on the value inside an `Option`. Reading `None` gives `default`;
/// writing to `None` leaves it `None`.
pub struct Unwrap<T> {
    pub default: T,
}

impl<T: DeepView + Copy> Unwrap<T> {
    pub fn new(default: T) -> (r: Self)
        ensures
            r.default == default,
    {
        Unwrap { default }
    }
}

impl<T: DeepView + Copy> Lens<Option<T>, T> for Unwrap<T> {
    open spec fn get_spec(&self, w: Option<T::V>) -> T::V {
        match w {
            Some(x) => x,
            None => self.default.deep_view(),
        }
    }

    open spec fn put_spec(&self, w: Option<T::V>, p: T::V) -> Option<T::V> {
        match w {
            Some(_) => Some(p),
            None => None,
        }
    }

    open spec fn focused(&self, w: Option<T::V>) -> bool {
        w is Some
    }

    fn get(&self, w: &Option<T>) -> (r: T) {
        match w {
            Some(x) => *x,
            None => self.default,
        }
    }

    fn set(&self, w: &mut Option<T>, p: T) {
        if w.is_some() {
            *w = Some(p);
        }
    }

    proof fn lemma_put_get(&self, w: Option<T::V>, p: T::V) {
    }

    proof fn lemma_get_put(&self, w: Option<T::V>) {
    }

    proof fn lemma_absent(&self, w: Option<T::V>, p: T::V) {
    }

    proof fn lemma_put_keeps_focus(&self, w: Option<T::V>, p: T::V) {
    }
}

/// Focuses through a box onto the value it owns.
#[derive(Clone, Copy)]
pub struct Deref;

impl<T: DeepView + Copy> Lens<Box<T>, T> for Deref {
    open spec fn get_spec(&self, w: T::V) -> T::V {
        w
    }

    open spec fn put_spec(&self, w: T::V, p: T::V) -> T::V {
        p
    }

    open spec fn focused(&self, w: T::V) -> bool {
        true
    }

    fn get(&self, w: &Box<T>) -> (r: T) {
        **w
    }

    fn set(&self, w: &mut Box<T>, p: T) {
        *w = Box::new(p);
    }

    proof fn lemma_put_get(&self, w: T::V, p: T::V) {
    }

    proof fn lemma_get_put(&self, w: T::V) {
    }

    proof fn lemma_absent(&self, w: T::V, p: T::V) {
    }

    proof fn lemma_put_keeps_focus(&self, w: T::V, p: T::V) {
    }
}

/// Focuses through a shared `Arc` onto the value it holds. A write gives this
/// holder a fresh allocation with the new value (copy on write); a read sees
/// the value shared at the time of the call.
#[derive(Clone, Copy)]
pub struct InArc;

impl<T: DeepView + Copy> Lens<Arc<T>, T> for InArc {
    open spec fn get_spec(&self, w: T::V) -> T::V {
        w
    }

    open spec fn put_spec(&self, w: T::V, p: T::V) -> T::V {
        p
    }

    open spec fn focused(&self, w: T::V) -> bool {
        true
    }

    fn get(&self, w: &Arc<T>) -> (r: T) {
        **w
    }

    fn set(&self, w: &mut Arc<T>, p: T) {
        *w = Arc::new(p);
    }

    proof fn lemma_put_get(&self, w: T::V, p: T::V) {
    }

    proof fn lemma_get_put(&self, w: T::V) {
    }

    proof fn lemma_absent(&self, w: T::V, p: T::V) {
    }

    proof fn lemma_put_keeps_focus(&self, w: T::V, p: T::V) {
    }
}

/// Applies `f` to the part that `l` focuses on and commits what it returns
/// into the whole. Where the focus is absent, `f` sees the lens's default and
/// the whole stays as it was.
pub fn with_mut<W: DeepView, P: DeepView, L: Lens<W, P>, F: FnOnce(P) -> P>(
    l: &L,
    w: &mut W,
    f: F,
)
    requires
        forall|p: P| f.requires((p,)),
    ensures
        exists|p: P, r: P|
            #![trigger f.ensures((p,), r)]
            p.deep_view() == l.get_spec(old(w).deep_view()) && f.ensures((p,), r)
                && final(w).deep_view() == l.put_spec(old(w).deep_view(), r.deep_view()),
{
    let part = l.get(w);
    let ghost seen = part;
    let next = f(part);
    let ghost made = next;
    l.set(w, next);
    assert(f.ensures((seen,), made));
}

/// Two lenses chained: `outer` focuses the whole onto an intermediate `M`,
/// then `inner` focuses that onto the part.
pub struct Then<A, B, M> {
    pub outer: A,
    pub inner: B,
    pub marker: PhantomData<M>,
}

impl<A, B, M> Then<A, B, M> {
    pub fn new(outer: A, inner: B) -> (r: Self)
        ensures
            r.outer == outer,
            r.inner == inner,
    {
        Then { outer, inner, marker: PhantomData }
    }
}

impl<W: DeepView, M: DeepView, P: DeepView, A: Lens<W, M>, B: Lens<M, P>> Lens<W, P> for Then<
    A,
    B,
    M,
> {
    open spec fn get_spec(&self, w: W::V) -> P::V {
        self.inner.get_spec(self.outer.get_spec(w))
    }

    open spec fn put_spec(&self, w: W::V, p: P::V) -> W::V {
        self.outer.put_spec(w, self.inner.put_spec(self.outer.get_spec(w), p))
    }

    open spec fn focused(&self, w: W::V) -> bool {
        self.outer.focused(w) && self.inner.focused(self.outer.get_spec(w))
    }

    fn get(&self, w: &W) -> (r: P) {
        let m = self.outer.get(w);
        self.inner.get(&m)
    }

    fn set(&self, w: &mut W, p: P) {
        let mut m = self.outer.get(w);
        self.inner.set(&mut m, p);
        self.outer.set(w, m);
    }

    proof fn lemma_put_get(&self, w: W::V, p: P::V) {
        let m = self.outer.get_spec(w);
        let m2 = self.inner.put_spec(m, p);
        self.outer.lemma_put_get(w, m2);
        self.inner.lemma_put_get(m, p);
    }

    proof fn lemma_get_put(&self, w: W::V) {
        let m = self.outer.get_spec(w);
        self.inner.lemma_get_put(m);
        self.outer.lemma_get_put(w);
    }

    proof fn lemma_absent(&self, w: W::V, p: P::V) {
        let m = self.outer.get_spec(w);
        if self.outer.focused(w) {
            self.inner.lemma_absent(m, p);
            self.outer.lemma_get_put(w);
        } else {
            self.outer.lemma_absent(w, self.inner.put_spec(m, p));
        }
    }

    proof fn lemma_put_keeps_focus(&self, w: W::V, p: P::V) {
        let m = self.outer.get_spec(w);
        let m2 = self.inner.put_spec(m, p);
        self.outer.lemma_put_keeps_focus(w, m2);
        if self.outer.focused(w) {
            self.outer.lemma_put_get(w, m2);
            self.inner.lemma_put_keeps_focus(m, p);
        }
    }
}

/// Composition: reading through two chained lenses is reading through the
/// outer lens and then through the inner one, for every whole value.
pub proof fn lemma_then_get<W: DeepView, M: DeepView, P: DeepView, A: Lens<W, M>, B: Lens<M, P>>(
    l: Then<A, B, M>,
    w: W::V,
)
    ensures
        l.get_spec(w) == l.inner.get_spec(l.outer.get_spec(w)),
{
}

/// Chaining is associative: `(a then b) then c` and `a then (b then c)` read
/// the same part and write the same whole.
pub proof fn lemma_then_assoc<
    W: DeepView,
    M: DeepView,
    N: DeepView,
    P: DeepView,
    A: Lens<W, M>,
    B: Lens<M, N>,
    C: Lens<N, P>,
>(left: Then<Then<A, B, M>, C, N>, right: Then<A, Then<B, C, N>, M>, w: W::V, p: P::V)
    requires
        left.outer.outer == right.outer,
        left.outer.inner == right.inner.outer,
        left.inner == right.inner.inner,
    ensures
        left.get_spec(w) == right.get_spec(w),
        left.put_spec(w, p) == right.put_spec(w, p),
        left.focused(w) == right.focused(w),
{
}

/// Mutate, then read: where the focus exists, a part that was written is
/// the part that is read back.
pub proof fn lemma_set_then_get<W: DeepView, P: DeepView, L: Lens<W, P>>(l: L, w: W::V, v: P::V)
    requires
        l.focused(w),
    ensures
        l.get_spec(l.put_spec(w, v)) == v,
{
    l.lemma_put_get(w, v);
}

/// A write of what was just read leaves the whole as it was.
pub proof fn lemma_noop_write<W: DeepView, P: DeepView, L: Lens<W, P>>(l: L, w: W::V)
    ensures
        l.put_spec(w, l.get_spec(w)) == w,
        l.get_spec(l.put_spec(w, l.get_spec(w))) == l.get_spec(w),
{
    l.lemma_get_put(w);
}

/// An index lens past the end of the vector: a write is a no-op and a read
/// gives the lens's default, for every such index.
pub proof fn lemma_index_out_of_bounds<T: DeepView + Copy>(l: Index<T>, w: Seq<T::V>, v: T::V)
    requires
        l.index >= w.len(),
    ensures
        l.put_spec(w, v) == w,
        l.get_spec(w) == l.default.deep_view(),
        !l.focused(w),
{
}

} // verus!
