use std::collections::HashSet;
use vstd::prelude::*;

verus! {

/// Identifier of a pointer (mouse, pen or touch contact) as reported by the browser.
#[derive(Clone, Copy, PartialEq, Eq, Structural, PartialOrd, Ord, Hash, Debug)]
pub struct PointerID(pub i32);

/// A finite set of pointers, kept as a hash set of their ids.
#[derive(Debug)]
pub struct PointerSet {
    ids: HashSet<i32>,
}

/// The pointer with id `i`.
pub open spec fn pointer_of(i: i32) -> PointerID {
    PointerID(i)
}

impl View for PointerSet {
    type V = Set<PointerID>;

    closed spec fn view(&self) -> Set<PointerID> {
        self.ids@.map(|i: i32| pointer_of(i))
    }
}

impl PointerSet {
    /// Well-formedness: the set is finite.
    pub closed spec fn wf(&self) -> bool {
        self.ids@.finite()
    }

    proof fn lemma_view_contains(&self, p: PointerID)
        ensures
            self@.contains(p) <==> self.ids@.contains(p.0),
    {
        if self.ids@.contains(p.0) {
            assert(pointer_of(p.0) == p);
        }
    }

    proof fn lemma_view_len(&self)
        requires
            self.wf(),
        ensures
            self@.finite(),
            self@.len() == self.ids@.len(),
    {
        let f = |i: i32| pointer_of(i);
        assert(vstd::relations::injective_on(f, self.ids@));
        vstd::set_lib::lemma_map_size(self.ids@, self@, f);
    }

    pub proof fn lemma_finite(&self)
        requires
            self.wf(),
        ensures
            self@.finite(),
    {
        self.lemma_view_len();
    }

    /// The empty set.
    pub fn new() -> (s: Self)
        ensures
            s.wf(),
            s@ == Set::<PointerID>::empty(),
    {
        let s = PointerSet { ids: HashSet::new() };
        assert(s@ =~= Set::<PointerID>::empty());
        s
    }

    /// Number of pointers in the set.
    pub fn len(&self) -> (n: usize)
        requires
            self.wf(),
        ensures
            n == self@.len(),
    {
        broadcast use vstd::std_specs::hash::group_hash_axioms;
        proof {
            self.lemma_view_len();
        }
        self.ids.len()
    }

    /// Whether the set holds no pointer.
    pub fn is_empty(&self) -> (b: bool)
        requires
            self.wf(),
        ensures
            b == (self@ =~= Set::<PointerID>::empty()),
    {
        let b = self.ids.is_empty();
        proof {
            if !b {
                let i = self.ids@.choose();
                assert(self.ids@.contains(i));
                self.lemma_view_contains(pointer_of(i));
                assert(self@.contains(pointer_of(i)));
            } else {
                assert forall|p: PointerID| !self@.contains(p) by {
                    self.lemma_view_contains(p);
                }
            }
        }
        b
    }

    /// Whether `p` is in the set.
    pub fn contains(&self, p: PointerID) -> (b: bool)
        ensures
            b == self@.contains(p),
    {
        broadcast use vstd::std_specs::hash::group_hash_axioms;
        proof {
            self.lemma_view_contains(p);
        }
        self.ids.contains(&p.0)
    }

    /// Adds `p` to the set.
    pub fn insert(&mut self, p: PointerID)
        requires
            old(self).wf(),
        ensures
            final(self).wf(),
            final(self)@ == old(self)@.insert(p),
    {
        broadcast use vstd::std_specs::hash::group_hash_axioms;
        self.ids.insert(p.0);
        proof {
            assert forall|x: PointerID| self@.contains(x) <==> old(self)@.insert(p).contains(x) by {
                self.lemma_view_contains(x);
                old(self).lemma_view_contains(x);
            }
            assert(self@ =~= old(self)@.insert(p));
        }
    }

    /// Removes `p` from the set, if it is there.
    pub fn remove(&mut self, p: PointerID)
        requires
            old(self).wf(),
        ensures
            final(self).wf(),
            final(self)@ == old(self)@.remove(p),
    {
        broadcast use vstd::std_specs::hash::group_hash_axioms;
        self.ids.remove(&p.0);
        proof {
            assert forall|x: PointerID| self@.contains(x) <==> old(self)@.remove(p).contains(x) by {
                self.lemma_view_contains(x);
                old(self).lemma_view_contains(x);
            }
            assert(self@ =~= old(self)@.remove(p));
        }
    }
}

impl PointerSet {
    /// The set holding `p` alone.
    pub fn singleton(p: PointerID) -> (s: Self)
        ensures
            s.wf(),
            s@ == set![p],
    {
        let mut s = PointerSet::new();
        s.insert(p);
        assert(s@ =~= set![p]);
        s
    }

    /// The set holding `p` and `q`.
    pub fn pair(p: PointerID, q: PointerID) -> (s: Self)
        ensures
            s.wf(),
            s@ == set![p, q],
    {
        let mut s = PointerSet::singleton(p);
        s.insert(q);
        assert(s@ =~= set![p, q]);
        s
    }

    /// The set holding `p`, `q` and `r`.
    pub fn triple(p: PointerID, q: PointerID, r: PointerID) -> (s: Self)
        ensures
            s.wf(),
            s@ == set![p, q, r],
    {
        let mut s = PointerSet::pair(p, q);
        s.insert(r);
        assert(s@ =~= set![p, q, r]);
        s
    }

    /// Whether `p` is the one and only pointer in the set.
    pub fn is_only(&self, p: PointerID) -> (b: bool)
        requires
            self.wf(),
        ensures
            b == (self@ == set![p]),
    {
        let n = self.len();
        let c = self.contains(p);
        proof {
            self.lemma_finite();
            if n == 1 && c {
                assert(self@.remove(p).len() == 0);
                assert(self@.remove(p) =~= Set::<PointerID>::empty());
                assert(self@ =~= set![p]) by {
                    assert forall|x: PointerID| self@.contains(x) implies x == p by {
                        if x != p {
                            assert(self@.remove(p).contains(x));
                        }
                    }
                }
            }
            if self@ == set![p] {
                assert(set![p].len() == 1) by {
                    assert(set![p] == Set::<PointerID>::empty().insert(p));
                }
            }
        }
        n == 1 && c
    }
}


/// One of the two contacts of a two-finger scroll: the pointer, where it
/// touched down and where it is now (raw pointer offsets).
#[derive(Clone, Copy, Debug, PartialEq)]
pub struct TouchScrollState<P> {
    pub ptr: PointerID,
    pub started: P,
    pub current: P,
}

/// What the recognizer reports. Positions are the raw pointer offsets of the
/// input; the caller maps them to clip space.
#[derive(Clone, Copy, Debug, PartialEq)]
pub enum GestureEvent<P> {
    Out,
    /// Hover at an offset.
    Hover(P),
    /// Click at the offset where the button went down.
    Click(P),
    /// Drag begun; the offset where the button went down.
    DragStart(P),
    /// Drag moved to an offset.
    DragMove(P),
    /// Drag released at an offset.
    DragDone(P),
    DragCancel,
    ScrollStart,
    /// A two-contact scroll with its two contacts.
    TouchScrollMove(TouchScrollState<P>, TouchScrollState<P>),
    /// A middle-button scroll: where it started, where it is now.
    MouseScrollMove(P, P),
    /// The scroll went back to no zoom and no translation.
    ScrollReset,
    ScrollDone,
}

/// The kind of a browser pointer event.
#[derive(Clone, Copy, PartialEq, Eq, Structural, Debug)]
pub enum PointerEventKind {
    Move,
    Up,
    Down,
    Cancel,
    Enter,
    Leave,
    Other,
}

/// The part of a browser pointer event that the recognizer decides on.
/// `past_drag_threshold` tells whether the offset is at least the minimum
/// drag distance away from where the pressed pointer went down.
#[derive(Clone, Copy, Debug)]
pub struct PointerInput<P> {
    pub kind: PointerEventKind,
    pub ptr: PointerID,
    pub offset: P,
    pub buttons: u16,
    pub past_drag_threshold: bool,
}

/// The gesture in progress.
#[derive(Debug)]
pub enum GestureState<P> {
    Idle,
    /// A button is down on a pointer at an offset, not yet moved far.
    Down(PointerID, P),
    /// A pointer is dragging from an offset.
    Dragging(PointerID, P),
    TouchScroll(TouchScrollState<P>, TouchScrollState<P>),
    /// Middle-button scroll by a pointer from an offset.
    MouseScroll(PointerID, P),
    /// Waits for all these pointers to lift before anything else starts.
    WaitForSettle(PointerSet),
}

/// Mathematical model of [`GestureState`]: the set of settling pointers as a `Set`.
pub enum GestureMode<P> {
    Idle,
    Down(PointerID, P),
    Dragging(PointerID, P),
    TouchScroll(TouchScrollState<P>, TouchScrollState<P>),
    MouseScroll(PointerID, P),
    WaitForSettle(Set<PointerID>),
}

impl<P> GestureState<P> {
    pub open spec fn model(&self) -> GestureMode<P> {
        match self {
            GestureState::Idle => GestureMode::Idle,
            GestureState::Down(p, s) => GestureMode::Down(*p, *s),
            GestureState::Dragging(p, s) => GestureMode::Dragging(*p, *s),
            GestureState::TouchScroll(a, b) => GestureMode::TouchScroll(*a, *b),
            GestureState::MouseScroll(p, s) => GestureMode::MouseScroll(*p, *s),
            GestureState::WaitForSettle(s) => GestureMode::WaitForSettle(s@),
        }
    }

    pub open spec fn wf(&self) -> bool {
        match self {
            GestureState::WaitForSettle(s) => s.wf(),
            _ => true,
        }
    }
}

/// The invariant of a gesture mode: a two-contact scroll has two distinct
/// contacts, and the recognizer never waits for an empty, or infinite, set of pointers.
pub open spec fn mode_inv<P>(m: GestureMode<P>) -> bool {
    match m {
        GestureMode::TouchScroll(a, b) => a.ptr != b.ptr,
        GestureMode::WaitForSettle(s) => s.finite() && s.len() > 0,
        _ => true,
    }
}

/// `[Hover(offset)]` when `ptr` is the only pointer over the surface, else nothing.
pub open spec fn sole_hover<P>(inside: Set<PointerID>, ptr: PointerID, offset: P) -> Seq<GestureEvent<P>> {
    if inside == set![ptr] {
        seq![GestureEvent::Hover(offset)]
    } else {
        seq![]
    }
}

/// After the pointer `ptr` lifts, the settling set without it: back to idle once it is empty.
pub open spec fn settle<P>(s: Set<PointerID>, ptr: PointerID) -> GestureMode<P> {
    if s.remove(ptr).len() == 0 {
        GestureMode::Idle
    } else {
        GestureMode::WaitForSettle(s.remove(ptr))
    }
}

/// Mode and events after a pointer move.
pub open spec fn on_move<P>(m: GestureMode<P>, inside: Set<PointerID>, ev: PointerInput<P>) -> (GestureMode<P>, Seq<GestureEvent<P>>) {
    let ptr = ev.ptr;
    match m {
        GestureMode::Idle => (m, sole_hover(inside, ptr, ev.offset)),
        GestureMode::Down(pressed, started) => if ptr == pressed && ev.past_drag_threshold {
            (GestureMode::Dragging(pressed, started), seq![GestureEvent::DragStart(started), GestureEvent::DragMove(ev.offset)])
        } else {
            (m, seq![])
        },
        GestureMode::Dragging(pressed, _) => if ptr == pressed {
            (m, seq![GestureEvent::DragMove(ev.offset)])
        } else {
            (m, seq![])
        },
        GestureMode::TouchScroll(a, b) => {
            let a2 = if ptr == a.ptr { TouchScrollState { current: ev.offset, ..a } } else { a };
            let b2 = if ptr != a.ptr && ptr == b.ptr { TouchScrollState { current: ev.offset, ..b } } else { b };
            (GestureMode::TouchScroll(a2, b2), seq![GestureEvent::TouchScrollMove(a2, b2)])
        },
        GestureMode::MouseScroll(pressed, started) => if ptr == pressed {
            (m, seq![GestureEvent::MouseScrollMove(started, ev.offset)])
        } else {
            (m, seq![])
        },
        GestureMode::WaitForSettle(_) => (m, seq![]),
    }
}

/// Mode and events after a pointer lifts (`cancel` false) or is cancelled (`cancel` true).
pub open spec fn on_release<P>(m: GestureMode<P>, inside: Set<PointerID>, ev: PointerInput<P>, cancel: bool) -> (GestureMode<P>, Seq<GestureEvent<P>>) {
    let ptr = ev.ptr;
    let hover = sole_hover(inside, ptr, ev.offset);
    match m {
        GestureMode::Idle => (m, seq![]),
        GestureMode::Down(pressed, started) => if ptr == pressed {
            (GestureMode::Idle, if cancel { hover } else { seq![GestureEvent::Click(started)] + hover })
        } else {
            (m, seq![])
        },
        GestureMode::Dragging(pressed, _) => if ptr == pressed {
            (GestureMode::Idle, if cancel { seq![GestureEvent::DragCancel] + hover } else { seq![GestureEvent::DragDone(ev.offset)] + hover })
        } else {
            (m, seq![])
        },
        GestureMode::TouchScroll(a, b) => if ptr == a.ptr || ptr == b.ptr {
            (GestureMode::WaitForSettle(set![a.ptr, b.ptr].remove(ptr)),
                if cancel { seq![GestureEvent::ScrollReset, GestureEvent::ScrollDone] } else { seq![GestureEvent::ScrollDone] })
        } else {
            (m, seq![])
        },
        GestureMode::MouseScroll(pressed, _) => if ptr == pressed {
            (GestureMode::Idle,
                if cancel { seq![GestureEvent::ScrollReset, GestureEvent::ScrollDone] + hover } else { seq![GestureEvent::ScrollDone] + hover })
        } else {
            (m, seq![])
        },
        GestureMode::WaitForSettle(s) => (settle(s, ptr), seq![]),
    }
}

/// Mode and events after a pointer goes down.
pub open spec fn on_press<P>(m: GestureMode<P>, ev: PointerInput<P>) -> (GestureMode<P>, Seq<GestureEvent<P>>) {
    let ptr = ev.ptr;
    match m {
        GestureMode::Idle => if ev.buttons == 1 {
            (GestureMode::Down(ptr, ev.offset), seq![GestureEvent::Hover(ev.offset)])
        } else if ev.buttons == 4 {
            (GestureMode::MouseScroll(ptr, ev.offset), seq![GestureEvent::Out, GestureEvent::ScrollStart])
        } else {
            (GestureMode::WaitForSettle(set![ptr]), seq![GestureEvent::Out])
        },
        GestureMode::Down(pressed, started) => if ptr != pressed {
            (GestureMode::TouchScroll(
                TouchScrollState { ptr: pressed, started, current: started },
                TouchScrollState { ptr, started: ev.offset, current: ev.offset },
            ), seq![GestureEvent::Out, GestureEvent::ScrollStart])
        } else {
            (m, seq![])
        },
        GestureMode::Dragging(pressed, _) => if ptr != pressed {
            (GestureMode::WaitForSettle(set![pressed, ptr]), seq![GestureEvent::Out, GestureEvent::DragCancel])
        } else {
            (m, seq![])
        },
        GestureMode::TouchScroll(a, b) => if ptr != a.ptr && ptr != b.ptr {
            (GestureMode::WaitForSettle(set![a.ptr, b.ptr, ptr]), seq![GestureEvent::ScrollDone])
        } else {
            (m, seq![])
        },
        GestureMode::MouseScroll(pressed, _) => if ptr != pressed {
            (GestureMode::WaitForSettle(set![pressed, ptr]), seq![GestureEvent::ScrollDone])
        } else {
            (m, seq![])
        },
        GestureMode::WaitForSettle(s) => (GestureMode::WaitForSettle(s.insert(ptr)), seq![]),
    }
}

/// The whole transition of the recognizer on one pointer event: the next
/// mode, the next set of pointers over the surface, and the events reported.
pub open spec fn gesture_step<P>(m: GestureMode<P>, inside: Set<PointerID>, ev: PointerInput<P>) -> (GestureMode<P>, Set<PointerID>, Seq<GestureEvent<P>>) {
    match ev.kind {
        PointerEventKind::Move => { let r = on_move(m, inside, ev); (r.0, inside, r.1) },
        PointerEventKind::Up => { let r = on_release(m, inside, ev, false); (r.0, inside, r.1) },
        PointerEventKind::Cancel => { let r = on_release(m, inside, ev, true); (r.0, inside, r.1) },
        PointerEventKind::Down => { let r = on_press(m, ev); (r.0, inside, r.1) },
        PointerEventKind::Enter => {
            let inside2 = inside.insert(ev.ptr);
            (m, inside2, if m is Idle {
                if inside2.len() == 1 { seq![GestureEvent::Hover(ev.offset)] } else { seq![GestureEvent::Out] }
            } else {
                seq![]
            })
        },
        PointerEventKind::Leave => {
            let inside2 = inside.remove(ev.ptr);
            (m, inside2, if m is Idle {
                if inside2.len() == 1 { seq![] } else { seq![GestureEvent::Out] }
            } else {
                seq![]
            })
        },
        PointerEventKind::Other => (m, inside, seq![]),
    }
}

/// Mode and events after the drawing surface changes size: any gesture in
/// progress ends and its pointers must settle.
pub open spec fn resize_step<P>(m: GestureMode<P>) -> (GestureMode<P>, Seq<GestureEvent<P>>) {
    match m {
        GestureMode::Idle => (m, seq![GestureEvent::Out]),
        GestureMode::Down(p, _) => (GestureMode::WaitForSettle(set![p]), seq![GestureEvent::Out]),
        GestureMode::Dragging(p, _) => (GestureMode::WaitForSettle(set![p]), seq![GestureEvent::DragCancel]),
        GestureMode::TouchScroll(a, b) => (GestureMode::WaitForSettle(set![a.ptr, b.ptr]), seq![GestureEvent::ScrollDone]),
        GestureMode::MouseScroll(p, _) => (GestureMode::WaitForSettle(set![p]), seq![GestureEvent::ScrollDone]),
        GestureMode::WaitForSettle(_) => (m, seq![]),
    }
}


/// Appends `[Hover(offset)]` when `ptr` is the only pointer over the surface.
fn push_sole_hover<P: Copy>(inside: &PointerSet, ptr: PointerID, offset: P, out: &mut Vec<GestureEvent<P>>)
    requires
        inside.wf(),
    ensures
        final(out)@ == old(out)@ + sole_hover(inside@, ptr, offset),
{
    if inside.is_only(ptr) {
        out.push(GestureEvent::Hover(offset));
        assert(out@ =~= old(out)@ + sole_hover(inside@, ptr, offset));
    } else {
        assert(out@ =~= old(out)@ + sole_hover(inside@, ptr, offset));
    }
}

fn events1<P>(a: GestureEvent<P>) -> (out: Vec<GestureEvent<P>>)
    ensures
        out@ == seq![a],
{
    let mut out = Vec::new();
    out.push(a);
    assert(out@ =~= seq![a]);
    out
}

fn events2<P>(a: GestureEvent<P>, b: GestureEvent<P>) -> (out: Vec<GestureEvent<P>>)
    ensures
        out@ == seq![a, b],
{
    let mut out = Vec::new();
    out.push(a);
    out.push(b);
    assert(out@ =~= seq![a, b]);
    out
}

/// Recognizes clicks, drags and scrolls in a stream of pointer events.
/// `P` is the type of a pointer offset; the recognizer only carries offsets through.
#[derive(Debug)]
pub struct GestureRecognizer<P> {
    pointers_in: PointerSet,
    state: GestureState<P>,
}

impl<P> GestureRecognizer<P> {
    /// The recognizer's invariant (see [`mode_inv`]).
    #[verifier::type_invariant]
    closed spec fn inv(&self) -> bool {
        &&& self.pointers_in.wf()
        &&& self.state.wf()
        &&& mode_inv(self.state.model())
    }
}

impl<P: Copy> GestureRecognizer<P> {
    /// The gesture in progress.
    pub closed spec fn mode(&self) -> GestureMode<P> {
        self.state.model()
    }

    /// The pointers over the drawing surface.
    pub closed spec fn inside(&self) -> Set<PointerID> {
        self.pointers_in@
    }


    /// A recognizer with no gesture in progress and no pointer over the surface.
    pub fn new() -> (r: Self)
        ensures
            r.mode() == GestureMode::<P>::Idle,
            r.inside() == Set::<PointerID>::empty(),
    {
        GestureRecognizer { pointers_in: PointerSet::new(), state: GestureState::Idle }
    }

    /// The offset where the pressed pointer went down, while a press has not yet become a drag.
    pub fn drag_origin(&self) -> (r: Option<P>)
        ensures
            r == (match self.mode() {
                GestureMode::Down(_, started) => Some(started),
                _ => None,
            }),
    {
        match &self.state {
            GestureState::Down(_, started) => Some(*started),
            _ => None,
        }
    }

    fn take_state(&mut self) -> (st: GestureState<P>)
        ensures
            st == old(self).state,
            final(self).pointers_in == old(self).pointers_in,
            final(self).state == GestureState::<P>::Idle,
    {
        proof { use_type_invariant(&*self); }
        let mut st = GestureState::Idle;
        std::mem::swap(&mut st, &mut self.state);
        st
    }

    fn take_inside(&mut self) -> (s: PointerSet)
        ensures
            s == old(self).pointers_in,
            final(self).state == old(self).state,
            final(self).pointers_in@ == Set::<PointerID>::empty(),
    {
        proof { use_type_invariant(&*self); }
        let mut s = PointerSet::new();
        std::mem::swap(&mut s, &mut self.pointers_in);
        s
    }

    fn on_move_exec(st: GestureState<P>, inside: &PointerSet, ev: PointerInput<P>) -> (r: (GestureState<P>, Vec<GestureEvent<P>>))
        requires
            inside.wf(),
            st.wf(),
        ensures
            r.0.wf(),
            (r.0.model(), r.1@) == on_move(st.model(), inside@, ev),
    {
        let ptr = ev.ptr;
        match st {
            GestureState::Idle => {
                let mut out = Vec::new();
                push_sole_hover(inside, ptr, ev.offset, &mut out);
                assert(out@ =~= sole_hover(inside@, ptr, ev.offset));
                (GestureState::Idle, out)
            },
            GestureState::Down(pressed, started) => {
                if ptr == pressed && ev.past_drag_threshold {
                    (GestureState::Dragging(pressed, started), events2(GestureEvent::DragStart(started), GestureEvent::DragMove(ev.offset)))
                } else {
                    (GestureState::Down(pressed, started), Vec::new())
                }
            },
            GestureState::Dragging(pressed, started) => {
                if ptr == pressed {
                    (GestureState::Dragging(pressed, started), events1(GestureEvent::DragMove(ev.offset)))
                } else {
                    (GestureState::Dragging(pressed, started), Vec::new())
                }
            },
            GestureState::TouchScroll(a, b) => {
                let mut a2 = a;
                let mut b2 = b;
                if ptr == a.ptr {
                    a2.current = ev.offset;
                } else if ptr == b.ptr {
                    b2.current = ev.offset;
                }
                (GestureState::TouchScroll(a2, b2), events1(GestureEvent::TouchScrollMove(a2, b2)))
            },
            GestureState::MouseScroll(pressed, started) => {
                if ptr == pressed {
                    (GestureState::MouseScroll(pressed, started), events1(GestureEvent::MouseScrollMove(started, ev.offset)))
                } else {
                    (GestureState::MouseScroll(pressed, started), Vec::new())
                }
            },
            GestureState::WaitForSettle(s) => (GestureState::WaitForSettle(s), Vec::new()),
        }
    }

    fn on_release_exec(st: GestureState<P>, inside: &PointerSet, ev: PointerInput<P>, cancel: bool) -> (r: (GestureState<P>, Vec<GestureEvent<P>>))
        requires
            inside.wf(),
            st.wf(),
            mode_inv(st.model()),
        ensures
            r.0.wf(),
            (r.0.model(), r.1@) == on_release(st.model(), inside@, ev, cancel),
    {
        let ptr = ev.ptr;
        match st {
            GestureState::Idle => (GestureState::Idle, Vec::new()),
            GestureState::Down(pressed, started) => {
                if ptr == pressed {
                    let mut out = Vec::new();
                    if !cancel {
                        out.push(GestureEvent::Click(started));
                    }
                    push_sole_hover(inside, ptr, ev.offset, &mut out);
                    assert(out@ =~= (if cancel { sole_hover(inside@, ptr, ev.offset) } else { seq![GestureEvent::Click(started)] + sole_hover(inside@, ptr, ev.offset) }));
                    (GestureState::Idle, out)
                } else {
                    (GestureState::Down(pressed, started), Vec::new())
                }
            },
            GestureState::Dragging(pressed, started) => {
                if ptr == pressed {
                    let mut out = if cancel { events1(GestureEvent::DragCancel) } else { events1(GestureEvent::DragDone(ev.offset)) };
                    push_sole_hover(inside, ptr, ev.offset, &mut out);
                    (GestureState::Idle, out)
                } else {
                    (GestureState::Dragging(pressed, started), Vec::new())
                }
            },
            GestureState::TouchScroll(a, b) => {
                if ptr == a.ptr || ptr == b.ptr {
                    let mut down = PointerSet::pair(a.ptr, b.ptr);
                    down.remove(ptr);
                    let out = if cancel { events2(GestureEvent::ScrollReset, GestureEvent::ScrollDone) } else { events1(GestureEvent::ScrollDone) };
                    (GestureState::WaitForSettle(down), out)
                } else {
                    (GestureState::TouchScroll(a, b), Vec::new())
                }
            },
            GestureState::MouseScroll(pressed, started) => {
                if ptr == pressed {
                    let mut out = if cancel { events2(GestureEvent::ScrollReset, GestureEvent::ScrollDone) } else { events1(GestureEvent::ScrollDone) };
                    push_sole_hover(inside, ptr, ev.offset, &mut out);
                    (GestureState::Idle, out)
                } else {
                    (GestureState::MouseScroll(pressed, started), Vec::new())
                }
            },
            GestureState::WaitForSettle(s) => {
                let mut pressed = s;
                pressed.remove(ptr);
                proof {
                    pressed.lemma_finite();
                }
                if pressed.is_empty() {
                    (GestureState::Idle, Vec::new())
                } else {
                    (GestureState::WaitForSettle(pressed), Vec::new())
                }
            },
        }
    }

    fn on_press_exec(st: GestureState<P>, ev: PointerInput<P>) -> (r: (GestureState<P>, Vec<GestureEvent<P>>))
        requires
            st.wf(),
        ensures
            r.0.wf(),
            (r.0.model(), r.1@) == on_press(st.model(), ev),
    {
        let ptr = ev.ptr;
        match st {
            GestureState::Idle => {
                if ev.buttons == 1 {
                    (GestureState::Down(ptr, ev.offset), events1(GestureEvent::Hover(ev.offset)))
                } else if ev.buttons == 4 {
                    (GestureState::MouseScroll(ptr, ev.offset), events2(GestureEvent::Out, GestureEvent::ScrollStart))
                } else {
                    (GestureState::WaitForSettle(PointerSet::singleton(ptr)), events1(GestureEvent::Out))
                }
            },
            GestureState::Down(pressed, started) => {
                if ptr != pressed {
                    let a = TouchScrollState { ptr: pressed, started, current: started };
                    let b = TouchScrollState { ptr, started: ev.offset, current: ev.offset };
                    (GestureState::TouchScroll(a, b), events2(GestureEvent::Out, GestureEvent::ScrollStart))
                } else {
                    (GestureState::Down(pressed, started), Vec::new())
                }
            },
            GestureState::Dragging(pressed, started) => {
                if ptr != pressed {
                    (GestureState::WaitForSettle(PointerSet::pair(pressed, ptr)), events2(GestureEvent::Out, GestureEvent::DragCancel))
                } else {
                    (GestureState::Dragging(pressed, started), Vec::new())
                }
            },
            GestureState::TouchScroll(a, b) => {
                if ptr != a.ptr && ptr != b.ptr {
                    (GestureState::WaitForSettle(PointerSet::triple(a.ptr, b.ptr, ptr)), events1(GestureEvent::ScrollDone))
                } else {
                    (GestureState::TouchScroll(a, b), Vec::new())
                }
            },
            GestureState::MouseScroll(pressed, started) => {
                if ptr != pressed {
                    (GestureState::WaitForSettle(PointerSet::pair(pressed, ptr)), events1(GestureEvent::ScrollDone))
                } else {
                    (GestureState::MouseScroll(pressed, started), Vec::new())
                }
            },
            GestureState::WaitForSettle(s) => {
                let mut down = s;
                down.insert(ptr);
                (GestureState::WaitForSettle(down), Vec::new())
            },
        }
    }

    /// Feeds one pointer event to the recognizer and returns the gestures it completes or advances.
    pub fn process_event(&mut self, ev: PointerInput<P>) -> (out: Vec<GestureEvent<P>>)
        ensures
            mode_inv(final(self).mode()),
            (final(self).mode(), final(self).inside(), out@) == gesture_step(old(self).mode(), old(self).inside(), ev),
    {
        proof { use_type_invariant(&*self); }
        let st = self.take_state();
        match ev.kind {
            PointerEventKind::Move => {
                let (next, out) = Self::on_move_exec(st, &self.pointers_in, ev);
                self.state = next;
                proof { lemma_step_keeps_inv(old(self).mode(), old(self).inside(), ev); }
                out
            },
            PointerEventKind::Up => {
                let (next, out) = Self::on_release_exec(st, &self.pointers_in, ev, false);
                self.state = next;
                proof { lemma_step_keeps_inv(old(self).mode(), old(self).inside(), ev); }
                out
            },
            PointerEventKind::Cancel => {
                let (next, out) = Self::on_release_exec(st, &self.pointers_in, ev, true);
                self.state = next;
                proof { lemma_step_keeps_inv(old(self).mode(), old(self).inside(), ev); }
                out
            },
            PointerEventKind::Down => {
                let (next, out) = Self::on_press_exec(st, ev);
                self.state = next;
                proof { lemma_step_keeps_inv(old(self).mode(), old(self).inside(), ev); }
                out
            },
            PointerEventKind::Enter => {
                let mut inside = self.take_inside();
                inside.insert(ev.ptr);
                self.pointers_in = inside;
                let idle = st.is_idle();
                self.state = st;
                if idle {
                    if self.pointers_in.len() == 1 {
                        events1(GestureEvent::Hover(ev.offset))
                    } else {
                        events1(GestureEvent::Out)
                    }
                } else {
                    Vec::new()
                }
            },
            PointerEventKind::Leave => {
                let mut inside = self.take_inside();
                inside.remove(ev.ptr);
                self.pointers_in = inside;
                let idle = st.is_idle();
                self.state = st;
                if idle {
                    if self.pointers_in.len() == 1 {
                        Vec::new()
                    } else {
                        events1(GestureEvent::Out)
                    }
                } else {
                    Vec::new()
                }
            },
            PointerEventKind::Other => {
                self.state = st;
                Vec::new()
            },
        }
    }

    /// Ends any gesture in progress because the drawing surface changed size.
    pub fn resize(&mut self) -> (out: Vec<GestureEvent<P>>)
        ensures
            mode_inv(final(self).mode()),
            final(self).inside() == old(self).inside(),
            (final(self).mode(), out@) == resize_step(old(self).mode()),
    {
        proof { use_type_invariant(&*self); }
        let st = self.take_state();
        let (next, out) = match st {
            GestureState::Idle => (GestureState::Idle, events1(GestureEvent::Out)),
            GestureState::Down(p, _) => (GestureState::WaitForSettle(PointerSet::singleton(p)), events1(GestureEvent::Out)),
            GestureState::Dragging(p, _) => (GestureState::WaitForSettle(PointerSet::singleton(p)), events1(GestureEvent::DragCancel)),
            GestureState::TouchScroll(a, b) => (GestureState::WaitForSettle(PointerSet::pair(a.ptr, b.ptr)), events1(GestureEvent::ScrollDone)),
            GestureState::MouseScroll(p, _) => (GestureState::WaitForSettle(PointerSet::singleton(p)), events1(GestureEvent::ScrollDone)),
            GestureState::WaitForSettle(s) => (GestureState::WaitForSettle(s), Vec::new()),
        };
        self.state = next;
        proof { lemma_resize_settles(old(self).mode()); }
        out
    }

    /// A wheel step at an offset is a zoom request only when no gesture is in progress.
    pub fn process_wheel(&self, delta: i32, offset: P) -> (r: Option<(i32, P)>)
        ensures
            r == (if self.mode() is Idle { Some((delta, offset)) } else { None }),
    {
        if self.state.is_idle() {
            Some((delta, offset))
        } else {
            None
        }
    }
}

impl<P> GestureState<P> {
    pub fn is_idle(&self) -> (b: bool)
        ensures
            b == (self.model() is Idle),
    {
        match self {
            GestureState::Idle => true,
            _ => false,
        }
    }
}

/// Every pointer event keeps the recognizer's invariant: a two-contact scroll
/// has two distinct contacts, and the recognizer never waits for an empty set of pointers.
pub proof fn lemma_step_keeps_inv<P>(m: GestureMode<P>, inside: Set<PointerID>, ev: PointerInput<P>)
    requires
        mode_inv(m),
    ensures
        mode_inv(gesture_step(m, inside, ev).0),
{
    let ptr = ev.ptr;
    match m {
        GestureMode::TouchScroll(a, b) => {
            if ptr == a.ptr || ptr == b.ptr {
                let s = set![a.ptr, b.ptr].remove(ptr);
                let other = if ptr == a.ptr { b.ptr } else { a.ptr };
                assert(s =~= set![other]);
                assert(set![other] == Set::<PointerID>::empty().insert(other));
            }
            assert(set![a.ptr, b.ptr, ptr].contains(ptr));
        },
        GestureMode::WaitForSettle(s) => {
            assert(s.insert(ptr).contains(ptr));
            assert(s.insert(ptr).len() > 0);
        },
        GestureMode::Idle => {
            assert(set![ptr] == Set::<PointerID>::empty().insert(ptr));
        },
        GestureMode::Dragging(pressed, _) => {
            assert(set![pressed, ptr].contains(ptr));
        },
        GestureMode::MouseScroll(pressed, _) => {
            assert(set![pressed, ptr].contains(ptr));
        },
        _ => {},
    }
}

/// After a resize no gesture is in progress: the recognizer is idle or waits
/// for the pointers that were down to lift, and the invariant still holds.
pub proof fn lemma_resize_settles<P>(m: GestureMode<P>)
    requires
        mode_inv(m),
    ensures
        resize_step(m).0 is Idle || resize_step(m).0 is WaitForSettle,
        mode_inv(resize_step(m).0),
{
    match m {
        GestureMode::Down(p, _) => { assert(set![p].contains(p)); },
        GestureMode::Dragging(p, _) => { assert(set![p].contains(p)); },
        GestureMode::MouseScroll(p, _) => { assert(set![p].contains(p)); },
        GestureMode::TouchScroll(a, b) => { assert(set![a.ptr, b.ptr].contains(a.ptr)); },
        _ => {},
    }
}

/// From idle, a left-button press followed by the release of the same
/// pointer is a click at the offset where the button went down, and the
/// recognizer is idle again.
pub proof fn lemma_press_release_clicks<P>(inside: Set<PointerID>, press: PointerInput<P>, release: PointerInput<P>)
    requires
        press.kind == PointerEventKind::Down,
        press.buttons == 1,
        release.kind == PointerEventKind::Up,
        release.ptr == press.ptr,
    ensures
        ({
            let s1 = gesture_step(GestureMode::Idle, inside, press);
            let s2 = gesture_step(s1.0, s1.1, release);
            &&& s1.0 == GestureMode::Down(press.ptr, press.offset)
            &&& s2.0 is Idle
            &&& s2.1 == inside
            &&& s2.2.len() >= 1
            &&& s2.2[0] == GestureEvent::Click(press.offset)
        }),
{
}

/// A press that moves past the drag threshold becomes a drag from where the
/// button went down, and releasing the pointer ends the drag where it is released.
pub proof fn lemma_drag_from_press<P>(inside: Set<PointerID>, ptr: PointerID, origin: P, mv: PointerInput<P>, release: PointerInput<P>)
    requires
        mv.kind == PointerEventKind::Move,
        mv.ptr == ptr,
        mv.past_drag_threshold,
        release.kind == PointerEventKind::Up,
        release.ptr == ptr,
    ensures
        ({
            let s1 = gesture_step(GestureMode::Down(ptr, origin), inside, mv);
            let s2 = gesture_step(s1.0, s1.1, release);
            &&& s1.0 == GestureMode::Dragging(ptr, origin)
            &&& s1.2 == seq![GestureEvent::DragStart(origin), GestureEvent::DragMove(mv.offset)]
            &&& s2.0 is Idle
            &&& s2.2.len() >= 1
            &&& s2.2[0] == GestureEvent::DragDone(release.offset)
        }),
{
}

/// A second pointer going down during a press starts a two-contact scroll
/// whose contacts are the two pointers, each where it went down.
pub proof fn lemma_second_press_scrolls<P>(inside: Set<PointerID>, ptr: PointerID, origin: P, press: PointerInput<P>)
    requires
        press.kind == PointerEventKind::Down,
        press.ptr != ptr,
    ensures
        gesture_step(GestureMode::Down(ptr, origin), inside, press) == (
            GestureMode::TouchScroll(
                TouchScrollState { ptr, started: origin, current: origin },
                TouchScrollState { ptr: press.ptr, started: press.offset, current: press.offset },
            ),
            inside,
            seq![GestureEvent::<P>::Out, GestureEvent::<P>::ScrollStart],
        ),
{
}

/// Moves, releases and cancels of a pointer that is not the pressed one
/// neither change a press, a drag or a middle-button scroll nor report anything.
pub proof fn lemma_other_pointer_ignored<P>(m: GestureMode<P>, inside: Set<PointerID>, ev: PointerInput<P>)
    requires
        ev.kind == PointerEventKind::Move || ev.kind == PointerEventKind::Up || ev.kind == PointerEventKind::Cancel,
        match m {
            GestureMode::Down(p, _) => p != ev.ptr,
            GestureMode::Dragging(p, _) => p != ev.ptr,
            GestureMode::MouseScroll(p, _) => p != ev.ptr,
            _ => false,
        },
    ensures
        gesture_step(m, inside, ev) == (m, inside, Seq::<GestureEvent<P>>::empty()),
{
    assert(seq![] =~= Seq::<GestureEvent<P>>::empty());
}

/// Which bracket of the reported event stream is open: none, a drag, or a scroll.
#[derive(Clone, Copy, Debug, PartialEq, Eq, Structural)]
pub enum Bracket {
    Free,
    Drag,
    Scroll,
}

/// The bracket that a gesture mode holds open.
pub open spec fn bracket_of<P>(m: GestureMode<P>) -> Bracket {
    match m {
        GestureMode::Dragging(_, _) => Bracket::Drag,
        GestureMode::TouchScroll(_, _) => Bracket::Scroll,
        GestureMode::MouseScroll(_, _) => Bracket::Scroll,
        _ => Bracket::Free,
    }
}

/// Whether `evs`, read from an open bracket `b`, is well bracketed and leaves
/// bracket `end` open: a drag opens with `DragStart` immediately followed by
/// `DragMove` and closes only with `DragDone` or `DragCancel`; a scroll opens
/// with `ScrollStart` and closes only with `ScrollDone`; drag moves come only
/// in a drag and scroll moves only in a scroll; drags and scrolls never
/// overlap; hovers and clicks come only outside both. `Out` may come anywhere.
pub open spec fn bracketed<P>(b: Bracket, evs: Seq<GestureEvent<P>>, end: Bracket) -> bool
    decreases evs.len(),
{
    if evs.len() == 0 {
        b == end
    } else {
        let rest = evs.drop_first();
        match (b, evs[0]) {
            (_, GestureEvent::Out) => bracketed(b, rest, end),
            (Bracket::Free, GestureEvent::Hover(_)) => bracketed(Bracket::Free, rest, end),
            (Bracket::Free, GestureEvent::Click(_)) => bracketed(Bracket::Free, rest, end),
            (Bracket::Free, GestureEvent::DragStart(_)) => rest.len() > 0 && rest[0] is DragMove && bracketed(Bracket::Drag, rest, end),
            (Bracket::Free, GestureEvent::ScrollStart) => bracketed(Bracket::Scroll, rest, end),
            (Bracket::Drag, GestureEvent::DragMove(_)) => bracketed(Bracket::Drag, rest, end),
            (Bracket::Drag, GestureEvent::DragDone(_)) => bracketed(Bracket::Free, rest, end),
            (Bracket::Drag, GestureEvent::DragCancel) => bracketed(Bracket::Free, rest, end),
            (Bracket::Scroll, GestureEvent::TouchScrollMove(_, _)) => bracketed(Bracket::Scroll, rest, end),
            (Bracket::Scroll, GestureEvent::MouseScrollMove(_, _)) => bracketed(Bracket::Scroll, rest, end),
            (Bracket::Scroll, GestureEvent::ScrollReset) => bracketed(Bracket::Scroll, rest, end),
            (Bracket::Scroll, GestureEvent::ScrollDone) => bracketed(Bracket::Free, rest, end),
            _ => false,
        }
    }
}

/// Well-bracketed streams chain: one from `a` to `b` followed by one from `b` to `c` runs from `a` to `c`.
pub proof fn lemma_bracketed_concat<P>(a: Bracket, e1: Seq<GestureEvent<P>>, b: Bracket, e2: Seq<GestureEvent<P>>, c: Bracket)
    requires
        bracketed(a, e1, b),
        bracketed(b, e2, c),
    ensures
        bracketed(a, e1 + e2, c),
    decreases e1.len(),
{
    if e1.len() == 0 {
        assert(e1 + e2 =~= e2);
    } else {
        assert((e1 + e2).drop_first() =~= e1.drop_first() + e2);
        assert((e1 + e2)[0] == e1[0]);
        let next = match (a, e1[0]) {
            (Bracket::Free, GestureEvent::DragStart(_)) => Bracket::Drag,
            (Bracket::Free, GestureEvent::ScrollStart) => Bracket::Scroll,
            (Bracket::Drag, GestureEvent::DragDone(_)) => Bracket::Free,
            (Bracket::Drag, GestureEvent::DragCancel) => Bracket::Free,
            (Bracket::Scroll, GestureEvent::ScrollDone) => Bracket::Free,
            _ => a,
        };
        lemma_bracketed_concat(next, e1.drop_first(), b, e2, c);
        if e1[0] is DragStart && a == Bracket::Free {
            assert((e1 + e2).drop_first()[0] == e1.drop_first()[0]);
        }
    }
}

/// `[Hover(p)]` or nothing is well bracketed outside any drag or scroll.
proof fn lemma_sole_hover_free<P>(inside: Set<PointerID>, ptr: PointerID, offset: P)
    ensures
        bracketed(Bracket::Free, sole_hover(inside, ptr, offset), Bracket::Free),
{
    reveal_with_fuel(bracketed, 2);
    let h = sole_hover(inside, ptr, offset);
    if inside == set![ptr] {
        assert(h[0] == GestureEvent::Hover(offset));
        assert(h.drop_first() =~= Seq::<GestureEvent<P>>::empty());
    }
}

/// Every pointer event continues the reported stream well bracketed, from
/// the bracket that the old mode holds open to the one the new mode holds open.
pub proof fn lemma_step_bracketed<P>(m: GestureMode<P>, inside: Set<PointerID>, ev: PointerInput<P>)
    requires
        mode_inv(m),
    ensures
        bracketed(bracket_of(m), gesture_step(m, inside, ev).2, bracket_of(gesture_step(m, inside, ev).0)),
{
    reveal_with_fuel(bracketed, 4);
    let r = gesture_step(m, inside, ev);
    let hover = sole_hover(inside, ev.ptr, ev.offset);
    lemma_sole_hover_free(inside, ev.ptr, ev.offset);
    let evs = r.2;
    if evs.len() > 0 {
        assert(evs.drop_first().len() == evs.len() - 1);
    }
    match ev.kind {
        PointerEventKind::Up | PointerEventKind::Cancel => {
            match m {
                GestureMode::Down(p, started) => {
                    if ev.ptr == p && ev.kind == PointerEventKind::Up {
                        assert((seq![GestureEvent::Click(started)] + hover).drop_first() =~= hover);
                    }
                },
                GestureMode::Dragging(p, _) => {
                    if ev.ptr == p {
                        let first = if ev.kind == PointerEventKind::Cancel { GestureEvent::DragCancel } else { GestureEvent::DragDone(ev.offset) };
                        assert((seq![first] + hover).drop_first() =~= hover);
                    }
                },
                GestureMode::TouchScroll(_, _) => {
                    assert(seq![GestureEvent::<P>::ScrollReset, GestureEvent::<P>::ScrollDone].drop_first() =~= seq![GestureEvent::<P>::ScrollDone]);
                    assert(seq![GestureEvent::<P>::ScrollDone].drop_first() =~= Seq::<GestureEvent<P>>::empty());
                },
                GestureMode::MouseScroll(p, _) => {
                    if ev.ptr == p {
                        let two = seq![GestureEvent::<P>::ScrollReset, GestureEvent::<P>::ScrollDone] + hover;
                        assert(two.drop_first() =~= seq![GestureEvent::<P>::ScrollDone] + hover);
                        assert((seq![GestureEvent::<P>::ScrollDone] + hover).drop_first() =~= hover);
                    }
                },
                _ => {},
            }
        },
        PointerEventKind::Move => {
            match m {
                GestureMode::Down(p, started) => {
                    if ev.ptr == p && ev.past_drag_threshold {
                        let two = seq![GestureEvent::DragStart(started), GestureEvent::DragMove(ev.offset)];
                        assert(two.drop_first() =~= seq![GestureEvent::DragMove(ev.offset)]);
                        assert(two.drop_first().drop_first() =~= Seq::<GestureEvent<P>>::empty());
                    }
                },
                _ => {
                    if evs.len() > 0 {
                        assert(evs.drop_first() =~= Seq::<GestureEvent<P>>::empty());
                    }
                },
            }
        },
        PointerEventKind::Down => {
            if evs.len() == 2 {
                assert(evs.drop_first() =~= seq![evs[1]]);
                assert(evs.drop_first().drop_first() =~= Seq::<GestureEvent<P>>::empty());
            } else if evs.len() == 1 {
                assert(evs.drop_first() =~= Seq::<GestureEvent<P>>::empty());
            }
        },
        _ => {
            if evs.len() > 0 {
                assert(evs.drop_first() =~= Seq::<GestureEvent<P>>::empty());
            }
        },
    }
}

/// A resize closes whatever drag or scroll is open.
pub proof fn lemma_resize_bracketed<P>(m: GestureMode<P>)
    ensures
        bracketed(bracket_of(m), resize_step(m).1, bracket_of(resize_step(m).0)),
        bracket_of(resize_step(m).0) == Bracket::Free,
{
    reveal_with_fuel(bracketed, 2);
    let evs = resize_step(m).1;
    if evs.len() > 0 {
        assert(evs.drop_first() =~= Seq::<GestureEvent<P>>::empty());
    }
}

/// A call on the recognizer: a pointer event, or a resize of the drawing surface.
#[derive(Clone, Copy, Debug)]
pub enum GestureCall<P> {
    Pointer(PointerInput<P>),
    Resize,
}

/// The mode, pointers over the surface and all events reported, in order,
/// after a sequence of calls.
pub open spec fn run_calls<P>(m: GestureMode<P>, inside: Set<PointerID>, calls: Seq<GestureCall<P>>) -> (GestureMode<P>, Set<PointerID>, Seq<GestureEvent<P>>)
    decreases calls.len(),
{
    if calls.len() == 0 {
        (m, inside, seq![])
    } else {
        let (m1, in1, e1) = match calls[0] {
            GestureCall::Pointer(ev) => gesture_step(m, inside, ev),
            GestureCall::Resize => { let r = resize_step(m); (r.0, inside, r.1) },
        };
        let rest = run_calls(m1, in1, calls.drop_first());
        (rest.0, rest.1, e1 + rest.2)
    }
}

/// Over any sequence of pointer events and resizes, the reported events are
/// well bracketed: drags and scrolls open and close properly, never overlap,
/// and no hover or click comes inside one. From a new recognizer the stream
/// starts with nothing open.
pub proof fn lemma_streams_bracketed<P>(m: GestureMode<P>, inside: Set<PointerID>, calls: Seq<GestureCall<P>>)
    requires
        mode_inv(m),
    ensures
        bracketed(bracket_of(m), run_calls(m, inside, calls).2, bracket_of(run_calls(m, inside, calls).0)),
        mode_inv(run_calls(m, inside, calls).0),
    decreases calls.len(),
{
    if calls.len() == 0 {
    } else {
        let (m1, in1, e1) = match calls[0] {
            GestureCall::Pointer(ev) => gesture_step(m, inside, ev),
            GestureCall::Resize => { let r = resize_step(m); (r.0, inside, r.1) },
        };
        match calls[0] {
            GestureCall::Pointer(ev) => {
                lemma_step_bracketed(m, inside, ev);
                lemma_step_keeps_inv(m, inside, ev);
            },
            GestureCall::Resize => {
                lemma_resize_bracketed(m);
                lemma_resize_settles(m);
            },
        }
        lemma_streams_bracketed(m1, in1, calls.drop_first());
        let rest = run_calls(m1, in1, calls.drop_first());
        lemma_bracketed_concat(bracket_of(m), e1, bracket_of(m1), rest.2, bracket_of(rest.0));
    }
}

/// While the recognizer waits for pressed pointers to lift, a pointer event
/// reports nothing; it becomes idle exactly when the last of those pointers
/// is released or cancelled, and otherwise goes on waiting.
pub proof fn lemma_settle_step<P>(s: Set<PointerID>, inside: Set<PointerID>, ev: PointerInput<P>)
    requires
        mode_inv(GestureMode::<P>::WaitForSettle(s)),
    ensures
        gesture_step(GestureMode::WaitForSettle(s), inside, ev).2 == Seq::<GestureEvent<P>>::empty(),
        gesture_step(GestureMode::WaitForSettle(s), inside, ev).0 is Idle <==> ((ev.kind == PointerEventKind::Up || ev.kind == PointerEventKind::Cancel) && s.remove(ev.ptr).len() == 0),
        gesture_step(GestureMode::WaitForSettle(s), inside, ev).0 is Idle || gesture_step(GestureMode::WaitForSettle(s), inside, ev).0 is WaitForSettle,
{
    assert(seq![] =~= Seq::<GestureEvent<P>>::empty());
    if ev.kind == PointerEventKind::Down {
        assert(s.insert(ev.ptr).contains(ev.ptr));
    }
}

/// Whether every call is a pointer event.
pub open spec fn all_pointer_calls<P>(calls: Seq<GestureCall<P>>) -> bool {
    forall|i: int| 0 <= i < calls.len() ==> #[trigger] calls[i] is Pointer
}

/// Once the recognizer waits for pressed pointers to lift (after a press of
/// another button, or a gesture ended by a resize, a cancel or a further
/// press), pointer events report nothing for as long as it waits; it then
/// either still waits or, with the release of the last of those pointers, is idle.
pub proof fn lemma_settle_run<P>(s: Set<PointerID>, inside: Set<PointerID>, calls: Seq<GestureCall<P>>)
    requires
        mode_inv(GestureMode::<P>::WaitForSettle(s)),
        all_pointer_calls(calls),
        forall|j: int| 0 <= j < calls.len() ==> (#[trigger] run_calls(GestureMode::WaitForSettle(s), inside, calls.take(j))).0 is WaitForSettle,
    ensures
        run_calls(GestureMode::WaitForSettle(s), inside, calls).2 == Seq::<GestureEvent<P>>::empty(),
        run_calls(GestureMode::WaitForSettle(s), inside, calls).0 is WaitForSettle
            || run_calls(GestureMode::WaitForSettle(s), inside, calls).0 is Idle,
    decreases calls.len(),
{
    let m = GestureMode::<P>::WaitForSettle(s);
    if calls.len() == 0 {
        assert(seq![] =~= Seq::<GestureEvent<P>>::empty());
    } else {
        assert(calls[0] is Pointer);
        let ev = calls[0]->Pointer_0;
        lemma_settle_step(s, inside, ev);
        lemma_step_keeps_inv(m, inside, ev);
        let r = gesture_step(m, inside, ev);
        let rest = calls.drop_first();
        if rest.len() == 0 {
            assert(run_calls(r.0, r.1, rest).2 =~= Seq::<GestureEvent<P>>::empty());
            assert(r.2 + run_calls(r.0, r.1, rest).2 =~= Seq::<GestureEvent<P>>::empty());
        } else {
            // the mode after the first call is the one the prefix of length one leaves
            let t1 = calls.take(1);
            assert(t1[0] == calls[0]);
            assert(t1.len() == 1);
            assert(t1.drop_first() =~= Seq::<GestureCall<P>>::empty());
            assert(run_calls(r.0, r.1, t1.drop_first()).0 == r.0);
            assert(calls[0] == GestureCall::Pointer(ev));
            assert(run_calls(m, inside, t1).0 == r.0);
            assert(run_calls(m, inside, t1).0 is WaitForSettle);
            let s1 = r.0->WaitForSettle_0;
            assert forall|i: int| 0 <= i < rest.len() implies #[trigger] rest[i] is Pointer by {
                assert(rest[i] == calls[i + 1]);
            }
            assert forall|j: int| 0 <= j < rest.len() implies (#[trigger] run_calls(GestureMode::WaitForSettle(s1), r.1, rest.take(j))).0 is WaitForSettle by {
                let tj = calls.take(j + 1);
                assert(tj.len() == j + 1);
                assert(tj[0] == calls[0]);
                assert(tj.drop_first() =~= rest.take(j));
                assert(run_calls(m, inside, tj).0 == run_calls(r.0, r.1, rest.take(j)).0);
                assert(run_calls(m, inside, tj).0 is WaitForSettle);
            }
            lemma_settle_run(s1, r.1, rest);
            assert(r.2 + run_calls(r.0, r.1, rest).2 =~= Seq::<GestureEvent<P>>::empty());
        }
    }
}

/// During a two-contact scroll, a move of one contact sets that contact's
/// current offset to the move's offset, keeps where it started, leaves the
/// other contact as it was, and reports the scroll with both contacts. A move
/// of any other pointer changes nothing and reports the scroll as it stands.
pub proof fn lemma_touch_move_updates_moved_contact<P>(a: TouchScrollState<P>, b: TouchScrollState<P>, inside: Set<PointerID>, ev: PointerInput<P>)
    requires
        a.ptr != b.ptr,
        ev.kind == PointerEventKind::Move,
    ensures
        ({
            let r = gesture_step(GestureMode::TouchScroll(a, b), inside, ev);
            &&& r.1 == inside
            &&& r.0 matches GestureMode::TouchScroll(a2, b2) && {
                &&& a2.ptr == a.ptr && a2.started == a.started
                &&& b2.ptr == b.ptr && b2.started == b.started
                &&& a2.current == (if ev.ptr == a.ptr { ev.offset } else { a.current })
                &&& b2.current == (if ev.ptr == b.ptr { ev.offset } else { b.current })
                &&& r.2 == seq![GestureEvent::TouchScrollMove(a2, b2)]
            }
        }),
{
}

} // verus!
