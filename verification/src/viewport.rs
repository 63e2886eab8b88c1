use vstd::prelude::*;

verus! {

/// The viewport shown and, during a scroll gesture, the viewport at the
/// gesture's start. `V` is a viewport window.
#[derive(Clone, Copy, Debug)]
pub struct ViewportScroller<V> {
    pub current_view: V,
    pub scroll_start: Option<V>,
}

impl<V: Copy> ViewportScroller<V> {
    /// A scroller showing `view`, with no scroll in progress.
    pub fn new(view: V) -> (s: Self)
        ensures
            s.current_view == view,
            s.scroll_start is None,
    {
        ViewportScroller { current_view: view, scroll_start: None }
    }

    /// A scroll gesture starts from the view shown now.
    pub fn begin_scroll(&mut self)
        ensures
            final(self).current_view == old(self).current_view,
            final(self).scroll_start == Some(old(self).current_view),
    {
        self.scroll_start = Some(self.current_view);
    }

    /// The view that a scroll in progress is measured from.
    pub fn scroll_origin(&self) -> (r: Option<V>)
        ensures
            r == self.scroll_start,
    {
        self.scroll_start
    }

    /// Shows `view`, the scroll origin moved by the gesture so far; the origin stays.
    pub fn scroll_to(&mut self, view: V)
        requires
            old(self).scroll_start is Some,
        ensures
            final(self).current_view == view,
            final(self).scroll_start == old(self).scroll_start,
    {
        self.current_view = view;
    }

    /// The scroll gesture is over.
    pub fn end_scroll(&mut self)
        ensures
            final(self).current_view == old(self).current_view,
            final(self).scroll_start is None,
    {
        self.scroll_start = None;
    }

    /// Shows `resized`, the current view fitted to a new device size; a
    /// scroll in progress is abandoned.
    pub fn handle_resize(&mut self, resized: V)
        ensures
            final(self).current_view == resized,
            final(self).scroll_start is None,
    {
        self.current_view = resized;
        self.scroll_start = None;
    }
}

/// A pointer gesture in clip space; `C` is a clip-space position and `Z` a zoom factor.
#[derive(Clone, Copy, Debug, PartialEq)]
pub enum ClipGesture<C, Z> {
    Out,
    Hover(C),
    Click(C),
    /// Drag begun at the hit location.
    DragStart(C),
    /// Drag moved to the current location.
    DragMove(C),
    DragDone(C),
    DragCancel,
    ScrollStart,
    /// Zoom and translation relative to the scroll start, acting on the clip space at that start.
    ScrollMove(Z, C),
    ScrollDone,
}

/// A pointer gesture on the world; its position is still in the clip space
/// of the view shown, for the caller to map to world space.
#[derive(Clone, Copy, Debug, PartialEq)]
pub enum WorldMouseEvent<C> {
    Out,
    Hover(C),
    Click(C),
    DragStart(C),
    DragMove(C),
    DragDone(C),
    DragCancel,
}

/// What a gesture asks of the scroller's owner.
#[derive(Clone, Copy, Debug, PartialEq)]
pub enum ScrollerOutcome<C, Z, V> {
    /// Nothing.
    Nothing,
    /// Report this pointer gesture to the world.
    Report(WorldMouseEvent<C>),
    /// Show the scroll origin `V` moved by zoom `Z` and translation `C`; the view moves.
    Rescroll(V, Z, C),
}

/// The scroll origin after a gesture, and what the gesture asks for.
pub open spec fn scroller_step<C, Z, V>(current: V, start: Option<V>, ev: ClipGesture<C, Z>) -> (Option<V>, ScrollerOutcome<C, Z, V>) {
    match ev {
        ClipGesture::Out => (start, ScrollerOutcome::Report(WorldMouseEvent::Out)),
        ClipGesture::Hover(c) => (start, ScrollerOutcome::Report(WorldMouseEvent::Hover(c))),
        ClipGesture::Click(c) => (start, ScrollerOutcome::Report(WorldMouseEvent::Click(c))),
        ClipGesture::DragStart(c) => (start, ScrollerOutcome::Report(WorldMouseEvent::DragStart(c))),
        ClipGesture::DragMove(c) => (start, ScrollerOutcome::Report(WorldMouseEvent::DragMove(c))),
        ClipGesture::DragDone(c) => (start, ScrollerOutcome::Report(WorldMouseEvent::DragDone(c))),
        ClipGesture::DragCancel => (start, ScrollerOutcome::Report(WorldMouseEvent::DragCancel)),
        ClipGesture::ScrollStart => (Some(current), ScrollerOutcome::Nothing),
        ClipGesture::ScrollMove(z, t) => match start {
            Some(s) => (start, ScrollerOutcome::Rescroll(s, z, t)),
            None => (start, ScrollerOutcome::Nothing),
        },
        ClipGesture::ScrollDone => (None, ScrollerOutcome::Nothing),
    }
}

impl<V: Copy> ViewportScroller<V> {
    /// Handles a clip-space gesture: pointer gestures are reported, scroll
    /// gestures start, move or end the scroll. The view shown does not change
    /// here; a `Rescroll` asks the caller to show the moved view with `scroll_to`.
    pub fn handle_gesture<C: Copy, Z: Copy>(&mut self, ev: ClipGesture<C, Z>) -> (r: ScrollerOutcome<C, Z, V>)
        ensures
            final(self).current_view == old(self).current_view,
            (final(self).scroll_start, r) == scroller_step(old(self).current_view, old(self).scroll_start, ev),
    {
        match ev {
            ClipGesture::Out => ScrollerOutcome::Report(WorldMouseEvent::Out),
            ClipGesture::Hover(c) => ScrollerOutcome::Report(WorldMouseEvent::Hover(c)),
            ClipGesture::Click(c) => ScrollerOutcome::Report(WorldMouseEvent::Click(c)),
            ClipGesture::DragStart(c) => ScrollerOutcome::Report(WorldMouseEvent::DragStart(c)),
            ClipGesture::DragMove(c) => ScrollerOutcome::Report(WorldMouseEvent::DragMove(c)),
            ClipGesture::DragDone(c) => ScrollerOutcome::Report(WorldMouseEvent::DragDone(c)),
            ClipGesture::DragCancel => ScrollerOutcome::Report(WorldMouseEvent::DragCancel),
            ClipGesture::ScrollStart => {
                self.begin_scroll();
                ScrollerOutcome::Nothing
            },
            ClipGesture::ScrollMove(z, t) => match self.scroll_start {
                Some(s) => ScrollerOutcome::Rescroll(s, z, t),
                None => ScrollerOutcome::Nothing,
            },
            ClipGesture::ScrollDone => {
                self.end_scroll();
                ScrollerOutcome::Nothing
            },
        }
    }
}

/// The view moves exactly on a scroll move during a scroll, and then it moves
/// from the view where that scroll began; every gesture other than a scroll
/// gesture is reported, and no scroll gesture is.
pub proof fn lemma_scroll_moves_view<C, Z, V>(current: V, start: Option<V>, ev: ClipGesture<C, Z>)
    ensures
        (scroller_step(current, start, ev).1 is Rescroll) <==> (ev is ScrollMove && start is Some),
        scroller_step(current, start, ev).1 matches ScrollerOutcome::Rescroll(s, _, _) ==> start == Some(s),
        (scroller_step(current, start, ev).1 is Report) <==> !(ev is ScrollStart || ev is ScrollMove || ev is ScrollDone),
{
}

/// Every pointer gesture is reported to the world as the event of the same
/// kind at the same position, whether or not a scroll is in progress, and
/// leaves the scroll state as it was.
pub proof fn lemma_pointer_gestures_reported_as_is<C, Z, V>(current: V, start: Option<V>, c: C)
    ensures
        scroller_step(current, start, ClipGesture::<C, Z>::Out) == (start, ScrollerOutcome::<C, Z, V>::Report(WorldMouseEvent::Out)),
        scroller_step(current, start, ClipGesture::<C, Z>::Hover(c)) == (start, ScrollerOutcome::<C, Z, V>::Report(WorldMouseEvent::Hover(c))),
        scroller_step(current, start, ClipGesture::<C, Z>::Click(c)) == (start, ScrollerOutcome::<C, Z, V>::Report(WorldMouseEvent::Click(c))),
        scroller_step(current, start, ClipGesture::<C, Z>::DragStart(c)) == (start, ScrollerOutcome::<C, Z, V>::Report(WorldMouseEvent::DragStart(c))),
        scroller_step(current, start, ClipGesture::<C, Z>::DragMove(c)) == (start, ScrollerOutcome::<C, Z, V>::Report(WorldMouseEvent::DragMove(c))),
        scroller_step(current, start, ClipGesture::<C, Z>::DragDone(c)) == (start, ScrollerOutcome::<C, Z, V>::Report(WorldMouseEvent::DragDone(c))),
        scroller_step(current, start, ClipGesture::<C, Z>::DragCancel) == (start, ScrollerOutcome::<C, Z, V>::Report(WorldMouseEvent::DragCancel)),
{
}

} // verus!
