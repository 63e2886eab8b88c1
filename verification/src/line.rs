use vstd::prelude::*;

verus! {

/// The end of an open spline that new points are added to.
#[derive(Clone, Copy, Debug, PartialEq, Eq, Structural)]
pub enum ExtendEnd {
    Start,
    End,
}

/// What the spline editor is doing.
#[derive(Clone, Copy, Debug, PartialEq, Eq, Structural)]
pub enum SplineEditMode {
    /// Points can be hovered and dragged.
    Refine,
    /// The control point with this index follows the pointer.
    Dragging(usize),
    /// New points are added at one end.
    Extend(ExtendEnd),
}

/// A mouse button.
#[derive(Clone, Copy, Debug, PartialEq, Eq, Structural)]
pub enum MouseButton {
    Left,
    Middle,
    Right,
}

/// A pointer gesture in world coordinates; `P` is a world position.
#[derive(Clone, Copy, Debug, PartialEq)]
pub enum WorldMouseEvent<P> {
    Out,
    Hover(P),
    Click(MouseButton, P),
    DragStart(MouseButton, P),
    DragMove(P),
    DragDone(MouseButton, P),
    DragCancel,
}

/// A change to the spline's control polygon. The flag of `InsertFirst` and
/// `Append` marks a point added with the right mouse button.
#[derive(Clone, Copy, Debug, PartialEq)]
pub enum LineEdit<P> {
    /// Move the control point with this index.
    SetPoint(usize, P),
    /// Add a control point before the first one.
    InsertFirst(P, bool),
    /// Add a control point after the last one.
    Append(P, bool),
    /// Join the last control point to the first.
    Close,
    /// Make the spline open.
    Open,
}

/// How a control-point handle is drawn.
#[derive(Clone, Copy, Debug, PartialEq, Eq, Structural)]
pub enum HandleLook {
    /// Highlighted, at full size.
    Highlighted,
    /// Plain, at full size.
    Normal,
    /// Plain, at half size.
    Small,
}

/// The editor's state besides the spline itself.
#[derive(Clone, Copy, Debug, PartialEq)]
pub struct SplineEditState<P> {
    pub closed_only: bool,
    pub mode: SplineEditMode,
    /// A position held by the pointer: a dragged point, or a point about to be added.
    pub held_point: Option<P>,
    /// The control point under the pointer.
    pub hover_index: Option<usize>,
}

/// `n - 1`, or nothing when `n` is zero.
pub open spec fn last_index(n: usize) -> Option<usize> {
    if n == 0 { None } else { Some((n - 1) as usize) }
}

/// The state back in refine mode with nothing hovered or held.
pub open spec fn refined<P>(st: SplineEditState<P>) -> SplineEditState<P> {
    SplineEditState { mode: SplineEditMode::Refine, hover_index: None, held_point: None, ..st }
}

/// The editor's answer to a pointer gesture: its next state and the edit to
/// make to the spline, given the control point `hit` under the gesture's
/// position and the number `n` of control points.
pub open spec fn edit_step<P>(st: SplineEditState<P>, ev: WorldMouseEvent<P>, hit: Option<usize>, n: usize) -> (SplineEditState<P>, Option<LineEdit<P>>) {
    match ev {
        WorldMouseEvent::Out => {
            let st2 = SplineEditState { hover_index: None, ..st };
            (if st.mode is Extend { SplineEditState { held_point: None, ..st2 } } else { st2 }, None)
        },
        WorldMouseEvent::Hover(p) => {
            if hit is None && st.mode is Extend {
                (SplineEditState { hover_index: None, held_point: Some(p), ..st }, None)
            } else if hit != st.hover_index {
                (SplineEditState { held_point: None, hover_index: hit, ..st }, None)
            } else {
                (st, None)
            }
        },
        WorldMouseEvent::Click(button, p) => {
            let right = button == MouseButton::Right;
            match st.mode {
                SplineEditMode::Refine => if hit == last_index(n) {
                    (SplineEditState { mode: SplineEditMode::Extend(ExtendEnd::End), ..st }, None)
                } else if hit == Some(0usize) {
                    (SplineEditState { mode: SplineEditMode::Extend(ExtendEnd::Start), ..st }, None)
                } else {
                    (st, None)
                },
                SplineEditMode::Dragging(_) => (st, None),
                SplineEditMode::Extend(ExtendEnd::Start) => if n >= 2 && hit == Some(0usize) {
                    (refined(st), None)
                } else if n >= 2 && hit == last_index(n) {
                    (refined(st), Some(LineEdit::Close))
                } else {
                    (st, Some(LineEdit::InsertFirst(p, right)))
                },
                SplineEditMode::Extend(ExtendEnd::End) => if n >= 2 && hit == last_index(n) {
                    (refined(st), None)
                } else if n >= 2 && hit == Some(0usize) {
                    (refined(st), Some(LineEdit::Close))
                } else {
                    (st, Some(LineEdit::Append(p, right)))
                },
            }
        },
        WorldMouseEvent::DragStart(_, p) => match st.mode {
            SplineEditMode::Refine => match hit {
                Some(i) => (SplineEditState { mode: SplineEditMode::Dragging(i), held_point: Some(p), ..st }, None),
                None => (st, None),
            },
            SplineEditMode::Dragging(_) => (st, None),
            SplineEditMode::Extend(_) => match hit {
                Some(i) => (SplineEditState { mode: SplineEditMode::Dragging(i), held_point: Some(p), ..st }, None),
                None => (SplineEditState { held_point: Some(p), ..st }, None),
            },
        },
        WorldMouseEvent::DragMove(p) => match st.mode {
            SplineEditMode::Refine => (st, None),
            _ => (SplineEditState { held_point: Some(p), ..st }, None),
        },
        WorldMouseEvent::DragDone(button, p) => {
            let right = button == MouseButton::Right;
            match st.mode {
                SplineEditMode::Refine => (st, None),
                SplineEditMode::Dragging(idx) => (refined(st), Some(LineEdit::SetPoint(idx, p))),
                SplineEditMode::Extend(ExtendEnd::Start) => (SplineEditState { held_point: None, ..st }, Some(LineEdit::InsertFirst(p, right))),
                SplineEditMode::Extend(ExtendEnd::End) => (SplineEditState { held_point: None, ..st }, Some(LineEdit::Append(p, right))),
            }
        },
        WorldMouseEvent::DragCancel => match st.mode {
            SplineEditMode::Refine => (st, None),
            SplineEditMode::Dragging(_) => (refined(st), None),
            SplineEditMode::Extend(_) => (SplineEditState { held_point: None, ..st }, None),
        },
    }
}

/// The edits that turn the stored spline into the one shown while editing:
/// a dragged point where the pointer holds it, a closing join under the
/// pointer, or a point about to be added.
pub open spec fn preview_edits<P>(st: SplineEditState<P>, n: usize) -> Seq<LineEdit<P>> {
    match st.mode {
        SplineEditMode::Refine => seq![],
        SplineEditMode::Dragging(idx) => match st.held_point {
            Some(p) => seq![LineEdit::SetPoint(idx, p)],
            None => seq![],
        },
        SplineEditMode::Extend(end) => match st.hover_index {
            Some(h) => if (end == ExtendEnd::Start && h == n - 1) || (end == ExtendEnd::End && h == 0) {
                seq![LineEdit::Close]
            } else {
                seq![]
            },
            None => match st.held_point {
                Some(p) => seq![LineEdit::Open, if end == ExtendEnd::Start { LineEdit::InsertFirst(p, false) } else { LineEdit::Append(p, false) }],
                None => seq![],
            },
        },
    }
}

/// The control point that is highlighted, and whether the others are drawn small.
pub open spec fn highlight<P>(st: SplineEditState<P>, n: usize) -> (Option<usize>, bool) {
    match st.mode {
        SplineEditMode::Refine => (st.hover_index, false),
        SplineEditMode::Dragging(idx) => (Some(idx), false),
        SplineEditMode::Extend(ExtendEnd::Start) => (Some(0usize), false),
        SplineEditMode::Extend(ExtendEnd::End) => (last_index(n), true),
    }
}

/// How the handle of control point `i` is drawn.
pub open spec fn handle_look<P>(st: SplineEditState<P>, n: usize, i: int) -> HandleLook {
    let (h, small) = highlight(st, n);
    if h == Some(i as usize) {
        HandleLook::Highlighted
    } else if small {
        HandleLook::Small
    } else {
        HandleLook::Normal
    }
}

fn same_index(a: Option<usize>, b: Option<usize>) -> (r: bool)
    ensures
        r == (a == b),
{
    match (a, b) {
        (Some(x), Some(y)) => x == y,
        (None, None) => true,
        _ => false,
    }
}

fn last_index_exec(n: usize) -> (r: Option<usize>)
    ensures
        r == last_index(n),
{
    if n == 0 { None } else { Some(n - 1) }
}

impl<P: Copy> SplineEditState<P> {
    /// A new editor for a spline with `num_points` control points: it starts
    /// by adding points at the end while the spline has fewer than two.
    pub fn new(num_points: usize, closed_only: bool) -> (s: Self)
        ensures
            s.closed_only == closed_only,
            s.mode == (if num_points < 2 { SplineEditMode::Extend(ExtendEnd::End) } else { SplineEditMode::Refine }),
            s.held_point is None,
            s.hover_index is None,
    {
        let start_mode = if num_points < 2 { SplineEditMode::Extend(ExtendEnd::End) } else { SplineEditMode::Refine };
        SplineEditState { closed_only, mode: start_mode, held_point: None, hover_index: None }
    }

    fn set_refine(&mut self)
        ensures
            *final(self) == refined(*old(self)),
    {
        self.mode = SplineEditMode::Refine;
        self.hover_index = None;
        self.held_point = None;
    }

    /// Handles a pointer gesture; `hit` is the control point under the
    /// gesture's position and `num_points` the number of control points.
    /// Returns the edit to make to the spline, if any. The edit never removes
    /// a control point; while a dragged point is a control point, the edit
    /// can be made and the dragged point stays a control point.
    pub fn handle_mouse(&mut self, ev: WorldMouseEvent<P>, hit: Option<usize>, num_points: usize) -> (r: Option<LineEdit<P>>)
        requires
            hit matches Some(h) ==> h < num_points,
        ensures
            (*final(self), r) == edit_step(*old(self), ev, hit, num_points),
            drag_in_range(*old(self), num_points as nat) ==> (r matches Some(e) ==> edit_fits(e, num_points as nat)),
            drag_in_range(*old(self), num_points as nat) ==> drag_in_range(*final(self), match r {
                Some(e) => edited_len(num_points as nat, e),
                None => num_points as nat,
            }),
            match r {
                Some(e) => edited_len(num_points as nat, e),
                None => num_points as nat,
            } >= num_points,
    {
        let n = num_points;
        match ev {
            WorldMouseEvent::Out => {
                self.hover_index = None;
                if let SplineEditMode::Extend(_) = self.mode {
                    self.held_point = None;
                }
                None
            },
            WorldMouseEvent::Hover(p) => {
                let extending = match self.mode { SplineEditMode::Extend(_) => true, _ => false };
                if hit.is_none() && extending {
                    self.hover_index = None;
                    self.held_point = Some(p);
                } else if !same_index(hit, self.hover_index) {
                    self.held_point = None;
                    self.hover_index = hit;
                }
                None
            },
            WorldMouseEvent::Click(button, p) => {
                let right = button == MouseButton::Right;
                match self.mode {
                    SplineEditMode::Refine => {
                        if same_index(hit, last_index_exec(n)) {
                            self.mode = SplineEditMode::Extend(ExtendEnd::End);
                        } else if same_index(hit, Some(0)) {
                            self.mode = SplineEditMode::Extend(ExtendEnd::Start);
                        }
                        None
                    },
                    SplineEditMode::Dragging(_) => None,
                    SplineEditMode::Extend(ExtendEnd::Start) => {
                        if n >= 2 && same_index(hit, Some(0)) {
                            self.set_refine();
                            None
                        } else if n >= 2 && same_index(hit, Some(n - 1)) {
                            self.set_refine();
                            Some(LineEdit::Close)
                        } else {
                            Some(LineEdit::InsertFirst(p, right))
                        }
                    },
                    SplineEditMode::Extend(ExtendEnd::End) => {
                        if n >= 2 && same_index(hit, Some(n - 1)) {
                            self.set_refine();
                            None
                        } else if n >= 2 && same_index(hit, Some(0)) {
                            self.set_refine();
                            Some(LineEdit::Close)
                        } else {
                            Some(LineEdit::Append(p, right))
                        }
                    },
                }
            },
            WorldMouseEvent::DragStart(_, p) => {
                match self.mode {
                    SplineEditMode::Refine => {
                        if let Some(i) = hit {
                            self.mode = SplineEditMode::Dragging(i);
                            self.held_point = Some(p);
                        }
                    },
                    SplineEditMode::Dragging(_) => {},
                    SplineEditMode::Extend(_) => {
                        if let Some(i) = hit {
                            self.mode = SplineEditMode::Dragging(i);
                        }
                        self.held_point = Some(p);
                    },
                }
                None
            },
            WorldMouseEvent::DragMove(p) => {
                match self.mode {
                    SplineEditMode::Refine => {},
                    _ => {
                        self.held_point = Some(p);
                    },
                }
                None
            },
            WorldMouseEvent::DragDone(button, p) => {
                let right = button == MouseButton::Right;
                match self.mode {
                    SplineEditMode::Refine => None,
                    SplineEditMode::Dragging(idx) => {
                        self.set_refine();
                        Some(LineEdit::SetPoint(idx, p))
                    },
                    SplineEditMode::Extend(ExtendEnd::Start) => {
                        self.held_point = None;
                        Some(LineEdit::InsertFirst(p, right))
                    },
                    SplineEditMode::Extend(ExtendEnd::End) => {
                        self.held_point = None;
                        Some(LineEdit::Append(p, right))
                    },
                }
            },
            WorldMouseEvent::DragCancel => {
                match self.mode {
                    SplineEditMode::Refine => {},
                    SplineEditMode::Dragging(_) => {
                        self.set_refine();
                    },
                    SplineEditMode::Extend(_) => {
                        self.held_point = None;
                    },
                }
                None
            },
        }
    }

    /// The edits that turn the stored spline, with `num_points` control
    /// points, into the spline shown while editing.
    pub fn preview_edits(&self, num_points: usize) -> (r: Vec<LineEdit<P>>)
        requires
            (self.mode == SplineEditMode::Extend(ExtendEnd::Start) && self.hover_index is Some) ==> num_points > 0,
        ensures
            r@ == preview_edits(*self, num_points),
    {
        let mut out = Vec::new();
        match self.mode {
            SplineEditMode::Refine => {},
            SplineEditMode::Dragging(idx) => {
                if let Some(p) = self.held_point {
                    out.push(LineEdit::SetPoint(idx, p));
                }
            },
            SplineEditMode::Extend(end) => {
                if let Some(h) = self.hover_index {
                    if (end == ExtendEnd::Start && h == num_points - 1) || (end == ExtendEnd::End && h == 0) {
                        out.push(LineEdit::Close);
                    }
                } else if let Some(p) = self.held_point {
                    out.push(LineEdit::Open);
                    match end {
                        ExtendEnd::Start => out.push(LineEdit::InsertFirst(p, false)),
                        ExtendEnd::End => out.push(LineEdit::Append(p, false)),
                    }
                }
            },
        }
        assert(out@ =~= preview_edits(*self, num_points));
        out
    }

    /// The dragged control point and where the pointer holds it, while a point is dragged.
    pub fn dragged_point(&self) -> (r: Option<(usize, P)>)
        ensures
            r == (match (self.mode, self.held_point) {
                (SplineEditMode::Dragging(idx), Some(p)) => Some((idx, p)),
                _ => None,
            }),
    {
        match (self.mode, self.held_point) {
            (SplineEditMode::Dragging(idx), Some(p)) => Some((idx, p)),
            _ => None,
        }
    }

    /// How each of the `num_points` control-point handles is drawn.
    pub fn handle_looks(&self, num_points: usize) -> (r: Vec<HandleLook>)
        ensures
            r.len() == num_points,
            forall|i: int| 0 <= i < num_points ==> r@[i] == handle_look(*self, num_points, i),
    {
        let (hilight, small) = match self.mode {
            SplineEditMode::Refine => (self.hover_index, false),
            SplineEditMode::Dragging(idx) => (Some(idx), false),
            SplineEditMode::Extend(ExtendEnd::Start) => (Some(0), false),
            SplineEditMode::Extend(ExtendEnd::End) => (last_index_exec(num_points), true),
        };
        let mut out: Vec<HandleLook> = Vec::new();
        let mut i: usize = 0;
        while i < num_points
            invariant
                i <= num_points,
                out.len() == i,
                (hilight, small) == highlight(*self, num_points),
                forall|j: int| 0 <= j < i ==> out@[j] == handle_look(*self, num_points, j),
            decreases num_points - i,
        {
            let look = if same_index(Some(i), hilight) {
                HandleLook::Highlighted
            } else if small {
                HandleLook::Small
            } else {
                HandleLook::Normal
            };
            out.push(look);
            i = i + 1;
        }
        out
    }
}

/// In refine mode no gesture edits the spline.
pub proof fn lemma_refine_never_edits<P>(st: SplineEditState<P>, ev: WorldMouseEvent<P>, hit: Option<usize>, n: usize)
    requires
        st.mode == SplineEditMode::Refine,
    ensures
        edit_step(st, ev, hit, n).1 is None,
{
}

/// Hovering, leaving, moving a drag and cancelling it never edit the spline.
pub proof fn lemma_passive_gestures_never_edit<P>(st: SplineEditState<P>, ev: WorldMouseEvent<P>, hit: Option<usize>, n: usize)
    requires
        ev is Out || ev is Hover || ev is DragMove || ev is DragCancel,
    ensures
        edit_step(st, ev, hit, n).1 is None,
{
}

/// While a control point is dragged, the only edit made is to move that point,
/// and it ends the drag.
pub proof fn lemma_drag_edits_only_dragged_point<P>(st: SplineEditState<P>, ev: WorldMouseEvent<P>, hit: Option<usize>, n: usize, idx: usize)
    requires
        st.mode == SplineEditMode::Dragging(idx),
    ensures
        match edit_step(st, ev, hit, n).1 {
            Some(e) => (e matches LineEdit::SetPoint(i, _) && i == idx) && edit_step(st, ev, hit, n).0 == refined(st),
            None => true,
        },
{
}

/// Grabbing control point `i` in refine mode and releasing it at `p` moves
/// that point to `p` and returns to refine mode with nothing hovered or held.
pub proof fn lemma_drag_moves_point<P>(st: SplineEditState<P>, b0: MouseButton, p0: P, b1: MouseButton, p: P, i: usize, n: usize)
    requires
        st.mode == SplineEditMode::Refine,
    ensures
        ({
            let s1 = edit_step(st, WorldMouseEvent::DragStart(b0, p0), Some(i), n);
            let s2 = edit_step(s1.0, WorldMouseEvent::DragDone(b1, p), None, n);
            &&& s1.0.mode == SplineEditMode::Dragging(i)
            &&& s2.1 == Some(LineEdit::SetPoint(i, p))
            &&& s2.0 == refined(st)
        }),
{
}

/// Closing the spline always ends the extension and returns to refine mode.
pub proof fn lemma_close_returns_to_refine<P>(st: SplineEditState<P>, ev: WorldMouseEvent<P>, hit: Option<usize>, n: usize)
    requires
        edit_step(st, ev, hit, n).1 == Some(LineEdit::<P>::Close),
    ensures
        edit_step(st, ev, hit, n).0 == refined(st),
        n >= 2,
{
}

/// The control polygon, points and whether it is closed, after an edit.
pub open spec fn apply_edit<P>(points: Seq<P>, closed: bool, e: LineEdit<P>) -> (Seq<P>, bool) {
    match e {
        LineEdit::SetPoint(i, p) => (points.update(i as int, p), closed),
        LineEdit::InsertFirst(p, _) => (seq![p] + points, closed),
        LineEdit::Append(p, _) => (points.push(p), closed),
        LineEdit::Close => (points, true),
        LineEdit::Open => (points, false),
    }
}

/// The number of control points after an edit to `n` of them.
pub open spec fn edited_len<P>(n: nat, e: LineEdit<P>) -> nat {
    match e {
        LineEdit::InsertFirst(_, _) => n + 1,
        LineEdit::Append(_, _) => n + 1,
        _ => n,
    }
}

/// Whether an edit can be made to a polygon of `n` points: a moved point exists.
pub open spec fn edit_fits<P>(e: LineEdit<P>, n: nat) -> bool {
    match e {
        LineEdit::SetPoint(i, _) => i < n,
        _ => true,
    }
}

/// Whether a dragged control point is one of the `n` control points.
pub open spec fn drag_in_range<P>(st: SplineEditState<P>, n: nat) -> bool {
    match st.mode {
        SplineEditMode::Dragging(i) => i < n,
        _ => true,
    }
}

/// Editing never loses control points and never refers to a missing one:
/// when the dragged point, if any, and the hit point, if any, are among the
/// control points, the edit a gesture makes can be made, the number of
/// control points does not fall, and the dragged point stays among them.
pub proof fn lemma_edit_keeps_drag_in_range<P>(st: SplineEditState<P>, ev: WorldMouseEvent<P>, hit: Option<usize>, points: Seq<P>, closed: bool)
    requires
        points.len() <= usize::MAX,
        drag_in_range(st, points.len()),
        hit matches Some(h) ==> h < points.len(),
    ensures
        ({
            let (st2, edit) = edit_step(st, ev, hit, points.len() as usize);
            let points2 = match edit {
                Some(e) => apply_edit(points, closed, e).0,
                None => points,
            };
            &&& edit matches Some(e) ==> edit_fits(e, points.len())
            &&& edit matches Some(e) ==> points2.len() == edited_len(points.len(), e)
            &&& points2.len() >= points.len()
            &&& drag_in_range(st2, points2.len())
        }),
{
}

/// While extending with at least two control points, clicking the end being
/// extended (the last point for `End`, the first for `Start`) finishes
/// extending: no edit, and back to refine mode with nothing hovered or held;
/// clicking the opposite end closes the spline and also finishes.
pub proof fn lemma_click_on_end_finishes_extension<P>(st: SplineEditState<P>, end: ExtendEnd, b: MouseButton, p: P, n: usize)
    requires
        st.mode == SplineEditMode::Extend(end),
        n >= 2,
    ensures
        ({
            let own: usize = if end == ExtendEnd::End { (n - 1) as usize } else { 0 };
            let other: usize = if end == ExtendEnd::End { 0 } else { (n - 1) as usize };
            &&& edit_step(st, WorldMouseEvent::Click(b, p), Some(own), n) == (refined(st), None::<LineEdit<P>>)
            &&& edit_step(st, WorldMouseEvent::Click(b, p), Some(other), n) == (refined(st), Some(LineEdit::<P>::Close))
        }),
{
}

/// While extending with at least two control points, hovering a point
/// previews exactly the closing edit when a click on that point would close
/// the spline (the opposite end: the first point for `End`, the last for
/// `Start`), and otherwise previews nothing.
pub proof fn lemma_hover_previews_click_close<P>(st: SplineEditState<P>, end: ExtendEnd, h: usize, b: MouseButton, p: P, n: usize)
    requires
        st.mode == SplineEditMode::Extend(end),
        st.hover_index == Some(h),
        n >= 2,
        h < n,
    ensures
        (edit_step(st, WorldMouseEvent::Click(b, p), Some(h), n).1 == Some(LineEdit::<P>::Close)) ==> preview_edits(st, n) == seq![LineEdit::<P>::Close],
        !(edit_step(st, WorldMouseEvent::Click(b, p), Some(h), n).1 == Some(LineEdit::<P>::Close)) ==> preview_edits(st, n) == Seq::<LineEdit<P>>::empty(),
        (end == ExtendEnd::End && h == 0) ==> preview_edits(st, n) == seq![LineEdit::<P>::Close],
        (end == ExtendEnd::Start && h == n - 1) ==> preview_edits(st, n) == seq![LineEdit::<P>::Close],
{
    assert(seq![] =~= Seq::<LineEdit<P>>::empty());
}

} // verus!
