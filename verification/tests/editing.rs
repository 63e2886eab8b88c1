use spline_test::line::{
    ExtendEnd, HandleLook, LineEdit, MouseButton, SplineEditMode, SplineEditState, WorldMouseEvent,
};

type St = SplineEditState<(i32, i32)>;

#[test]
fn new_editor_extends_short_splines() {
    let s: St = SplineEditState::new(1, false);
    assert_eq!(s.mode, SplineEditMode::Extend(ExtendEnd::End));
    let s: St = SplineEditState::new(2, true);
    assert_eq!(s.mode, SplineEditMode::Refine);
    assert!(s.closed_only);
    assert_eq!(s.held_point, None);
    assert_eq!(s.hover_index, None);
}

#[test]
fn refine_mode_never_edits() {
    let mut s: St = SplineEditState::new(3, false);
    assert_eq!(s.handle_mouse(WorldMouseEvent::Click(MouseButton::Left, (1, 1)), None, 3), None);
    assert_eq!(s.mode, SplineEditMode::Refine);
    assert_eq!(s.handle_mouse(WorldMouseEvent::DragDone(MouseButton::Left, (1, 1)), None, 3), None);
    assert_eq!(s.handle_mouse(WorldMouseEvent::Hover((1, 1)), Some(1), 3), None);
    assert_eq!(s.hover_index, Some(1));
    assert_eq!(s.handle_mouse(WorldMouseEvent::Out, None, 3), None);
    assert_eq!(s.hover_index, None);
}

#[test]
fn clicking_an_end_point_extends_from_it() {
    let mut s: St = SplineEditState::new(3, false);
    assert_eq!(s.handle_mouse(WorldMouseEvent::Click(MouseButton::Left, (0, 0)), Some(2), 3), None);
    assert_eq!(s.mode, SplineEditMode::Extend(ExtendEnd::End));
    let mut s: St = SplineEditState::new(3, false);
    assert_eq!(s.handle_mouse(WorldMouseEvent::Click(MouseButton::Left, (0, 0)), Some(0), 3), None);
    assert_eq!(s.mode, SplineEditMode::Extend(ExtendEnd::Start));
}

#[test]
fn extending_appends_and_closes() {
    let mut s: St = SplineEditState::new(0, false);
    assert_eq!(s.handle_mouse(WorldMouseEvent::Click(MouseButton::Left, (1, 2)), None, 0), Some(LineEdit::Append((1, 2), false)));
    assert_eq!(s.handle_mouse(WorldMouseEvent::Click(MouseButton::Right, (3, 2)), None, 1), Some(LineEdit::Append((3, 2), true)));
    assert_eq!(s.handle_mouse(WorldMouseEvent::Hover((7, 7)), None, 2), None);
    assert_eq!(s.held_point, Some((7, 7)));
    assert_eq!(s.preview_edits(2), vec![LineEdit::Open, LineEdit::Append((7, 7), false)]);
    // clicking the first point closes the spline
    assert_eq!(s.handle_mouse(WorldMouseEvent::Click(MouseButton::Left, (1, 2)), Some(0), 2), Some(LineEdit::Close));
    assert_eq!(s.mode, SplineEditMode::Refine);
    assert_eq!(s.held_point, None);
    assert_eq!(s.hover_index, None);
}

#[test]
fn extending_the_start_inserts_first() {
    let mut s = SplineEditState { closed_only: false, mode: SplineEditMode::Extend(ExtendEnd::Start), held_point: None, hover_index: None };
    assert_eq!(s.handle_mouse(WorldMouseEvent::Click(MouseButton::Left, (4, 4)), None, 3), Some(LineEdit::InsertFirst((4, 4), false)));
    assert_eq!(s.handle_mouse(WorldMouseEvent::DragDone(MouseButton::Right, (5, 4)), None, 4), Some(LineEdit::InsertFirst((5, 4), true)));
    assert_eq!(s.handle_mouse(WorldMouseEvent::Click(MouseButton::Left, (4, 4)), Some(0), 5), None);
    assert_eq!(s.mode, SplineEditMode::Refine);
}

#[test]
fn hovering_the_far_end_previews_closing() {
    let s = SplineEditState { closed_only: false, mode: SplineEditMode::Extend(ExtendEnd::Start), held_point: Some((1, 1)), hover_index: Some(3) };
    assert_eq!(s.preview_edits(4), vec![LineEdit::Close]);
    let s = SplineEditState { closed_only: false, mode: SplineEditMode::Extend(ExtendEnd::Start), held_point: Some((1, 1)), hover_index: None };
    assert_eq!(s.preview_edits(4), vec![LineEdit::Open, LineEdit::InsertFirst((1, 1), false)]);
}

#[test]
fn dragging_moves_the_grabbed_point() {
    let mut s: St = SplineEditState::new(4, false);
    assert_eq!(s.handle_mouse(WorldMouseEvent::DragStart(MouseButton::Left, (0, 0)), Some(2), 4), None);
    assert_eq!(s.mode, SplineEditMode::Dragging(2));
    assert_eq!(s.handle_mouse(WorldMouseEvent::DragMove((3, 3)), None, 4), None);
    assert_eq!(s.dragged_point(), Some((2, (3, 3))));
    assert_eq!(s.preview_edits(4), vec![LineEdit::SetPoint(2, (3, 3))]);
    assert_eq!(s.handle_looks(4), vec![HandleLook::Normal, HandleLook::Normal, HandleLook::Highlighted, HandleLook::Normal]);
    assert_eq!(s.handle_mouse(WorldMouseEvent::DragDone(MouseButton::Left, (4, 4)), None, 4), Some(LineEdit::SetPoint(2, (4, 4))));
    assert_eq!(s.mode, SplineEditMode::Refine);
    assert_eq!(s.dragged_point(), None);
}

#[test]
fn cancelled_drag_leaves_the_spline() {
    let mut s: St = SplineEditState::new(4, false);
    s.handle_mouse(WorldMouseEvent::DragStart(MouseButton::Left, (0, 0)), Some(1), 4);
    assert_eq!(s.handle_mouse(WorldMouseEvent::DragCancel, None, 4), None);
    assert_eq!(s.mode, SplineEditMode::Refine);
    assert_eq!(s.held_point, None);
}

#[test]
fn handles_shrink_while_extending_the_end() {
    let s: St = SplineEditState::new(0, false);
    assert_eq!(s.handle_looks(3), vec![HandleLook::Small, HandleLook::Small, HandleLook::Highlighted]);
    assert_eq!(s.handle_looks(0), vec![]);
    let s = SplineEditState { closed_only: false, mode: SplineEditMode::Refine, held_point: None::<(i32, i32)>, hover_index: Some(0) };
    assert_eq!(s.handle_looks(2), vec![HandleLook::Highlighted, HandleLook::Normal]);
}

// Applies an edit to a control polygon as the spline container does.
fn apply(points: &mut Vec<(i32, i32)>, closed: &mut bool, e: LineEdit<(i32, i32)>) {
    match e {
        LineEdit::SetPoint(i, p) => points[i] = p,
        LineEdit::InsertFirst(p, _) => points.insert(0, p),
        LineEdit::Append(p, _) => points.push(p),
        LineEdit::Close => *closed = true,
        LineEdit::Open => *closed = false,
    }
}

#[test]
fn edits_never_lose_points_or_drag_a_missing_one() {
    let mut points: Vec<(i32, i32)> = Vec::new();
    let mut closed = false;
    let mut s: St = SplineEditState::new(0, false);
    let mut seed: u32 = 99;
    for step in 0..2000 {
        seed = seed.wrapping_mul(1664525).wrapping_add(1013904223);
        let p = (step, -step);
        let button = if (seed >> 3) % 2 == 0 { MouseButton::Left } else { MouseButton::Right };
        let ev = match (seed >> 8) % 7 {
            0 => WorldMouseEvent::Out,
            1 => WorldMouseEvent::Hover(p),
            2 => WorldMouseEvent::Click(button, p),
            3 => WorldMouseEvent::DragStart(button, p),
            4 => WorldMouseEvent::DragMove(p),
            5 => WorldMouseEvent::DragDone(button, p),
            _ => WorldMouseEvent::DragCancel,
        };
        let hit = if points.is_empty() || (seed >> 16) % 3 == 0 { None } else { Some(((seed >> 18) as usize) % points.len()) };
        let before = points.len();
        if let Some(e) = s.handle_mouse(ev, hit, points.len()) {
            apply(&mut points, &mut closed, e);
        }
        assert!(points.len() >= before);
        if let SplineEditMode::Dragging(i) = s.mode {
            assert!(i < points.len());
        }
    }
}
