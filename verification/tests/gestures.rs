use spline_test::pointer::{
    GestureEvent, GestureRecognizer, PointerEventKind, PointerID, PointerInput, PointerSet,
    TouchScrollState,
};

fn input(kind: PointerEventKind, ptr: i32, offset: (i32, i32), buttons: u16, far: bool) -> PointerInput<(i32, i32)> {
    PointerInput { kind, ptr: PointerID(ptr), offset, buttons, past_drag_threshold: far }
}

fn ev(r: &mut GestureRecognizer<(i32, i32)>, kind: PointerEventKind, ptr: i32, offset: (i32, i32), buttons: u16, far: bool) -> Vec<GestureEvent<(i32, i32)>> {
    r.process_event(input(kind, ptr, offset, buttons, far))
}

#[test]
fn pointer_set_keeps_each_pointer_once() {
    let mut s = PointerSet::new();
    assert!(s.is_empty());
    s.insert(PointerID(3));
    s.insert(PointerID(3));
    s.insert(PointerID(5));
    assert_eq!(s.len(), 2);
    assert!(s.contains(PointerID(5)));
    s.remove(PointerID(3));
    assert_eq!(s.len(), 1);
    assert!(s.is_only(PointerID(5)));
    assert!(!s.contains(PointerID(3)));
    s.remove(PointerID(9));
    assert_eq!(s.len(), 1);
    let t = PointerSet::triple(PointerID(1), PointerID(2), PointerID(1));
    assert_eq!(t.len(), 2);
}

#[test]
fn enter_hovers_and_second_pointer_is_out() {
    let mut r = GestureRecognizer::new();
    assert_eq!(ev(&mut r, PointerEventKind::Enter, 1, (10, 20), 0, false), vec![GestureEvent::Hover((10, 20))]);
    assert_eq!(ev(&mut r, PointerEventKind::Move, 1, (11, 20), 0, false), vec![GestureEvent::Hover((11, 20))]);
    assert_eq!(ev(&mut r, PointerEventKind::Enter, 2, (1, 1), 0, false), vec![GestureEvent::Out]);
    assert_eq!(ev(&mut r, PointerEventKind::Move, 1, (12, 20), 0, false), vec![]);
    assert_eq!(ev(&mut r, PointerEventKind::Leave, 2, (1, 1), 0, false), vec![]);
    assert_eq!(ev(&mut r, PointerEventKind::Leave, 1, (1, 1), 0, false), vec![GestureEvent::Out]);
    assert_eq!(ev(&mut r, PointerEventKind::Other, 1, (1, 1), 0, false), vec![]);
}

#[test]
fn press_and_release_is_a_click_at_the_press() {
    let mut r = GestureRecognizer::new();
    ev(&mut r, PointerEventKind::Enter, 7, (5, 5), 0, false);
    assert_eq!(ev(&mut r, PointerEventKind::Down, 7, (5, 6), 1, false), vec![GestureEvent::Hover((5, 6))]);
    assert_eq!(r.drag_origin(), Some((5, 6)));
    assert_eq!(ev(&mut r, PointerEventKind::Move, 7, (6, 6), 1, false), vec![]);
    assert_eq!(
        ev(&mut r, PointerEventKind::Up, 7, (6, 7), 0, false),
        vec![GestureEvent::Click((5, 6)), GestureEvent::Hover((6, 7))]
    );
    assert_eq!(r.drag_origin(), None);
    assert_eq!(r.process_wheel(-1, (3, 3)), Some((-1, (3, 3))));
}

#[test]
fn moving_far_starts_a_drag_from_the_press() {
    let mut r = GestureRecognizer::new();
    ev(&mut r, PointerEventKind::Down, 1, (0, 0), 1, false);
    assert_eq!(
        ev(&mut r, PointerEventKind::Move, 1, (9, 0), 1, true),
        vec![GestureEvent::DragStart((0, 0)), GestureEvent::DragMove((9, 0))]
    );
    assert_eq!(r.process_wheel(1, (0, 0)), None);
    assert_eq!(ev(&mut r, PointerEventKind::Move, 2, (9, 9), 0, true), vec![]);
    assert_eq!(ev(&mut r, PointerEventKind::Move, 1, (10, 0), 1, true), vec![GestureEvent::DragMove((10, 0))]);
    // not the only pointer inside: no hover after the drag
    assert_eq!(ev(&mut r, PointerEventKind::Up, 1, (11, 0), 0, false), vec![GestureEvent::DragDone((11, 0))]);
    assert_eq!(r.process_wheel(1, (0, 0)), Some((1, (0, 0))));
}

#[test]
fn cancelled_drag_reports_cancel() {
    let mut r = GestureRecognizer::new();
    ev(&mut r, PointerEventKind::Enter, 1, (0, 0), 0, false);
    ev(&mut r, PointerEventKind::Down, 1, (0, 0), 1, false);
    ev(&mut r, PointerEventKind::Move, 1, (9, 0), 1, true);
    assert_eq!(
        ev(&mut r, PointerEventKind::Cancel, 1, (9, 1), 0, false),
        vec![GestureEvent::DragCancel, GestureEvent::Hover((9, 1))]
    );
}

#[test]
fn second_contact_starts_touch_scroll() {
    let mut r = GestureRecognizer::new();
    ev(&mut r, PointerEventKind::Down, 1, (0, 0), 1, false);
    assert_eq!(
        ev(&mut r, PointerEventKind::Down, 2, (10, 0), 1, false),
        vec![GestureEvent::Out, GestureEvent::ScrollStart]
    );
    let a = TouchScrollState { ptr: PointerID(1), started: (0, 0), current: (0, 0) };
    let b = TouchScrollState { ptr: PointerID(2), started: (10, 0), current: (20, 0) };
    assert_eq!(ev(&mut r, PointerEventKind::Move, 2, (20, 0), 1, false), vec![GestureEvent::TouchScrollMove(a, b)]);
    assert_eq!(ev(&mut r, PointerEventKind::Cancel, 1, (0, 0), 0, false), vec![GestureEvent::ScrollReset, GestureEvent::ScrollDone]);
    // the other contact must lift before anything new starts
    assert_eq!(ev(&mut r, PointerEventKind::Down, 3, (5, 5), 1, false), vec![]);
    assert_eq!(ev(&mut r, PointerEventKind::Up, 2, (5, 5), 0, false), vec![]);
    assert_eq!(r.process_wheel(1, (0, 0)), None);
    assert_eq!(ev(&mut r, PointerEventKind::Up, 3, (5, 5), 0, false), vec![]);
    assert_eq!(r.process_wheel(1, (0, 0)), Some((1, (0, 0))));
}

#[test]
fn middle_button_scrolls() {
    let mut r = GestureRecognizer::new();
    assert_eq!(ev(&mut r, PointerEventKind::Down, 4, (1, 1), 4, false), vec![GestureEvent::Out, GestureEvent::ScrollStart]);
    assert_eq!(ev(&mut r, PointerEventKind::Move, 4, (3, 4), 4, false), vec![GestureEvent::MouseScrollMove((1, 1), (3, 4))]);
    assert_eq!(ev(&mut r, PointerEventKind::Up, 4, (3, 4), 0, false), vec![GestureEvent::ScrollDone]);
}

#[test]
fn other_buttons_wait_to_settle() {
    let mut r = GestureRecognizer::new();
    assert_eq!(ev(&mut r, PointerEventKind::Down, 1, (1, 1), 2, false), vec![GestureEvent::Out]);
    assert_eq!(ev(&mut r, PointerEventKind::Move, 1, (2, 2), 2, true), vec![]);
    assert_eq!(ev(&mut r, PointerEventKind::Up, 1, (2, 2), 0, false), vec![]);
    assert_eq!(ev(&mut r, PointerEventKind::Down, 1, (2, 2), 1, false), vec![GestureEvent::Hover((2, 2))]);
}

#[test]
fn resize_ends_gestures() {
    let mut r: GestureRecognizer<(i32, i32)> = GestureRecognizer::new();
    assert_eq!(r.resize(), vec![GestureEvent::Out]);
    ev(&mut r, PointerEventKind::Down, 1, (0, 0), 1, false);
    ev(&mut r, PointerEventKind::Move, 1, (9, 0), 1, true);
    assert_eq!(r.resize(), vec![GestureEvent::DragCancel]);
    assert_eq!(r.resize(), vec![]);
    assert_eq!(ev(&mut r, PointerEventKind::Up, 1, (0, 0), 0, false), vec![]);
    assert_eq!(r.resize(), vec![GestureEvent::Out]);
}

#[test]
fn second_press_during_drag_cancels_it() {
    let mut r = GestureRecognizer::new();
    ev(&mut r, PointerEventKind::Down, 1, (0, 0), 1, false);
    ev(&mut r, PointerEventKind::Move, 1, (9, 0), 1, true);
    assert_eq!(ev(&mut r, PointerEventKind::Down, 2, (1, 1), 1, false), vec![GestureEvent::Out, GestureEvent::DragCancel]);
    assert_eq!(ev(&mut r, PointerEventKind::Down, 2, (1, 1), 1, false), vec![]);
}

#[derive(Clone, Copy, PartialEq, Debug)]
enum Open {
    Free,
    Drag,
    Scroll,
}

// Checks the bracketing of a stream of reported gestures.
fn check_bracketed(evs: &[GestureEvent<(i32, i32)>]) -> Open {
    let mut open = Open::Free;
    let mut i = 0;
    while i < evs.len() {
        open = match (open, evs[i]) {
            (o, GestureEvent::Out) => o,
            (Open::Free, GestureEvent::Hover(_)) | (Open::Free, GestureEvent::Click(_)) => Open::Free,
            (Open::Free, GestureEvent::DragStart(_)) => {
                assert!(matches!(evs.get(i + 1), Some(GestureEvent::DragMove(_))), "drag start without move");
                Open::Drag
            },
            (Open::Free, GestureEvent::ScrollStart) => Open::Scroll,
            (Open::Drag, GestureEvent::DragMove(_)) => Open::Drag,
            (Open::Drag, GestureEvent::DragDone(_)) | (Open::Drag, GestureEvent::DragCancel) => Open::Free,
            (Open::Scroll, GestureEvent::TouchScrollMove(..))
            | (Open::Scroll, GestureEvent::MouseScrollMove(..))
            | (Open::Scroll, GestureEvent::ScrollReset) => Open::Scroll,
            (Open::Scroll, GestureEvent::ScrollDone) => Open::Free,
            (o, e) => panic!("{:?} while {:?} open", e, o),
        };
        i += 1;
    }
    open
}

#[test]
fn event_streams_are_well_bracketed() {
    let mut r = GestureRecognizer::new();
    let mut all = Vec::new();
    let kinds = [
        PointerEventKind::Enter,
        PointerEventKind::Down,
        PointerEventKind::Move,
        PointerEventKind::Up,
        PointerEventKind::Cancel,
        PointerEventKind::Leave,
    ];
    // a deterministic pseudo-random stream over three pointers and three button states
    let mut seed: u32 = 12345;
    for step in 0..3000 {
        seed = seed.wrapping_mul(1103515245).wrapping_add(12345);
        if seed % 97 == 0 {
            all.extend(r.resize());
            continue;
        }
        let kind = kinds[(seed >> 8) as usize % kinds.len()];
        let ptr = ((seed >> 12) % 3) as i32;
        let buttons = [1u16, 4, 2][((seed >> 16) % 3) as usize];
        let far = (seed >> 20) % 2 == 0;
        all.extend(ev(&mut r, kind, ptr, (step, step), buttons, far));
    }
    check_bracketed(&all);
}

#[test]
fn waiting_reports_nothing_until_the_last_pointer_lifts() {
    let mut r = GestureRecognizer::new();
    assert_eq!(ev(&mut r, PointerEventKind::Down, 1, (16, 16), 2, false), vec![GestureEvent::Out]);
    assert_eq!(ev(&mut r, PointerEventKind::Move, 1, (20, 20), 2, true), vec![]);
    assert_eq!(ev(&mut r, PointerEventKind::Down, 3, (20, 20), 1, false), vec![]);
    assert_eq!(ev(&mut r, PointerEventKind::Enter, 2, (20, 20), 0, false), vec![]);
    assert_eq!(ev(&mut r, PointerEventKind::Leave, 2, (20, 20), 0, false), vec![]);
    assert_eq!(ev(&mut r, PointerEventKind::Up, 1, (20, 20), 0, false), vec![]);
    assert_eq!(r.process_wheel(1, (0, 0)), None);
    assert_eq!(ev(&mut r, PointerEventKind::Cancel, 3, (20, 20), 0, false), vec![]);
    assert_eq!(ev(&mut r, PointerEventKind::Down, 1, (32, 32), 1, false), vec![GestureEvent::Hover((32, 32))]);
}
