use grid_pan::{
    setup_spawns, ButtonState, CursorIcon, GridMaterial, PanAction, PanController, Point, Rgb,
    Spawn, WindowPos,
};

fn held() -> ButtonState {
    ButtonState { pressed: true, just_pressed: false }
}

fn fresh() -> ButtonState {
    ButtonState { pressed: true, just_pressed: true }
}

fn up() -> ButtonState {
    ButtonState { pressed: false, just_pressed: false }
}

#[test]
fn press_then_drag_scrolls_offset() {
    let mut pan = PanController::new();
    let mut mat = GridMaterial::pannable();
    let first = PanController::dragging(&[fresh(), up()]);
    assert!(!first);
    let a1 = pan.frame(&mut mat, Some(WindowPos::new(100, 100)), first);
    assert_eq!(a1, PanAction::Idle);
    assert_eq!(mat.offset, Point::new(0, 0));

    let second = PanController::dragging(&[held(), up()]);
    assert!(second);
    let a2 = pan.frame(&mut mat, Some(WindowPos::new(150, 100)), second);
    assert_eq!(mat.offset, Point::new(-50, 0));
    assert_eq!(
        a2,
        PanAction::Drag { from: Point::new(100, -100), to: Point::new(150, -100) }
    );
    assert_eq!(a2.cursor_icon(), Some(CursorIcon::Grabbing));
}

#[test]
fn pannable_material_constants() {
    let m = GridMaterial::pannable();
    assert_eq!(m.cell_size, 16);
    assert_eq!(m.line_width, 2);
    assert_eq!(m.offset, Point::new(0, 0));
    assert_eq!(m.grid_color, Rgb::new(0x45, 0x41, 0x38));
    assert_eq!(m.background_color, Rgb::new(0xdc, 0xd8, 0xc0));
}

#[test]
fn fixed_material_constants() {
    let m = GridMaterial::fixed();
    assert_eq!(m.cell_size, 32);
    assert_eq!(m.line_width, 3);
    assert_eq!(m.offset, Point::new(-70, 120));
}

#[test]
fn no_window_spawns_nothing() {
    let spawns = setup_spawns(GridMaterial::pannable(), false);
    assert!(spawns.is_empty());
}

#[test]
fn window_spawns_camera_grid_marker() {
    let m = GridMaterial::fixed();
    let spawns = setup_spawns(m, true);
    assert_eq!(spawns, vec![Spawn::Camera, Spawn::Grid(m), Spawn::Marker]);
}

#[test]
fn released_frames_keep_offset() {
    let mut pan = PanController::new();
    let mut mat = GridMaterial::fixed();
    let positions = [(0, 0), (40, 7), (-3, 900), (12, 12)];
    for (x, y) in positions {
        let a = pan.frame(&mut mat, Some(WindowPos::new(x, y)), false);
        assert_eq!(a, PanAction::Idle);
        assert_eq!(a.cursor_icon(), Some(CursorIcon::Default));
        assert_eq!(mat.offset, Point::new(-70, 120));
    }
    assert_eq!(pan.last_pos, Some(WindowPos::new(12, 12)));
}

#[test]
fn drag_moves_offset_by_flipped_delta() {
    let mut pan = PanController::new();
    let mut mat = GridMaterial::pannable();
    pan.frame(&mut mat, Some(WindowPos::new(10, 20)), true);
    assert_eq!(mat.offset, Point::new(0, 0));
    let a = pan.frame(&mut mat, Some(WindowPos::new(13, 27)), true);
    // pixel delta in upward-y space is (3, -7)
    assert_eq!(mat.offset, Point::new(-3, -7));
    assert_eq!(a, PanAction::Drag { from: Point::new(10, -20), to: Point::new(13, -27) });
    pan.frame(&mut mat, Some(WindowPos::new(5, 30)), true);
    assert_eq!(mat.offset, Point::new(5, -10));
}

#[test]
fn release_rearms_tracking() {
    let mut pan = PanController::new();
    let mut mat = GridMaterial::pannable();
    pan.frame(&mut mat, Some(WindowPos::new(0, 0)), true);
    pan.frame(&mut mat, Some(WindowPos::new(10, 0)), true);
    assert_eq!(mat.offset, Point::new(-10, 0));
    // released while the cursor travels far away
    pan.frame(&mut mat, Some(WindowPos::new(300, 50)), false);
    pan.frame(&mut mat, Some(WindowPos::new(500, 80)), false);
    let a = pan.frame(&mut mat, Some(WindowPos::new(500, 80)), true);
    assert_eq!(mat.offset, Point::new(-10, 0));
    assert_eq!(a, PanAction::Drag { from: Point::new(500, -80), to: Point::new(500, -80) });
}

#[test]
fn cursor_outside_window_skips_frame() {
    let mut pan = PanController::new();
    let mut mat = GridMaterial::pannable();
    pan.frame(&mut mat, Some(WindowPos::new(4, 4)), true);
    let a = pan.frame(&mut mat, None, true);
    assert_eq!(a, PanAction::Skip);
    assert_eq!(a.cursor_icon(), None);
    assert_eq!(pan.last_pos, Some(WindowPos::new(4, 4)));
    assert_eq!(mat.offset, Point::new(0, 0));
}

#[test]
fn offset_overflow_skips_frame() {
    let mut pan = PanController { last_pos: Some(WindowPos::new(10, 0)) };
    let mut mat = GridMaterial::pannable();
    mat.offset = Point::new(i64::MAX, 0);
    let a = pan.frame(&mut mat, Some(WindowPos::new(5, 0)), true);
    assert_eq!(a, PanAction::Skip);
    assert_eq!(mat.offset, Point::new(i64::MAX, 0));
    assert_eq!(pan.last_pos, Some(WindowPos::new(10, 0)));
}

#[test]
fn extreme_cursor_positions_stay_exact() {
    let mut pan = PanController { last_pos: Some(WindowPos::new(i32::MIN, i32::MIN)) };
    let mut mat = GridMaterial::pannable();
    pan.frame(&mut mat, Some(WindowPos::new(i32::MAX, i32::MAX)), true);
    let span = i32::MAX as i64 - i32::MIN as i64;
    assert_eq!(mat.offset, Point::new(-span, -span));
}

#[test]
fn dragging_needs_a_button_held_from_before() {
    assert!(!PanController::dragging(&[]));
    assert!(!PanController::dragging(&[up(), up()]));
    assert!(!PanController::dragging(&[fresh(), fresh()]));
    assert!(PanController::dragging(&[up(), held()]));
    assert!(PanController::dragging(&[fresh(), held()]));
    assert!(!ButtonState { pressed: false, just_pressed: true }.drags());
}

#[test]
fn flipping_inverts_only_y() {
    assert_eq!(WindowPos::new(7, 9).flipped(), Point::new(7, -9));
    assert_eq!(WindowPos::new(i32::MIN, i32::MIN).flipped(), Point::new(i32::MIN as i64, 2147483648));
}
