use rlr::actions::{Nudge, Turn};
use rlr::angle::Direction;
use rlr::events::{is_precision_key, ButtonEvent, Click, PressAction};
use rlr::interval::Interval;
use rlr::px::Px;
use rlr::rotation::Rotation;
use rlr::state::Rlr;

fn px(pixels: f64) -> Px {
    Px::from_milli((pixels * 1000.0).floor() as i64).unwrap()
}

fn press(click: Click, button: u32, x: f64, y: f64) -> ButtonEvent {
    ButtonEvent { click, button, at: (px(x), px(y)) }
}

#[test]
fn default_state() {
    let rlr = Rlr::default();
    assert_eq!(rlr.position, (px(0.0), px(0.0)));
    assert_eq!(rlr.root_position, (0, 0));
    assert_eq!((rlr.width, rlr.height), (500, 35));
    assert_eq!(rlr.p_dimens, None);
    assert!(!rlr.freeze);
    assert_eq!(rlr.rotate, Rotation::E);
    assert!(!rlr.protractor);
    assert!(rlr.precision);
    assert!(!rlr.edit_angle_offset);
    assert_eq!(rlr.angle_base, Direction { dx: 0, dy: 0 });
    assert_eq!(rlr.interval, Interval::Unmarked);
    assert_eq!(rlr.scale_factor, 1);
}

#[test]
fn interval_double_click_then_click() {
    let mut rlr = Rlr::default();
    let action = rlr.button_press(press(Click::Double, 1, 40.25, 7.0));
    assert_eq!(action, PressAction::Nothing);
    assert_eq!(rlr.interval, Interval::Start(px(40.25)));
    assert!(rlr.interval.is_start());
    let action = rlr.button_press(press(Click::Single, 1, 90.5, 3.0));
    assert_eq!(action, PressAction::Nothing);
    assert_eq!(rlr.interval, Interval::Full(px(40.25), px(90.5)));
    assert!(!rlr.interval.is_start());
}

#[test]
fn interval_end_may_lie_before_start() {
    let mut rlr = Rlr::default();
    rlr.button_press(press(Click::Double, 1, 300.0, 7.0));
    rlr.button_press(press(Click::Single, 1, 12.125, 7.0));
    assert_eq!(rlr.interval, Interval::Full(px(300.0), px(12.125)));
}

#[test]
fn interval_follows_the_long_axis() {
    let mut rlr = Rlr::default();
    rlr.rotate = Rotation::S;
    rlr.button_press(press(Click::Double, 1, 5.0, 60.0));
    assert_eq!(rlr.interval, Interval::Start(px(60.0)));
    rlr.button_press(press(Click::Single, 3, 6.0, 80.0));
    assert_eq!(rlr.interval, Interval::Full(px(60.0), px(80.0)));
}

#[test]
fn double_click_drops_a_full_interval() {
    let mut rlr = Rlr::default();
    rlr.interval = Interval::Full(px(1.0), px(2.0));
    rlr.button_press(press(Click::Double, 1, 9.0, 0.0));
    assert_eq!(rlr.interval, Interval::Start(px(9.0)));
    rlr.button_press(press(Click::Double, 1, 11.0, 0.0));
    assert_eq!(rlr.interval, Interval::Start(px(11.0)));
}

#[test]
fn full_interval_stays_on_single_click() {
    let mut rlr = Rlr::default();
    rlr.interval = Interval::Full(px(1.0), px(2.0));
    let before = rlr;
    assert_eq!(rlr.button_press(press(Click::Single, 1, 9.0, 0.0)), PressAction::BeginMoveDrag);
    assert_eq!(rlr, before);
}

#[test]
fn primary_button_drags_the_window() {
    let mut rlr = Rlr::default();
    let before = rlr;
    assert_eq!(rlr.button_press(press(Click::Single, 1, 1.0, 1.0)), PressAction::BeginMoveDrag);
    assert_eq!(rlr.button_press(press(Click::Other, 1, 1.0, 1.0)), PressAction::BeginMoveDrag);
    assert_eq!(rlr, before);
}

#[test]
fn secondary_button_opens_the_menu() {
    let mut rlr = Rlr::default();
    let before = rlr;
    assert_eq!(rlr.button_press(press(Click::Single, 3, 1.0, 1.0)), PressAction::PopupMenu);
    assert_eq!(rlr.button_press(press(Click::Other, 3, 1.0, 1.0)), PressAction::Nothing);
    assert_eq!(rlr.button_press(press(Click::Single, 2, 1.0, 1.0)), PressAction::Nothing);
    assert_eq!(rlr, before);
}

#[test]
fn coarse_primary_press_turns_the_base_line() {
    let mut rlr = Rlr::default();
    rlr.precision = false;
    assert_eq!(rlr.button_press(press(Click::Single, 1, 1.0, 1.0)), PressAction::Nothing);
    assert!(rlr.edit_angle_offset);
    rlr.button_release(3);
    assert!(rlr.edit_angle_offset);
    rlr.button_release(1);
    assert!(!rlr.edit_angle_offset);
}

#[test]
fn precision_keys() {
    assert!(is_precision_key("Control_L"));
    assert!(is_precision_key("Meta_L"));
    assert!(!is_precision_key("Control_R"));
    assert!(!is_precision_key("control_l"));
    assert!(!is_precision_key(""));
    assert!(!is_precision_key("Control_L "));
}

#[test]
fn holding_a_precision_key_makes_coarse() {
    let mut rlr = Rlr::default();
    assert!(!rlr.key_press("a"));
    assert!(rlr.precision);
    assert!(rlr.key_press("Control_L"));
    assert!(!rlr.precision);
    assert!(!rlr.key_release("Shift_L"));
    assert!(!rlr.precision);
    assert!(rlr.key_release("Meta_L"));
    assert!(rlr.precision);
}

#[test]
fn motion_moves_the_pointer() {
    let mut rlr = Rlr::default();
    assert!(rlr.pointer_moved((px(12.5), px(3.25))));
    assert_eq!(rlr.position, (px(12.5), px(3.25)));
    assert_eq!(rlr.angle_base, Direction { dx: 0, dy: 0 });
}

#[test]
fn motion_is_ignored_while_frozen() {
    let mut rlr = Rlr::default();
    rlr.freeze = true;
    rlr.edit_angle_offset = true;
    let before = rlr;
    assert!(!rlr.pointer_moved((px(12.5), px(3.25))));
    assert_eq!(rlr, before);
}

#[test]
fn motion_turns_the_base_line() {
    let mut rlr = Rlr::default();
    rlr.width = 400;
    rlr.height = 400;
    rlr.protractor = true;
    rlr.edit_angle_offset = true;
    assert!(rlr.pointer_moved((px(300.0), px(150.5))));
    assert_eq!(rlr.position, (px(300.0), px(150.5)));
    assert_eq!(rlr.angle_base, Direction { dx: 100_000, dy: 49_500 });
    assert!(rlr.pointer_moved((px(10.0), px(390.0))));
    assert_eq!(rlr.angle_base, Direction { dx: -190_000, dy: -190_000 });
}

#[test]
fn poll_follows_along_the_level_ruler() {
    let mut rlr = Rlr::default();
    rlr.position = (px(1.5), px(2.5));
    assert!(rlr.pointer_polled((120, 700)));
    assert_eq!(rlr.root_position, (120, 700));
    assert_eq!(rlr.position, (px(120.0), px(2.5)));
    assert!(!rlr.pointer_polled((120, 700)));
    assert!(!rlr.pointer_polled((500, 10)));
    assert!(!rlr.pointer_polled((0, 10)));
    assert!(!rlr.pointer_polled((-4, 10)));
    assert_eq!(rlr.root_position, (120, 700));
    assert!(rlr.pointer_polled((499, 10)));
    assert!(rlr.pointer_polled((1, 10)));
    assert_eq!(rlr.position, (px(1.0), px(2.5)));
}

#[test]
fn poll_follows_along_the_upright_ruler() {
    let mut rlr = Rlr::default();
    rlr.rotate = Rotation::N;
    rlr.width = 35;
    rlr.height = 500;
    rlr.position = (px(1.5), px(2.5));
    assert!(rlr.pointer_polled((900, 77)));
    assert_eq!(rlr.root_position, (900, 77));
    assert_eq!(rlr.position, (px(1.5), px(77.0)));
    assert!(!rlr.pointer_polled((3, 500)));
    assert!(!rlr.pointer_polled((3, 0)));
    assert_eq!(rlr.root_position, (900, 77));
}

#[test]
fn poll_follows_anywhere_on_the_protractor() {
    let mut rlr = Rlr::default();
    rlr.protractor = true;
    assert!(rlr.pointer_polled((-20, 9000)));
    assert_eq!(rlr.root_position, (-20, 9000));
    assert_eq!(rlr.position, (px(-20.0), px(9000.0)));
    assert!(!rlr.pointer_polled((-20, 9000)));
}

#[test]
fn poll_is_skipped_while_frozen_or_turning() {
    let mut rlr = Rlr::default();
    rlr.freeze = true;
    let before = rlr;
    assert!(!rlr.pointer_polled((120, 7)));
    assert_eq!(rlr, before);
    rlr.freeze = false;
    rlr.edit_angle_offset = true;
    let before = rlr;
    assert!(!rlr.pointer_polled((120, 7)));
    assert_eq!(rlr, before);
}

#[test]
fn configure_takes_the_size() {
    let mut rlr = Rlr::default();
    rlr.configure(640, 48);
    assert_eq!((rlr.width, rlr.height), (640, 48));
    rlr.configure(u32::MAX, 2_147_483_648);
    assert_eq!((rlr.width, rlr.height), (i32::MAX, i32::MAX));
    rlr.configure(2_147_483_647, 0);
    assert_eq!((rlr.width, rlr.height), (i32::MAX, 0));
}

#[test]
fn dense_display_grows_the_window() {
    let mut rlr = Rlr::default();
    assert_eq!(rlr.display_found(true, 2), Some((1000, 70)));
    assert_eq!((rlr.width, rlr.height, rlr.scale_factor), (1000, 70, 2));
    let mut rlr = Rlr::default();
    assert_eq!(rlr.display_found(true, 1), Some((750, 52)));
    assert_eq!((rlr.width, rlr.height, rlr.scale_factor), (750, 52, 1));
    let mut rlr = Rlr::default();
    assert_eq!(rlr.display_found(true, -1), Some((250, 18)));
}

#[test]
fn plain_display_only_sets_the_scale() {
    let mut rlr = Rlr::default();
    assert_eq!(rlr.display_found(false, 3), None);
    assert_eq!((rlr.width, rlr.height, rlr.scale_factor), (500, 35, 3));
}

#[test]
fn freeze_toggles() {
    let mut rlr = Rlr::default();
    rlr.toggle_freeze();
    assert!(rlr.freeze);
    rlr.toggle_freeze();
    assert!(!rlr.freeze);
}

#[test]
fn flip_mirrors_the_ruler_only() {
    let mut rlr = Rlr::default();
    rlr.flip();
    assert_eq!(rlr.rotate, Rotation::W);
    assert_eq!((rlr.width, rlr.height), (500, 35));
    rlr.protractor = true;
    rlr.flip();
    assert_eq!(rlr.rotate, Rotation::W);
}

#[test]
fn rotate_swaps_the_sides() {
    let mut rlr = Rlr::default();
    assert_eq!(rlr.rotate(), Some(Turn { size: (35, 500), shift: None }));
    assert_eq!((rlr.width, rlr.height, rlr.rotate), (35, 500, Rotation::S));
    assert_eq!(rlr.rotate(), Some(Turn { size: (500, 35), shift: Some((Some(false), None)) }));
    assert_eq!((rlr.width, rlr.height, rlr.rotate), (500, 35, Rotation::W));
    assert_eq!(
        rlr.rotate(),
        Some(Turn { size: (35, 500), shift: Some((Some(true), Some(false))) })
    );
    assert_eq!(rlr.rotate(), Some(Turn { size: (500, 35), shift: Some((None, Some(true))) }));
    assert_eq!((rlr.width, rlr.height, rlr.rotate), (500, 35, Rotation::E));
}

#[test]
fn rotate_leaves_the_protractor() {
    let mut rlr = Rlr::default();
    rlr.protractor = true;
    let before = rlr;
    assert_eq!(rlr.rotate(), None);
    assert_eq!(rlr, before);
}

#[test]
fn anchor_moves_with_the_turn() {
    let mut rlr = Rlr::default();
    rlr.width = 500;
    rlr.height = 35;
    assert_eq!(rlr.shifted_anchor((Some(false), None), (700, 300)), (200, 300));
    assert_eq!(rlr.shifted_anchor((Some(false), None), (505, 300)), (10, 300));
    assert_eq!(rlr.shifted_anchor((Some(false), None), (-5, 300)), (10, 300));
    assert_eq!(rlr.shifted_anchor((Some(true), Some(false)), (100, 300)), (135, 265));
    assert_eq!(rlr.shifted_anchor((Some(true), Some(false)), (100, 20)), (135, 10));
    assert_eq!(rlr.shifted_anchor((None, Some(true)), (100, 20)), (100, 520));
    assert_eq!(rlr.shifted_anchor((None, None), (-100, -20)), (-100, -20));
    assert_eq!(rlr.shifted_anchor((Some(false), None), (i32::MIN, 0)), (10, 0));
    rlr.width = -500;
    assert_eq!(rlr.shifted_anchor((Some(false), None), (i32::MAX, 0)), (i32::MAX, 0));
}

#[test]
fn protractor_takes_a_square_and_gives_it_back() {
    let mut rlr = Rlr::default();
    assert_eq!(rlr.toggle_protractor(), (500, 500));
    assert!(rlr.protractor);
    assert_eq!((rlr.width, rlr.height), (500, 35));
    assert_eq!(rlr.p_dimens, Some((500, 35)));
    rlr.configure(500, 500);
    assert_eq!(rlr.toggle_protractor(), (500, 35));
    assert!(!rlr.protractor);
    assert_eq!((rlr.width, rlr.height), (500, 35));
    assert_eq!(rlr.p_dimens, Some((500, 500)));
    rlr.configure(640, 35);
    assert_eq!(rlr.toggle_protractor(), (500, 500));
    assert!(rlr.protractor);
    assert_eq!((rlr.width, rlr.height), (500, 500));
    assert_eq!(rlr.p_dimens, Some((640, 35)));
}

#[test]
fn window_size_of_each_instrument() {
    let mut rlr = Rlr::default();
    assert_eq!(rlr.window_size(), (500, 35));
    rlr.protractor = true;
    assert_eq!(rlr.window_size(), (500, 500));
    rlr.width = 20;
    assert_eq!(rlr.window_size(), (35, 35));
}

#[test]
fn increase_grows_along_the_scale() {
    let mut rlr = Rlr::default();
    assert_eq!(rlr.increase(), (550, 35));
    rlr.rotate = Rotation::S;
    assert_eq!(rlr.increase(), (550, 85));
    assert_eq!((rlr.width, rlr.height), (550, 85));
    rlr.protractor = true;
    assert_eq!(rlr.increase(), (600, 600));
    assert_eq!((rlr.width, rlr.height), (600, 600));
}

#[test]
fn decrease_stops_at_one_step() {
    let mut rlr = Rlr::default();
    assert_eq!(rlr.decrease(), (450, 35));
    rlr.width = 99;
    assert_eq!(rlr.decrease(), (50, 35));
    rlr.width = 100;
    assert_eq!(rlr.decrease(), (50, 35));
    assert_eq!(rlr.decrease(), (50, 35));
    rlr.rotate = Rotation::N;
    rlr.height = 120;
    assert_eq!(rlr.decrease(), (50, 70));
    rlr.protractor = true;
    rlr.width = 300;
    assert_eq!(rlr.decrease(), (250, 250));
    assert_eq!((rlr.width, rlr.height), (250, 250));
    rlr.width = i32::MIN;
    assert_eq!(rlr.decrease(), (50, 50));
}

#[test]
fn nudge_by_ten_or_by_one() {
    let mut rlr = Rlr::default();
    assert_eq!(rlr.nudged(Nudge::Right, (100, 200)), (110, 200));
    assert_eq!(rlr.nudged(Nudge::Left, (100, 200)), (90, 200));
    assert_eq!(rlr.nudged(Nudge::Up, (100, 200)), (100, 190));
    assert_eq!(rlr.nudged(Nudge::Down, (100, 200)), (100, 210));
    rlr.precision = false;
    assert_eq!(rlr.nudged(Nudge::Right, (100, 200)), (101, 200));
    assert_eq!(rlr.nudged(Nudge::Left, (100, 200)), (99, 200));
    assert_eq!(rlr.nudged(Nudge::Up, (100, 200)), (100, 199));
    assert_eq!(rlr.nudged(Nudge::Down, (100, 200)), (100, 201));
}

#[test]
fn growing_stops_at_the_end_of_i32() {
    let mut rlr = Rlr::default();
    assert!(rlr.can_increase());
    rlr.width = i32::MAX - 50;
    assert!(rlr.can_increase());
    assert_eq!(rlr.increase(), (i32::MAX, 35));
    assert!(!rlr.can_increase());
    rlr.rotate = Rotation::S;
    assert!(rlr.can_increase());
    rlr.protractor = true;
    assert!(!rlr.can_increase());
}

#[test]
fn shifting_forward_may_not_fit() {
    let rlr = Rlr::default();
    assert!(rlr.can_shift((Some(true), Some(true)), (100, 100)));
    assert!(rlr.can_shift((Some(true), None), (i32::MAX - 35, 0)));
    assert!(!rlr.can_shift((Some(true), None), (i32::MAX - 34, 0)));
    assert!(rlr.can_shift((None, Some(true)), (0, i32::MAX - 500)));
    assert!(!rlr.can_shift((None, Some(true)), (0, i32::MAX - 499)));
    assert!(rlr.can_shift((Some(false), Some(false)), (i32::MIN, i32::MAX)));
    assert!(rlr.can_shift((None, None), (i32::MAX, i32::MAX)));
}

#[test]
fn nudging_may_not_fit() {
    let mut rlr = Rlr::default();
    assert!(rlr.can_nudge(Nudge::Right, (i32::MAX - 10, 0)));
    assert!(!rlr.can_nudge(Nudge::Right, (i32::MAX - 9, 0)));
    assert!(!rlr.can_nudge(Nudge::Left, (i32::MIN + 9, 0)));
    assert!(!rlr.can_nudge(Nudge::Up, (0, i32::MIN)));
    assert!(rlr.can_nudge(Nudge::Down, (i32::MAX, 5)));
    rlr.precision = false;
    assert!(rlr.can_nudge(Nudge::Right, (i32::MAX - 1, 0)));
    assert!(!rlr.can_nudge(Nudge::Down, (0, i32::MAX)));
}

#[test]
fn dense_display_may_not_fit() {
    let mut rlr = Rlr::default();
    assert!(rlr.can_display(2));
    assert!(rlr.can_display(i32::MAX / 500));
    assert!(!rlr.can_display(i32::MAX / 500 + 1));
    rlr.width = i32::MAX;
    assert!(!rlr.can_display(1));
    assert!(rlr.can_display(0));
    assert!(rlr.can_display(-1));
    assert_eq!(rlr.display_found(true, -1), Some((1_073_741_824, 18)));
}
