use mandelbrot_view::input::handle_window_event;
use mandelbrot_view::input::KeyState;
use mandelbrot_view::input::ViewEvent;
use mandelbrot_view::render::loop_continues;
use mandelbrot_view::view::pan_step;
use mandelbrot_view::view::zoom_fix;
use mandelbrot_view::view::ViewState;

fn no_keys() -> KeyState {
    KeyState::none()
}

#[test]
fn starts_at_defaults() {
    let v: ViewState = ViewState::new();
    assert_eq!(v.zoom_exp, 0);
    assert_eq!(v.offset_x, 0);
    assert_eq!(v.offset_y, 0);
    assert_eq!(v.iteration_limit, 1000);
}

#[test]
fn holding_zoom_in_divides_each_frame() {
    let mut v: ViewState = ViewState::new();
    let k: KeyState = KeyState { zoom_in: true, ..no_keys() };
    for _ in 0..5 {
        v.step(&k);
    }
    // zoom is 1 / 1.01^5, held exactly as the exponent -5
    assert_eq!(v.zoom_exp, -5);
    assert_eq!(v.offset_x, 0);
    assert_eq!(v.offset_y, 0);
}

#[test]
fn holding_zoom_out_multiplies_each_frame() {
    let mut v: ViewState = ViewState::new();
    let k: KeyState = KeyState { zoom_out: true, ..no_keys() };
    for _ in 0..7 {
        v.step(&k);
    }
    // zoom is 1.01^7
    assert_eq!(v.zoom_exp, 7);
}

#[test]
fn zoom_keys_cancel_within_one_frame() {
    let mut v: ViewState = ViewState::new();
    let k: KeyState = KeyState { zoom_in: true, zoom_out: true, ..no_keys() };
    v.step(&k);
    assert_eq!(v.zoom_exp, 0);
}

#[test]
fn zoom_never_reaches_zero_in_fixed_point_sign() {
    // The model zoom 1.01^e is a positive rational at every exponent; its
    // fixed-point image can only round down toward 0, never below it.
    for e in [-2000i64, -1200, -50, -1, 0, 1, 50, 2000] {
        assert!(zoom_fix(e) >= 0);
    }
    assert!(zoom_fix(-1) > 0);
}

#[test]
fn zoom_fix_exact_values() {
    assert_eq!(zoom_fix(0), 65536);
    assert_eq!(zoom_fix(1), 66191); // 65536 * 101 / 100
    assert_eq!(zoom_fix(2), 66852); // 66191 * 101 / 100
    assert_eq!(zoom_fix(-1), 64887); // 65536 * 100 / 101
}

#[test]
fn pan_moves_by_zoom_over_150() {
    let mut v: ViewState = ViewState::new();
    let k: KeyState = KeyState { pan_up: true, ..no_keys() };
    v.step(&k);
    // 65536 / 150 = 436
    assert_eq!(v.offset_y, 436);
    assert_eq!(v.offset_x, 0);

    let k: KeyState = KeyState { pan_down: true, pan_left: true, ..no_keys() };
    v.step(&k);
    assert_eq!(v.offset_y, 0);
    assert_eq!(v.offset_x, -436);
}

#[test]
fn pan_uses_the_zoom_updated_this_frame() {
    let mut v: ViewState = ViewState::new();
    let k: KeyState = KeyState { zoom_out: true, pan_right: true, ..no_keys() };
    v.step(&k);
    assert_eq!(v.zoom_exp, 1);
    // 66191 / 150 = 441, the step of the zoom after this frame's zoom keys
    assert_eq!(v.offset_x, 441);
    assert_eq!(pan_step(1), 441);
}

#[test]
fn reset_restores_offset_and_zoom() {
    let mut v: ViewState = ViewState::new();
    let wander: KeyState = KeyState { zoom_out: true, pan_up: true, pan_right: true, ..no_keys() };
    for _ in 0..9 {
        v.step(&wander);
    }
    assert_ne!(v.zoom_exp, 0);
    assert_ne!(v.offset_x, 0);
    // reset wins even with every other key held in the same frame
    let k: KeyState = KeyState {
        zoom_in: true,
        zoom_out: true,
        pan_up: true,
        pan_down: true,
        pan_right: true,
        pan_left: true,
        reset: true,
        detail_up: true,
        detail_down: true,
    };
    v.step(&k);
    assert_eq!(v.zoom_exp, 0);
    assert_eq!(v.offset_x, 0);
    assert_eq!(v.offset_y, 0);
}

#[test]
fn detail_keys_move_the_limit() {
    let mut v: ViewState = ViewState::new();
    let up: KeyState = KeyState { detail_up: true, ..no_keys() };
    v.step(&up);
    assert_eq!(v.iteration_limit, 1001);
    let down: KeyState = KeyState { detail_down: true, ..no_keys() };
    v.step(&down);
    assert_eq!(v.iteration_limit, 1000);
}

#[test]
fn detail_limit_clamps_at_zero() {
    let mut v: ViewState = ViewState::new();
    let down: KeyState = KeyState { detail_down: true, ..no_keys() };
    for _ in 0..1000 {
        v.step(&down);
    }
    assert_eq!(v.iteration_limit, 0);
    v.step(&down);
    v.step(&down);
    assert_eq!(v.iteration_limit, 0);
}

#[test]
fn only_escape_requests_close() {
    assert!(handle_window_event(&ViewEvent::EscapePressed));
    assert!(!handle_window_event(&ViewEvent::Other));
}

#[test]
fn loop_runs_until_close_requested() {
    assert!(loop_continues(false));
    assert!(!loop_continues(true));
}
