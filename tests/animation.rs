use shape_render::animation::{AnimationState, DEFAULT_HEIGHT, DEFAULT_WIDTH, PERIOD_MS};

fn updated(time: u64, height: u32, width: u32) -> AnimationState {
    let mut s = AnimationState::new();
    s.update(time, height, width);
    s
}

fn assert_inside(s: &AnimationState) {
    assert!(s.control_bottom <= s.control_top && s.control_top <= s.canvas_height);
    assert!(s.control_left <= s.control_right && s.control_right <= s.canvas_width);
}

#[test]
fn initial_state_is_time_zero_on_default_canvas() {
    let s = AnimationState::new();
    assert_eq!(s.canvas_height, DEFAULT_HEIGHT);
    assert_eq!(s.canvas_width, DEFAULT_WIDTH);
    assert_eq!(s.control_bottom, 165);
    assert_eq!(s.control_top, 503);
    assert_eq!(s.control_left, 130);
    assert_eq!(s.control_right, 603);
}

#[test]
fn update_at_time_zero_on_600_by_800() {
    let s = updated(0, 600, 800);
    assert_eq!(
        (s.control_bottom, s.control_top, s.control_left, s.control_right),
        (165, 503, 130, 603)
    );
    assert_eq!((s.canvas_height, s.canvas_width), (600, 800));
}

#[test]
fn update_at_quarter_period() {
    // half extent 270; triangle phases 1000, 2000, 1000, 0
    let s = updated(1000, 600, 800);
    assert_eq!(s.control_left, 400 - 270 + 67);
    assert_eq!(s.control_right, 400 + 270 - 135);
    assert_eq!(s.control_bottom, 300 - 270 + 67);
    assert_eq!(s.control_top, 300 + 270);
}

#[test]
fn rectangle_is_non_degenerate_for_positive_sizes() {
    for &(h, w) in &[(1u32, 1u32), (1, 1000), (2, 2), (3, 7), (600, 800), (4000, 10), (u32::MAX, u32::MAX)] {
        for t in (0..8000u64).step_by(250) {
            let s = updated(t, h, w);
            assert!(s.control_top > s.control_bottom, "h={} w={} t={}", h, w, t);
            assert!(s.control_right > s.control_left, "h={} w={} t={}", h, w, t);
        }
    }
}

#[test]
fn rectangle_stays_inside_canvas() {
    for &(h, w) in &[(0u32, 0u32), (0, 5), (5, 0), (1, 1), (19, 23), (600, 800), (1080, 1920)] {
        for t in (0..4000u64).step_by(125) {
            assert_inside(&updated(t, h, w));
        }
    }
}

#[test]
fn update_is_deterministic() {
    let mut a = AnimationState::new();
    let mut b = updated(777, 10, 10);
    a.update(1234, 480, 640);
    b.update(1234, 480, 640);
    assert_eq!(a, b);
    a.update(1234, 480, 640);
    assert_eq!(a, b);
}

#[test]
fn one_period_later_the_rectangle_returns() {
    for t in (0..4000u64).step_by(100) {
        assert_eq!(updated(t, 600, 800), updated(t + PERIOD_MS, 600, 800));
    }
    assert_eq!(updated(u64::MAX - PERIOD_MS, 600, 800), updated(u64::MAX, 600, 800));
}

#[test]
fn rectangle_moves_within_a_period() {
    assert_ne!(updated(0, 600, 800), updated(1000, 600, 800));
}

#[test]
fn get_curr_state_returns_a_copy() {
    let s = updated(42, 300, 300);
    assert_eq!(s.get_curr_state(), s);
}
