use delfi_engine::context::EngineContext;
use delfi_engine::context::Feature;
use delfi_engine::context::GraphicsContext;
use delfi_engine::context::KeyboardContext;
use delfi_engine::context::TimeContext;
use delfi_engine::EngineSettings;

#[test]
fn settings_defaults() {
    let s = EngineSettings::new(String::from("Engine"));
    assert_eq!(s.window_title, "Engine");
    assert_eq!(s.size, (1280, 720));
    assert_eq!(s.min_size, Some((640, 360)));
    assert_eq!(s.fps_limit, 120);
}

#[test]
fn time_context_starts_at_now() {
    let t = TimeContext::new(1_000);
    assert_eq!(t.get_time(), 1_000);
    assert_eq!(t.ticks(), 0);
    assert_eq!(t.delta(1_000), 0);
    assert_eq!(t.time_since_start(1_000), 0);
}

#[test]
fn time_context_measures_elapsed_nanos() {
    let t = TimeContext::new(500);
    assert_eq!(t.delta(2_500), 2_000);
    assert_eq!(t.time_since_start(10_500), 10_000);
}

#[test]
fn time_context_clamps_out_of_order_readings() {
    let t = TimeContext::new(5_000);
    assert_eq!(t.delta(4_000), 0);
    assert_eq!(t.time_since_start(0), 0);
}

#[test]
fn keyboard_starts_empty() {
    let k = KeyboardContext::new();
    assert!(!k.is_key_pressed(10));
    assert!(!k.is_key_just_released(10));
    assert_eq!(k.pressed_keys().len(), 0);
    assert_eq!(k.just_released_keys().len(), 0);
}

#[test]
fn keyboard_press_and_release() {
    let mut k = KeyboardContext::new();
    k.press_key(10);
    k.press_key(20);
    assert!(k.is_key_pressed(10));
    assert!(k.is_key_pressed(20));
    assert!(!k.is_key_pressed(30));

    k.mark_released(10);
    assert!(!k.is_key_pressed(10));
    assert!(k.is_key_pressed(20));
    assert!(k.is_key_just_released(10));
    assert!(!k.is_key_just_released(20));
}

#[test]
fn keyboard_press_is_idempotent() {
    let mut k = KeyboardContext::new();
    k.press_key(10);
    k.press_key(10);
    k.press_key(10);
    assert_eq!(k.pressed_keys().len(), 1);
    assert!(k.is_key_pressed(10));
}

#[test]
fn keyboard_release_key_takes_the_key_out() {
    let mut k = KeyboardContext::new();
    k.press_key(7);
    k.press_key(8);
    k.release_key(Some(7));
    assert!(!k.is_key_pressed(7));
    assert!(k.is_key_pressed(8));
    // release_key leaves the just-released set alone
    assert!(!k.is_key_just_released(7));
}

#[test]
fn keyboard_releasing_an_absent_key_changes_nothing() {
    let mut k = KeyboardContext::new();
    k.press_key(1);
    k.release_key(Some(99));
    assert!(k.is_key_pressed(1));
    assert_eq!(k.pressed_keys().len(), 1);
}

#[test]
fn keyboard_all_keys_pressed() {
    let mut k = KeyboardContext::new();
    k.press_key(1);
    k.press_key(2);
    k.press_key(3);
    assert!(k.is_keys_pressed(&vec![1, 2]));
    assert!(k.is_keys_pressed(&vec![1, 2, 3]));
    assert!(!k.is_keys_pressed(&vec![1, 4]));
    assert!(k.is_keys_pressed(&vec![]));
}

#[test]
fn graphics_features_toggle() {
    let mut g = GraphicsContext::new();
    assert!(!g.is_feature_enabled(Feature::Depth));
    g.turn_feature(Feature::Depth);
    assert!(g.is_feature_enabled(Feature::Depth));
    g.turn_feature(Feature::Depth);
    assert!(!g.is_feature_enabled(Feature::Depth));
}

#[test]
fn engine_context_update_advances_the_frame() {
    let mut c = EngineContext::new(100);
    c.keyboard.press_key(5);
    c.keyboard.mark_released(6);
    assert!(c.keyboard.is_key_just_released(6));

    c.update(2_100);
    assert_eq!(c.time.get_time(), 2_100);
    assert_eq!(c.time.ticks(), 1);
    assert_eq!(c.time.time_since_start(2_100), 2_000);
    // pressed keys survive the frame boundary, just-released ones do not
    assert!(c.keyboard.is_key_pressed(5));
    assert!(!c.keyboard.is_key_just_released(6));

    c.update(3_000);
    assert_eq!(c.time.ticks(), 2);
    assert_eq!(c.time.get_time(), 3_000);
}
