use firefly_runtime::{sleep_for, start_sequence, ErrorScene, RenderPlan, StartFn};

#[test]
fn error_scene_waits_then_needs_press_and_release() {
    let mut s = ErrorScene::new("boom".to_string());
    assert!(!s.update(1_000, Some(1)));
    assert!(!s.enabled_btn);
    assert!(!s.update(5_000, None));
    assert!(!s.enabled_btn);
    assert!(!s.update(5_001, Some(0)));
    assert!(s.enabled_btn);
    assert!(!s.update(5_100, Some(0b100)));
    assert!(s.update(5_200, Some(0)));
}

#[test]
fn error_scene_ignores_buttons_before_enabled() {
    let mut s = ErrorScene::new("x".to_string());
    for t in 0..5 {
        assert!(!s.update(t * 100, Some(1)));
    }
    assert_eq!(s.buttons, 0);
    assert!(!s.update(600, Some(0)));
}

#[test]
fn error_scene_renders_each_part_once() {
    let mut s = ErrorScene::new("x".to_string());
    assert_eq!(s.render(), RenderPlan { msg: true, btn: Some(false) });
    assert_eq!(s.render(), RenderPlan { msg: false, btn: None });
}

#[test]
fn frame_deadline() {
    assert_eq!(sleep_for(100, 110), 20);
    assert_eq!(sleep_for(100, 130), 0);
    assert_eq!(sleep_for(100, 200), 0);
    assert_eq!(sleep_for(100, 100), 30);
}

#[test]
fn start_functions_in_order() {
    assert_eq!(
        start_sequence(true, true, true),
        vec![StartFn::Initialize, StartFn::Start, StartFn::Boot]
    );
    assert_eq!(start_sequence(false, true, true), vec![StartFn::Start, StartFn::Boot]);
    assert_eq!(start_sequence(false, false, false), vec![]);
}
