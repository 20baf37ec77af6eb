use nade::core_loop::{CorePacing, FrameStats, FPS_WINDOW_MICROS, UI_UPDATE_INTERVAL_MICROS};

#[test]
fn first_model_is_sent_after_the_interval() {
    let mut p = CorePacing::new(1_000);
    assert!(p.needs_update);
    assert!(!p.ui_tick(1_000 + UI_UPDATE_INTERVAL_MICROS - 1));
    assert!(p.ui_tick(1_000 + UI_UPDATE_INTERVAL_MICROS));
    assert!(!p.needs_update);
    assert!(!p.ui_tick(1_000_000));
}

#[test]
fn one_render_at_a_time() {
    let mut p = CorePacing::new(0);
    assert!(p.request_render());
    assert!(!p.request_render());
    assert!(!p.request_render());
    assert_eq!(p.frame_received(10), None);
    assert!(p.request_render());
}

#[test]
fn frame_rate_windows() {
    let mut p = CorePacing::new(0);
    for t in 1..=29u64 {
        assert_eq!(p.frame_received(t * 16_000), None);
    }
    assert_eq!(p.frame_count, 29);
    assert_eq!(
        p.frame_received(FPS_WINDOW_MICROS + 4_000),
        Some(FrameStats { frames: 30, elapsed_micros: 504_000 })
    );
    assert_eq!(p.frame_count, 0);
    assert_eq!(p.fps_window_start, 504_000);
}

#[test]
fn changes_are_sent_at_most_every_interval() {
    let mut p = CorePacing::new(0);
    assert!(p.ui_tick(20_000));
    p.model_changed();
    assert!(!p.ui_tick(30_000));
    assert!(p.ui_tick(36_000));
    p.frame_received(40_000);
    assert!(!p.ui_tick(50_000));
    assert!(p.ui_tick(52_000));
    assert!(!p.ui_tick(10));
}
