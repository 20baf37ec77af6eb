use nade::composition::FrameIndex;
use nade::dock::SplitDirection;
use nade::effects::{AexNoiseEffect, Effect, RenderContext, RgbColor};
use nade::evaluation::{check_mix_sizes, EvalError};
use nade::ops::{ImageDelay1Op, ValueDelay1Op, ValueSelectOp};
use nade::values::{NodeId, ValueParam};
use nade::geometry::{first_part_exec, Point, Rect};
use nade::hashing::Image;
use nade::panel_content::{create_panel_layout, PanelContent};
use nade::session::NodeState;
use nade::status_bar::StatusBar;
use nade::system::{drop_layout_exec, ratio_from_center_exec, DropLayout};
use nade::values::{Value, ValueKind};

#[test]
fn frame_index_round_trips() {
    assert_eq!(u64::from(FrameIndex::new(42)), 42);
    let raw: u64 = FrameIndex::new(0).into();
    assert_eq!(raw, 0);
}

#[test]
fn status_bar_versions() {
    assert_eq!(StatusBar::new().version(), "v0.0.1a");
    assert_eq!(StatusBar::with_version("v2".to_string()).version(), "v2");
    assert_eq!(StatusBar::default().version(), "");
}

#[test]
fn noise_effect_passes_colours_through() {
    let mut effect = AexNoiseEffect {};
    assert!(effect.init().is_ok());
    let ctx = RenderContext { width: 4, height: 4, frame: 9 };
    let c = RgbColor { r: 1, g: 2, b: 3 };
    assert_eq!(effect.apply(c, 1, 2, &ctx), c);
    assert_eq!(effect.name(), "AEX Noise Effect");
    effect.dispose();
}

#[test]
fn panel_labels_and_menu() {
    let labels: Vec<&str> = PanelContent::all_kinds().iter().map(|k| k.label()).collect();
    assert_eq!(labels, vec!["Preview", "Timeline", "Curve Editor", "Inspector", "Objects", "Assets"]);
    let columns = PanelContent::menu_columns();
    assert_eq!(columns.len(), 3);
    assert_eq!(columns[0].0, "General");
    assert_eq!(columns[2].1, vec![PanelContent::Project, PanelContent::Assets, PanelContent::Inspector]);
    let mut seen: Vec<PanelContent> = columns.iter().flat_map(|c| c.1.clone()).collect();
    assert_eq!(seen.len(), 6);
    for kind in PanelContent::all_kinds() {
        assert!(seen.contains(&kind));
    }
    seen.clear();
}

#[test]
fn default_layout_has_five_areas() {
    let system = create_panel_layout();
    assert_eq!(system.next_area_id(), 5);
    assert_eq!(system.window_size().width, 1280);
    assert_eq!(system.window_size().height, 720);
    assert!(system.editor_menu().is_none());
}

#[test]
fn select_kinds_must_match() {
    let op = ValueSelectOp::new(
        ValueParam::new(Value::Bool(true)),
        ValueParam::new(Value::Float(0)),
        ValueParam::new(Value::Float(0)),
    );
    let resolved = op.resolve(true, Value::Float(1), Value::Float(2)).unwrap();
    assert_eq!(resolved.value, (true, Value::Float(1), Value::Float(2)));
    assert_eq!(resolved.param_hash, 0);
    match op.resolve(true, Value::Float(1), Value::Vec2(0, 0)) {
        Err(EvalError::ValueSelectMismatch { left, right }) => {
            assert_eq!(left, ValueKind::Float);
            assert_eq!(right, ValueKind::Vec2);
        },
        other => panic!("unexpected {other:?}"),
    }
    assert_eq!(op.compute((true, Value::Float(1), Value::Float(2))), (Value::Float(1), NodeState::Empty));
    assert_eq!(op.compute((false, Value::Float(1), Value::Float(2))).0, Value::Float(2));
}

#[test]
fn mix_sizes_must_match() {
    let a = Image { width: 2, height: 2, rgba: vec![0; 16] };
    let b = Image { width: 2, height: 3, rgba: vec![0; 24] };
    assert!(check_mix_sizes(&a, &a).is_ok());
    match check_mix_sizes(&a, &b) {
        Err(EvalError::ImageSizeMismatch { left, right }) => {
            assert_eq!(left, (2, 2));
            assert_eq!(right, (2, 3));
        },
        other => panic!("unexpected {other:?}"),
    }
}

#[test]
fn delay_outputs_the_previous_input() {
    let op = ValueDelay1Op::new(ValueParam::new(Value::Float(0)));
    let (first, state) = op.compute(Value::Float(1), 10, &NodeState::Empty);
    assert_eq!(first, Value::Float(1));
    let (second, state) = op.compute(Value::Float(2), 20, &state);
    assert_eq!(second, Value::Float(1));
    let (third, state) = op.compute(Value::Float(3), 30, &state);
    assert_eq!(third, Value::Float(2));
    assert_eq!(state, NodeState::DelayValue { previous: Some(Value::Float(3)), previous_time: Some(30) });
}

#[test]
fn image_delay_outputs_the_previous_image() {
    let op = ImageDelay1Op::new(NodeId::new(1));
    let a = Image { width: 1, height: 1, rgba: vec![1, 2, 3, 4] };
    let b = Image { width: 1, height: 1, rgba: vec![5, 6, 7, 8] };
    let (first, state) = op.compute(a.clone(), 1, &NodeState::Empty);
    assert_eq!(first, a);
    let (second, state) = op.compute(b.clone(), 2, &state);
    assert_eq!(second, a);
    assert_eq!(state, NodeState::DelayImage { previous: Some(b), previous_time: Some(2) });
}

#[test]
fn rect_split_tiles_the_rect() {
    let r = Rect { x: 10, y: 20, width: 101, height: 50 };
    let (a, b) = r.split(SplitDirection::Horizontal, 3000);
    assert_eq!(a, Rect { x: 10, y: 20, width: 30, height: 50 });
    assert_eq!(b, Rect { x: 40, y: 20, width: 71, height: 50 });
    let (c, d) = r.split(SplitDirection::Vertical, 5000);
    assert_eq!(c.height + d.height, 50);
    assert_eq!(d.y, 45);
    assert_eq!(first_part_exec(1000, 20000), 1000);
    assert!(r.contains(Point::new(10, 20)));
    assert!(!r.contains(Point::new(111, 20)));
}

#[test]
fn drop_layout_by_position() {
    let r = Rect { x: 0, y: 0, width: 1000, height: 1000 };
    assert_eq!(drop_layout_exec(r, Point::new(500, 500)), Some(DropLayout::FullMove));
    assert_eq!(
        drop_layout_exec(r, Point::new(950, 500)),
        Some(DropLayout::Split { direction: SplitDirection::Horizontal, ratio: 7875, new_is_first: false })
    );
    assert_eq!(
        drop_layout_exec(r, Point::new(500, 50)),
        Some(DropLayout::Split { direction: SplitDirection::Vertical, ratio: 2125, new_is_first: true })
    );
    let thin = Rect { x: 0, y: 0, width: 1, height: 100 };
    assert_eq!(drop_layout_exec(thin, Point::new(0, 0)), None);
    assert_eq!(ratio_from_center_exec(0, true), 1500);
    assert_eq!(ratio_from_center_exec(10000, false), 8500);
}

#[test]
fn rects_left_of_the_origin_split_and_hit() {
    let r = Rect { x: -100, y: -50, width: 200, height: 100 };
    let (a, b) = r.split(SplitDirection::Horizontal, 5000);
    assert_eq!(a, Rect { x: -100, y: -50, width: 100, height: 100 });
    assert_eq!(b, Rect { x: 0, y: -50, width: 100, height: 100 });
    assert!(r.contains(Point::new(-100, -50)));
    assert!(!r.contains(Point::new(100, 0)));
    assert_eq!(drop_layout_exec(r, Point::new(0, 0)), Some(DropLayout::FullMove));
}
