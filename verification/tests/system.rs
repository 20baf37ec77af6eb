use nade::dock::{CornerAction, DockNode, SplitDirection};
use nade::geometry::{Point, Size};
use nade::panel_content::{create_panel_layout, PanelContent};
use nade::system::{AreaPreview, DragState, PanelSystem, PanelSystemMessage};

type Msg = PanelSystemMessage<PanelContent, ()>;

fn leaves(node: &DockNode<PanelContent>, out: &mut Vec<(usize, PanelContent)>) {
    match node {
        DockNode::Empty => {}
        DockNode::Leaf(area) => out.push((area.id, area.content)),
        DockNode::Split { first, second, .. } => {
            leaves(first, out);
            leaves(second, out);
        }
    }
}

fn layout_of(system: &PanelSystem<PanelContent>) -> Vec<(usize, PanelContent)> {
    let mut out = Vec::new();
    leaves(system.root(), &mut out);
    out
}

fn initial() -> Vec<(usize, PanelContent)> {
    vec![
        (0, PanelContent::Project),
        (1, PanelContent::Assets),
        (2, PanelContent::MainPreview),
        (3, PanelContent::Timeline),
        (4, PanelContent::Inspector),
    ]
}

#[test]
fn starting_layout_has_five_areas() {
    let system = create_panel_layout();
    assert_eq!(layout_of(&system), initial());
    assert_eq!(system.next_area_id(), 5);
    assert_eq!(system.window_size(), Size::new(1280, 720));
}

#[test]
fn corner_drag_splits_and_join_restores() {
    let mut system = create_panel_layout();
    system.update(Msg::MouseMove(Point::new(600, 300)), 0);
    system.update(Msg::CornerDragStart(2), 0);
    system.update(Msg::MouseMove(Point::new(500, 250)), 0);
    assert_eq!(system.drag_state().corner_preview(), Some((2, CornerAction::SplitHorizontal, 3296)));
    system.update(Msg::CornerDragEnd, 0);
    assert!(matches!(system.drag_state(), DragState::Idle));
    assert_eq!(system.next_area_id(), 6);
    let mut expected = initial();
    expected.insert(3, (5, PanelContent::MainPreview));
    assert_eq!(layout_of(&system), expected);

    system.update(Msg::JoinArea(5), 0);
    assert_eq!(layout_of(&system), initial());
}

#[test]
fn short_or_inward_corner_drag_does_nothing() {
    let mut system = create_panel_layout();
    system.update(Msg::MouseMove(Point::new(600, 300)), 0);
    system.update(Msg::CornerDragStart(2), 0);
    system.update(Msg::MouseMove(Point::new(590, 290)), 0);
    assert_eq!(system.drag_state().corner_preview(), None);
    system.update(Msg::MouseMove(Point::new(700, 400)), 0);
    assert_eq!(system.drag_state().corner_preview(), None);
    system.update(Msg::CornerDragEnd, 0);
    assert_eq!(layout_of(&system), initial());
    assert_eq!(system.next_area_id(), 5);
}

#[test]
fn resize_drag_moves_and_clamps_the_ratio() {
    let mut system = create_panel_layout();
    system.update(Msg::MouseMove(Point::new(230, 100)), 0);
    system.update(Msg::ResizeStart(vec![], SplitDirection::Horizontal), 0);
    system.update(Msg::MouseMove(Point::new(358, 100)), 0);
    match system.root() {
        DockNode::Split { ratio, .. } => assert_eq!(*ratio, 2800),
        _ => panic!("expected a split"),
    }
    system.update(Msg::MouseMove(Point::new(1270, 100)), 0);
    match system.root() {
        DockNode::Split { ratio, .. } => assert_eq!(*ratio, 8500),
        _ => panic!("expected a split"),
    }
    system.update(Msg::MouseMove(Point::new(0, 100)), 0);
    match system.root() {
        DockNode::Split { ratio, .. } => assert_eq!(*ratio, 1500),
        _ => panic!("expected a split"),
    }
    system.update(Msg::ResizeEnd, 0);
    assert!(matches!(system.drag_state(), DragState::Idle));
}

#[test]
fn resize_start_on_a_leaf_path_is_ignored() {
    let mut system = create_panel_layout();
    system.update(Msg::ResizeStart(vec![0, 0], SplitDirection::Vertical), 0);
    assert!(matches!(system.drag_state(), DragState::Idle));
}

#[test]
fn dropping_on_the_centre_swaps_areas() {
    let mut system = create_panel_layout();
    system.update(Msg::MouseMove(Point::new(10, 10)), 0);
    system.update(Msg::CornerDragStart(0), 0);
    system.update(Msg::MouseMove(Point::new(1164, 360)), 0);
    assert_eq!(system.drag_state().corner_preview(), Some((0, CornerAction::Move, 5000)));
    system.update(Msg::CornerDragEnd, 0);
    assert_eq!(
        layout_of(&system),
        vec![
            (4, PanelContent::Inspector),
            (1, PanelContent::Assets),
            (2, PanelContent::MainPreview),
            (3, PanelContent::Timeline),
            (0, PanelContent::Project),
        ]
    );
    assert_eq!(system.next_area_id(), 5);
}

#[test]
fn swapping_back_restores_the_layout() {
    let mut system = create_panel_layout();
    system.update(Msg::MouseMove(Point::new(10, 10)), 0);
    system.update(Msg::CornerDragStart(0), 0);
    system.update(Msg::MouseMove(Point::new(1164, 360)), 0);
    system.update(Msg::CornerDragEnd, 0);
    system.update(Msg::MouseMove(Point::new(1200, 100)), 0);
    system.update(Msg::CornerDragStart(0), 0);
    system.update(Msg::MouseMove(Point::new(115, 198)), 0);
    system.update(Msg::CornerDragEnd, 0);
    assert_eq!(layout_of(&system), initial());
}

#[test]
fn dropping_near_an_edge_docks_the_area() {
    let mut system = create_panel_layout();
    system.update(Msg::MouseMove(Point::new(10, 10)), 0);
    system.update(Msg::CornerDragStart(0), 0);
    system.update(Msg::MouseMove(Point::new(1270, 360)), 0);
    assert_eq!(system.drag_state().corner_preview(), Some((0, CornerAction::Move, 7958)));
    system.update(Msg::CornerDragEnd, 0);
    assert_eq!(
        layout_of(&system),
        vec![
            (1, PanelContent::Assets),
            (2, PanelContent::MainPreview),
            (3, PanelContent::Timeline),
            (4, PanelContent::Inspector),
            (5, PanelContent::Project),
        ]
    );
    match system.root() {
        DockNode::Split { second, .. } => match &**second {
            DockNode::Split { second, .. } => match &**second {
                DockNode::Split { direction, ratio, .. } => {
                    assert_eq!(*direction, SplitDirection::Horizontal);
                    assert_eq!(*ratio, 7958);
                }
                _ => panic!("expected the docking split"),
            },
            _ => panic!("expected a split"),
        },
        _ => panic!("expected a split"),
    }
}

#[test]
fn editor_menu_opens_and_closes_over_time() {
    let mut system = create_panel_layout();
    system.update(Msg::ToggleEditorMenu(2), 0);
    assert!(system.is_editor_menu_animating());
    system.update(Msg::AnimTick, 50);
    assert_eq!(system.editor_menu().unwrap().progress, 357);
    system.update(Msg::AnimTick, 200);
    assert_eq!(system.editor_menu().unwrap().progress, 714);
    system.update(Msg::AnimTick, 300);
    assert_eq!(system.editor_menu().unwrap().progress, 1000);
    assert!(!system.is_editor_menu_animating());
    system.update(Msg::ChangeEditor(2, PanelContent::CurveEditor), 300);
    assert!(!system.editor_menu().unwrap().opening);
    let mut expected = initial();
    expected[2] = (2, PanelContent::CurveEditor);
    assert_eq!(layout_of(&system), expected);
    system.update(Msg::AnimTick, 350);
    assert_eq!(system.editor_menu().unwrap().progress, 643);
    system.update(Msg::AnimTick, 400);
    system.update(Msg::AnimTick, 450);
    assert!(system.editor_menu().is_none());
}

#[test]
fn toggling_the_same_menu_twice_turns_it_around() {
    let mut system = create_panel_layout();
    system.update(Msg::ToggleEditorMenu(1), 0);
    system.update(Msg::ToggleEditorMenu(1), 10);
    let menu = system.editor_menu().unwrap();
    assert!(!menu.opening);
    assert_eq!(menu.last_tick_ms, 10);
    system.update(Msg::ToggleEditorMenu(3), 20);
    let menu = system.editor_menu().unwrap();
    assert!(menu.opening);
    assert_eq!(menu.area_id, 3);
    assert_eq!(menu.progress, 0);
}

#[test]
fn hover_is_kept_while_resizing() {
    let mut system = create_panel_layout();
    system.update(Msg::ResizeHandleHover(Some((vec![1], SplitDirection::Horizontal))), 0);
    assert_eq!(system.hover_resize_handle(), &Some((vec![1], SplitDirection::Horizontal)));
    system.update(Msg::ResizeStart(vec![1], SplitDirection::Horizontal), 0);
    system.update(Msg::ResizeHandleHover(None), 0);
    assert_eq!(system.hover_resize_handle(), &Some((vec![1], SplitDirection::Horizontal)));
    system.update(Msg::ResizeEnd, 0);
    system.update(Msg::ResizeHandleHover(None), 0);
    assert_eq!(system.hover_resize_handle(), &None);
}

#[test]
fn window_resize_and_app_messages() {
    let mut system = create_panel_layout();
    system.update(Msg::WindowResized(Size::new(640, 480)), 0);
    assert_eq!(system.window_size(), Size::new(640, 480));
    system.update(Msg::AppMessage(()), 0);
    assert_eq!(layout_of(&system), initial());
}

#[test]
fn joining_the_only_area_keeps_it() {
    let mut system: PanelSystem<PanelContent> = PanelSystem::new();
    let mut b = nade::system::LayoutBuilder::new();
    let only = b.area(PanelContent::Timeline);
    system = system.with_layout(only).with_ids(1);
    system.update(Msg::JoinArea(0), 0);
    assert_eq!(layout_of(&system), vec![(0, PanelContent::Timeline)]);
}

#[test]
fn only_areas_with_a_sibling_can_be_joined() {
    let system = create_panel_layout();
    for id in 0..5 {
        assert!(system.area_has_sibling(id));
    }
    assert!(!system.area_has_sibling(5));
    let mut single: PanelSystem<PanelContent> = PanelSystem::new();
    single.update(Msg::JoinArea(0), 0);
    assert!(!single.area_has_sibling(0));
}

#[test]
fn only_splits_have_a_direction() {
    assert_eq!(CornerAction::SplitHorizontal.direction(), Some(SplitDirection::Horizontal));
    assert_eq!(CornerAction::SplitVertical.direction(), Some(SplitDirection::Vertical));
    assert_eq!(CornerAction::Move.direction(), None);
}

#[test]
fn areas_show_the_preview_of_the_drag() {
    let mut system = create_panel_layout();
    assert_eq!(system.drag_state().area_preview(0), None);
    system.update(Msg::MouseMove(Point::new(10, 10)), 0);
    system.update(Msg::CornerDragStart(0), 0);
    system.update(Msg::MouseMove(Point::new(1164, 360)), 0);
    assert_eq!(system.drag_state().area_preview(4), Some(AreaPreview::FullMove));
    assert_eq!(system.drag_state().area_preview(0), Some(AreaPreview::MoveSource));
    assert_eq!(system.drag_state().area_preview(2), None);
    system.update(Msg::MouseMove(Point::new(1270, 360)), 0);
    assert_eq!(
        system.drag_state().area_preview(4),
        Some(AreaPreview::Dock { direction: SplitDirection::Horizontal, ratio: 7958, new_is_first: false })
    );
    system.update(Msg::CornerDragEnd, 0);

    let mut system = create_panel_layout();
    system.update(Msg::MouseMove(Point::new(600, 300)), 0);
    system.update(Msg::CornerDragStart(2), 0);
    system.update(Msg::MouseMove(Point::new(500, 250)), 0);
    assert_eq!(
        system.drag_state().area_preview(2),
        Some(AreaPreview::Split { action: CornerAction::SplitHorizontal, ratio: 3296 })
    );
    assert_eq!(system.drag_state().area_preview(3), None);
}
