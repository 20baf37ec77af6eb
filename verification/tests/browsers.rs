use nade::browsers::{
    reorder_tracks, AssetBrowserAction, AssetBrowserMessage, AssetBrowserState, ClipPlacement, ObjectId,
    ProjectPaneAction, ProjectPaneMessage, ProjectPaneState,
};
use nade::names::AssetEntry;
use nade::project::ItemType;

fn asset(id: u128, name: &str, kind: ItemType, parent: Option<u128>) -> AssetEntry {
    AssetEntry { id, name: name.to_string(), kind, parent }
}

fn sample_assets() -> Vec<AssetEntry> {
    vec![
        asset(1, "Assets", ItemType::Folder, None),
        asset(2, "Background.png", ItemType::Image, Some(1)),
        asset(3, "BGM.mp3", ItemType::Audio, Some(1)),
        asset(4, "Main", ItemType::Composition, None),
    ]
}

fn sample_tracks() -> Vec<Vec<usize>> {
    vec![vec![0, 1, 2], vec![2], vec![3]]
}

#[test]
fn object_browser_toggles_and_selects() {
    let mut pane = ProjectPaneState::default();
    assert_eq!(pane.apply_message(ProjectPaneMessage::ToggleExpand(7)), ProjectPaneAction::Nothing);
    assert!(pane.expanded_ids.contains(&7));
    pane.toggle_expand(7);
    assert!(!pane.expanded_ids.contains(&7));
    pane.apply_message(ProjectPaneMessage::Select(ObjectId::Instance { composition: 5, instance: 9 }));
    assert_eq!(pane.target_composition(), Some(5));
    pane.apply_message(ProjectPaneMessage::ClearSelection);
    assert_eq!(pane.selected_id, None);
    assert!(pane.expanded_ids.is_empty());
}

#[test]
fn opening_a_composition_expands_it() {
    let mut pane = ProjectPaneState::default();
    pane.apply_message(ProjectPaneMessage::OpenItem(ObjectId::Composition(3)));
    assert!(pane.expanded_ids.contains(&3));
    assert_eq!(pane.selected_id, Some(ObjectId::Composition(3)));
    pane.apply_message(ProjectPaneMessage::OpenItem(ObjectId::Instance { composition: 4, instance: 1 }));
    assert!(!pane.expanded_ids.contains(&4));
}

#[test]
fn adding_objects_needs_a_composition() {
    let mut pane = ProjectPaneState::default();
    assert_eq!(pane.apply_message(ProjectPaneMessage::AddObject), ProjectPaneAction::Nothing);
    pane.selected_id = Some(ObjectId::Instance { composition: 8, instance: 2 });
    assert_eq!(pane.apply_message(ProjectPaneMessage::AddObject), ProjectPaneAction::AddObject(8));
    pane.object_added(8, 3);
    assert_eq!(pane.selected_id, Some(ObjectId::Instance { composition: 8, instance: 3 }));
    assert!(pane.expanded_ids.contains(&8));
    assert_eq!(pane.apply_message(ProjectPaneMessage::NewComposition), ProjectPaneAction::CreateComposition);
    pane.composition_created(11);
    assert_eq!(pane.selected_id, Some(ObjectId::Composition(11)));
    assert!(pane.expanded_ids.contains(&11));
}

#[test]
fn opening_a_folder_expands_it() {
    let assets = sample_assets();
    let tracks = sample_tracks();
    let mut browser = AssetBrowserState::default();
    browser.apply_message(AssetBrowserMessage::OpenItem(1), &assets, &tracks);
    assert!(browser.expanded_ids.contains(&1));
    browser.apply_message(AssetBrowserMessage::OpenItem(2), &assets, &tracks);
    assert!(!browser.expanded_ids.contains(&2));
    assert_eq!(browser.selected_id, Some(2));
    browser.apply_message(AssetBrowserMessage::OpenItem(99), &assets, &tracks);
    assert_eq!(browser.selected_id, Some(99));
    assert_eq!(browser.expanded_ids.len(), 1);
}

#[test]
fn new_folders_go_next_to_the_selection() {
    let mut assets = sample_assets();
    let tracks = sample_tracks();
    let mut browser = AssetBrowserState::default();
    assert_eq!(
        browser.apply_message(AssetBrowserMessage::NewFolder, &assets, &tracks),
        AssetBrowserAction::CreateFolder { parent: None, name: "New Folder".to_string() }
    );
    browser.selected_id = Some(2);
    assert_eq!(browser.import_parent(&assets), Some(1));
    assets.push(asset(5, "New Folder", ItemType::Folder, Some(1)));
    assert_eq!(
        browser.apply_message(AssetBrowserMessage::NewFolder, &assets, &tracks),
        AssetBrowserAction::CreateFolder { parent: Some(1), name: "New Folder 2".to_string() }
    );
    browser.selected_id = Some(1);
    assert_eq!(browser.import_parent(&assets), Some(1));
    browser.selected_id = Some(4);
    assert_eq!(browser.import_parent(&assets), None);
    browser.folder_created(Some(1), 6);
    assert_eq!(browser.selected_id, Some(6));
    assert!(browser.expanded_ids.contains(&1) && browser.expanded_ids.contains(&6));
}

#[test]
fn imports_select_the_new_asset() {
    let mut browser = AssetBrowserState::default();
    assert_eq!(
        browser.apply_message(AssetBrowserMessage::ImportMedia, &sample_assets(), &sample_tracks()),
        AssetBrowserAction::PickMediaFile
    );
    browser.media_imported(Some(1), None);
    assert_eq!(browser.selected_id, None);
    assert!(browser.expanded_ids.is_empty());
    browser.media_imported(Some(1), Some(12));
    assert_eq!(browser.selected_id, Some(12));
    assert!(browser.expanded_ids.contains(&1));
}

#[test]
fn media_goes_on_the_track_for_its_kind() {
    let assets = sample_assets();
    let tracks = sample_tracks();
    let mut browser = AssetBrowserState::default();
    assert_eq!(browser.apply_message(AssetBrowserMessage::AddToTimeline, &assets, &tracks), AssetBrowserAction::Nothing);
    browser.selected_id = Some(3);
    assert_eq!(
        browser.apply_message(AssetBrowserMessage::AddToTimeline, &assets, &tracks),
        AssetBrowserAction::AddToTimeline(ClipPlacement { asset: 3, track: 1, clip_id: 4 })
    );
    browser.selected_id = Some(2);
    assert_eq!(
        browser.timeline_placement(&assets, &tracks),
        Some(ClipPlacement { asset: 2, track: 0, clip_id: 4 })
    );
    assert_eq!(browser.timeline_placement(&assets, &vec![]), None);
    browser.selected_id = Some(1);
    assert_eq!(browser.timeline_placement(&assets, &tracks), None);
    browser.selected_id = Some(4);
    assert_eq!(browser.timeline_placement(&assets, &tracks), None);
    browser.selected_id = Some(3);
    assert_eq!(browser.timeline_placement(&assets, &vec![vec![]]), None);
}

#[test]
fn tracks_move_and_move_back() {
    let mut tracks = vec!["Video 1", "Audio 1", "Video 2"];
    assert!(reorder_tracks(&mut tracks, 0, 2));
    assert_eq!(tracks, vec!["Audio 1", "Video 2", "Video 1"]);
    assert!(reorder_tracks(&mut tracks, 2, 0));
    assert_eq!(tracks, vec!["Video 1", "Audio 1", "Video 2"]);
    assert!(!reorder_tracks(&mut tracks, 1, 1));
    assert!(!reorder_tracks(&mut tracks, 1, 3));
    assert_eq!(tracks, vec!["Video 1", "Audio 1", "Video 2"]);
}
