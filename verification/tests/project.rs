use nade::project::{summarize_items, ItemType, ProjectData, ProjectItem, ProjectSummary};

fn version(id: u128) -> u128 {
    (id >> 76) & 0xf
}

fn variant(id: u128) -> u128 {
    (id >> 62) & 0x3
}

#[test]
fn new_items_get_version_four_ids() {
    let a = ProjectItem::new("A", ItemType::Image);
    let b = ProjectItem::new("B", ItemType::Video);
    assert_eq!(version(a.id), 4);
    assert_eq!(variant(a.id), 2);
    assert_eq!(version(b.id), 4);
    assert_ne!(a.id, b.id);
    assert_eq!(a.name, "A");
    assert!(a.children.is_empty());
}

#[test]
fn with_child_appends() {
    let parent = ProjectItem::new("P", ItemType::Folder);
    let id = parent.id;
    let parent = parent.with_child(ProjectItem::new("C1", ItemType::Audio)).with_child(ProjectItem::new("C2", ItemType::Image));
    assert_eq!(parent.id, id);
    assert_eq!(parent.children.len(), 2);
    assert_eq!(parent.children[0].name, "C1");
    assert_eq!(parent.children[1].name, "C2");
}

#[test]
fn sample_project_shape() {
    let data = ProjectData::default();
    let names: Vec<&str> = data.root_items.iter().map(|i| i.name.as_str()).collect();
    assert_eq!(names, vec!["Assets", "Scenes", "Main Composition"]);
    assert_eq!(data.root_items[0].children[2].name, "BGM.mp3");
    assert_eq!(data.root_items[0].children[2].kind, ItemType::Audio);
    assert_eq!(data.root_items[1].children[1].kind, ItemType::Composition);
}

#[test]
fn sample_project_counts() {
    let data = ProjectData::default();
    let summary = summarize_items(&data.root_items);
    assert_eq!(summary, ProjectSummary { total: 8, folders: 2, compositions: 3, media: 3 });
}

#[test]
fn counts_of_nothing_and_of_nesting() {
    assert_eq!(summarize_items(&vec![]), ProjectSummary::default());
    let deep = ProjectItem::new("a", ItemType::Folder)
        .with_child(ProjectItem::new("b", ItemType::Folder).with_child(ProjectItem::new("c", ItemType::Video)));
    let summary = summarize_items(&vec![deep]);
    assert_eq!(summary.total, 3);
    assert_eq!(summary.folders, 2);
    assert_eq!(summary.media, 1);
    assert_eq!(summary.compositions, 0);
}
