use nade::project::ItemType;
use nade::names::{
    next_clip_id, unique_asset_folder_name, unique_composition_name, unique_numbered_name, unique_object_name,
    AssetEntry,
};

fn names(list: &[&str]) -> Vec<String> {
    list.iter().map(|s| s.to_string()).collect()
}

#[test]
fn base_name_when_free() {
    assert_eq!(unique_numbered_name("Layer", &names(&["Other"])), "Layer");
    assert_eq!(unique_composition_name(&[]), "Composition");
    assert_eq!(unique_object_name(&names(&["Object 2"])), "Object");
}

#[test]
fn first_free_number_starts_at_two() {
    assert_eq!(unique_composition_name(&names(&["Composition"])), "Composition 2");
    assert_eq!(
        unique_composition_name(&names(&["Composition", "Composition 2", "Composition 3"])),
        "Composition 4"
    );
    assert_eq!(unique_object_name(&names(&["Object", "Object 3"])), "Object 2");
}

#[test]
fn numbering_passes_ten() {
    let mut taken = names(&["Object"]);
    for n in 2..=10 {
        taken.push(format!("Object {n}"));
    }
    assert_eq!(unique_object_name(&taken), "Object 11");
}

#[test]
fn clip_ids_follow_the_largest() {
    assert_eq!(next_clip_id(&vec![]), 0);
    assert_eq!(next_clip_id(&vec![vec![], vec![]]), 0);
    assert_eq!(next_clip_id(&vec![vec![3, 1], vec![7], vec![]]), 8);
    assert_eq!(next_clip_id(&vec![vec![0]]), 1);
}

fn entry(name: &str, parent: Option<u128>, is_folder: bool) -> AssetEntry {
    let kind = if is_folder { ItemType::Folder } else { ItemType::Image };
    AssetEntry { id: 0, name: name.to_string(), kind, parent }
}

#[test]
fn folder_names_only_count_sibling_folders() {
    let assets = vec![
        entry("New Folder", None, true),
        entry("New Folder 2", Some(1), true),
        entry("New Folder 2", None, false),
    ];
    assert_eq!(unique_asset_folder_name(&assets, None), "New Folder 2");
    assert_eq!(unique_asset_folder_name(&assets, Some(1)), "New Folder");
    assert_eq!(unique_asset_folder_name(&[], Some(5)), "New Folder");
}
