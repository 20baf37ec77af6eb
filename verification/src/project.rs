//! The items of the project pane: folders, compositions and media, each
//! under a random id.

use vstd::prelude::*;

verus! {

/// What a project item is.
#[derive(Debug, Clone, Copy, PartialEq, Eq, Structural)]
pub enum ItemType {
    Folder,
    Composition,
    Image,
    Video,
    Audio,
}

/// A random version-4 UUID (`uuid::Uuid::new_v4`), as its 128-bit value
/// (`Uuid::as_u128`). The source masks the random bits so that the version
/// field (bits 76 to 79) holds 4 and the variant field (bits 62 and 63)
/// holds `10`; nothing else is stated of the value. It panics when the
/// operating system cannot supply random bytes.
#[verifier::external_body]
fn new_v4_id() -> (res: u128)
    ensures
        (res >> 76u128) & 0xfu128 == 4,
        (res >> 62u128) & 0x3u128 == 2,
{
    uuid::Uuid::new_v4().as_u128()
}

/// An item of the project pane and the items under it.
#[derive(Debug)]
pub struct ProjectItem {
    /// The item's UUID, as its 128-bit value.
    pub id: u128,
    pub name: String,
    pub kind: ItemType,
    pub children: Vec<ProjectItem>,
}

impl ProjectItem {
    /// A new item without children, under a fresh random version-4 UUID.
    pub fn new(name: &str, kind: ItemType) -> (res: Self)
        ensures
            res.name@ == name@,
            res.kind == kind,
            res.children@.len() == 0,
            (res.id >> 76u128) & 0xfu128 == 4,
            (res.id >> 62u128) & 0x3u128 == 2,
    {
        ProjectItem { id: new_v4_id(), name: String::from_str(name), kind, children: Vec::new() }
    }

    /// The item with `child` added after its other children.
    pub fn with_child(self, child: ProjectItem) -> (res: Self)
        ensures
            res.id == self.id,
            res.name == self.name,
            res.kind == self.kind,
            res.children@ == self.children@.push(child),
    {
        let mut item = self;
        item.children.push(child);
        item
    }
}

/// The items at the top of the project pane.
#[derive(Debug)]
pub struct ProjectData {
    pub root_items: Vec<ProjectItem>,
}

impl Default for ProjectData {
    /// A sample project: an "Assets" folder with two images and a sound, a
    /// "Scenes" folder with two compositions, and a main composition.
    fn default() -> (res: Self)
        ensures
            res.root_items@.len() == 3,
            res.root_items@[0].name@ == "Assets"@ && res.root_items@[0].kind == ItemType::Folder,
            res.root_items@[0].children@.len() == 3,
            res.root_items@[0].children@[0].name@ == "Background.png"@ && res.root_items@[0].children@[0].kind == ItemType::Image,
            res.root_items@[0].children@[1].name@ == "Character.png"@ && res.root_items@[0].children@[1].kind == ItemType::Image,
            res.root_items@[0].children@[2].name@ == "BGM.mp3"@ && res.root_items@[0].children@[2].kind == ItemType::Audio,
            res.root_items@[1].name@ == "Scenes"@ && res.root_items@[1].kind == ItemType::Folder,
            res.root_items@[1].children@.len() == 2,
            res.root_items@[1].children@[0].name@ == "Scene 1"@ && res.root_items@[1].children@[0].kind == ItemType::Composition,
            res.root_items@[1].children@[1].name@ == "Scene 2"@ && res.root_items@[1].children@[1].kind == ItemType::Composition,
            res.root_items@[2].name@ == "Main Composition"@ && res.root_items@[2].kind == ItemType::Composition,
            res.root_items@[2].children@.len() == 0,
    {
        let assets = ProjectItem::new("Assets", ItemType::Folder)
            .with_child(ProjectItem::new("Background.png", ItemType::Image))
            .with_child(ProjectItem::new("Character.png", ItemType::Image))
            .with_child(ProjectItem::new("BGM.mp3", ItemType::Audio));
        let scenes = ProjectItem::new("Scenes", ItemType::Folder)
            .with_child(ProjectItem::new("Scene 1", ItemType::Composition))
            .with_child(ProjectItem::new("Scene 2", ItemType::Composition));
        let main = ProjectItem::new("Main Composition", ItemType::Composition);
        ProjectData { root_items: vec![assets, scenes, main] }
    }
}

/// How many items a project tree holds, by kind.
#[derive(Debug, Clone, Copy, PartialEq, Eq, Structural, Default)]
pub struct ProjectSummary {
    pub total: usize,
    pub folders: usize,
    pub compositions: usize,
    pub media: usize,
}

/// Counts of items: all, folders, compositions, media (images, videos and
/// sounds).
pub open spec fn item_counts(item: ProjectItem) -> (nat, nat, nat, nat)
    decreases item,
{
    let own = match item.kind {
        ItemType::Folder => (1nat, 1nat, 0nat, 0nat),
        ItemType::Composition => (1nat, 0nat, 1nat, 0nat),
        _ => (1nat, 0nat, 0nat, 1nat),
    };
    let rest = items_counts(item.children@);
    (own.0 + rest.0, own.1 + rest.1, own.2 + rest.2, own.3 + rest.3)
}

/// Counts of the items of several trees together.
pub open spec fn items_counts(items: Seq<ProjectItem>) -> (nat, nat, nat, nat)
    decreases items,
{
    if items.len() == 0 {
        (0, 0, 0, 0)
    } else {
        let a = items_counts(items.drop_last());
        let b = item_counts(items.last());
        (a.0 + b.0, a.1 + b.1, a.2 + b.2, a.3 + b.3)
    }
}

/// Adds the counts of `item` and everything under it to `summary`.
fn walk(item: &ProjectItem, summary: &mut ProjectSummary)
    requires
        old(summary).total + item_counts(*item).0 <= usize::MAX,
        old(summary).folders + old(summary).compositions + old(summary).media == old(summary).total,
    ensures
        final(summary).total == old(summary).total + item_counts(*item).0,
        final(summary).folders == old(summary).folders + item_counts(*item).1,
        final(summary).compositions == old(summary).compositions + item_counts(*item).2,
        final(summary).media == old(summary).media + item_counts(*item).3,
    decreases item,
{
    proof {
        lemma_counts_bounded(*item);
        lemma_item_partition(*item);
    }
    summary.total = summary.total + 1;
    match item.kind {
        ItemType::Folder => summary.folders = summary.folders + 1,
        ItemType::Composition => summary.compositions = summary.compositions + 1,
        _ => summary.media = summary.media + 1,
    }
    let mut i: usize = 0;
    while i < item.children.len()
        invariant
            i <= item.children@.len(),
            summary.total == old(summary).total + 1 + items_counts(item.children@.take(i as int)).0,
            summary.folders == old(summary).folders + (if item.kind == ItemType::Folder { 1nat } else { 0 }) + items_counts(item.children@.take(i as int)).1,
            summary.compositions == old(summary).compositions + (if item.kind == ItemType::Composition { 1nat } else { 0 }) + items_counts(item.children@.take(i as int)).2,
            summary.media == old(summary).media + (if item.kind != ItemType::Folder && item.kind != ItemType::Composition { 1nat } else { 0 }) + items_counts(item.children@.take(i as int)).3,
            old(summary).total + item_counts(*item).0 <= usize::MAX,
            old(summary).folders + old(summary).compositions + old(summary).media == old(summary).total,
            summary.folders + summary.compositions + summary.media == summary.total,
        decreases item.children.len() - i,
    {
        proof {
            assert(item.children@.take(i + 1).drop_last() =~= item.children@.take(i as int));
            lemma_prefix_counts(item.children@, i as int);
            assert(item.children@.take(i + 1).last() == item.children@[i as int]);
            lemma_items_partition(item.children@.take(i + 1));
            lemma_items_partition(item.children@);
        }
        walk(&item.children[i], summary);
        i = i + 1;
    }
    proof { assert(item.children@.take(i as int) =~= item.children@); }
}

/// Every item counts as exactly one of folder, composition or media.
proof fn lemma_item_partition(item: ProjectItem)
    ensures
        item_counts(item).0 == item_counts(item).1 + item_counts(item).2 + item_counts(item).3,
    decreases item,
{
    lemma_items_partition(item.children@);
}

/// The trees' items count as exactly one of folder, composition or media.
proof fn lemma_items_partition(items: Seq<ProjectItem>)
    ensures
        items_counts(items).0 == items_counts(items).1 + items_counts(items).2 + items_counts(items).3,
    decreases items,
{
    if items.len() > 0 {
        lemma_items_partition(items.drop_last());
        lemma_item_partition(items.last());
    }
}

/// Every item counts itself, so the counts of a tree are at least one.
proof fn lemma_counts_bounded(item: ProjectItem)
    ensures
        item_counts(item).0 >= 1,
        item_counts(item).0 == 1 + items_counts(item.children@).0,
{
}

/// The counts of a prefix of some trees, plus the next tree, stay within the
/// counts of all of them.
proof fn lemma_prefix_counts(items: Seq<ProjectItem>, i: int)
    requires
        0 <= i < items.len(),
    ensures
        items_counts(items.take(i + 1)).0 <= items_counts(items).0,
    decreases items.len() - i,
{
    if i + 1 < items.len() {
        lemma_prefix_counts(items, i + 1);
        assert(items.take(i + 2).drop_last() =~= items.take(i + 1));
    } else {
        assert(items.take(i + 1) =~= items);
    }
}

/// Counts the items of the trees `items`, by kind.
pub fn summarize_items(items: &Vec<ProjectItem>) -> (res: ProjectSummary)
    requires
        items_counts(items@).0 <= usize::MAX,
    ensures
        res.total == items_counts(items@).0,
        res.folders == items_counts(items@).1,
        res.compositions == items_counts(items@).2,
        res.media == items_counts(items@).3,
{
    let mut summary = ProjectSummary { total: 0, folders: 0, compositions: 0, media: 0 };
    let mut i: usize = 0;
    while i < items.len()
        invariant
            i <= items@.len(),
            summary.total == items_counts(items@.take(i as int)).0,
            summary.folders == items_counts(items@.take(i as int)).1,
            summary.compositions == items_counts(items@.take(i as int)).2,
            summary.media == items_counts(items@.take(i as int)).3,
            items_counts(items@).0 <= usize::MAX,
            summary.folders + summary.compositions + summary.media == summary.total,
        decreases items.len() - i,
    {
        proof {
            assert(items@.take(i + 1).drop_last() =~= items@.take(i as int));
            lemma_prefix_counts(items@, i as int);
            lemma_item_partition(items@[i as int]);
        }
        walk(&items[i], &mut summary);
        i = i + 1;
    }
    proof { assert(items@.take(i as int) =~= items@); }
    summary
}

} // verus!
