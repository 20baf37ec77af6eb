//! The object browser and the asset browser: which entries are expanded and
//! which is selected, what each browser message does to that, and what it
//! asks of the project. Ids of compositions, objects and assets are their
//! 128-bit values.

use vstd::prelude::*;
use std::collections::HashSet;
use crate::names::{is_first_free_name, next_clip_id, sibling_folder_names, unique_asset_folder_name, AssetEntry};
use crate::project::ItemType;

verus! {

broadcast use vstd::std_specs::hash::group_hash_axioms;

/// `s` with `id` taken out when it is in, put in when it is not.
pub open spec fn toggled(s: Set<u128>, id: u128) -> Set<u128> {
    if s.contains(id) { s.remove(id) } else { s.insert(id) }
}

/// `s` with `id` put in, when there is an id.
pub open spec fn with_optional(s: Set<u128>, id: Option<u128>) -> Set<u128> {
    match id {
        Some(x) => s.insert(x),
        None => s,
    }
}

/// Takes `id` out of `set` when it is in and puts it in when it is not.
fn toggle(set: &mut HashSet<u128>, id: u128)
    ensures
        final(set)@ == toggled(old(set)@, id),
{
    if set.contains(&id) {
        set.remove(&id);
    } else {
        set.insert(id);
    }
}

// ---------------------------------------------------------------------------
// The object browser
// ---------------------------------------------------------------------------

/// What the object browser shows: a composition, or an object placed in a
/// composition.
#[derive(Debug, Clone, Copy, PartialEq, Eq, Structural)]
pub enum ObjectId {
    Composition(u128),
    Instance { composition: u128, instance: u128 },
}

/// A message of the object browser.
#[derive(Debug, Clone, Copy, PartialEq, Eq, Structural)]
pub enum ProjectPaneMessage {
    /// Expand or collapse a composition.
    ToggleExpand(u128),
    Select(ObjectId),
    ClearSelection,
    /// Select an entry and, for a composition, expand it.
    OpenItem(ObjectId),
    NewComposition,
    /// Add an object to the composition of the selection.
    AddObject,
}

/// What a message of the object browser asks of the project.
#[derive(Debug, Clone, Copy, PartialEq, Eq, Structural)]
pub enum ProjectPaneAction {
    Nothing,
    /// Create a composition (then report it with
    /// [`ProjectPaneState::composition_created`]).
    CreateComposition,
    /// Add an object to this composition (then report it with
    /// [`ProjectPaneState::object_added`]).
    AddObject(u128),
}

/// The composition that new objects go to: the selected composition, or
/// the composition of the selected object.
pub open spec fn target_of(selected: Option<ObjectId>) -> Option<u128> {
    match selected {
        Some(ObjectId::Composition(c)) => Some(c),
        Some(ObjectId::Instance { composition, .. }) => Some(composition),
        None => None,
    }
}

/// The object browser's state: the expanded compositions and the selection.
#[derive(Debug)]
pub struct ProjectPaneState {
    pub expanded_ids: HashSet<u128>,
    pub selected_id: Option<ObjectId>,
}

impl Default for ProjectPaneState {
    /// Nothing expanded, nothing selected.
    fn default() -> (res: Self)
        ensures
            res.expanded_ids@ == Set::<u128>::empty(),
            res.selected_id is None,
    {
        ProjectPaneState { expanded_ids: HashSet::new(), selected_id: None }
    }
}

impl ProjectPaneState {
    /// Expands the composition `id` when it is collapsed and collapses it
    /// when it is expanded.
    pub fn toggle_expand(&mut self, id: u128)
        ensures
            final(self).expanded_ids@ == toggled(old(self).expanded_ids@, id),
            final(self).selected_id == old(self).selected_id,
    {
        toggle(&mut self.expanded_ids, id);
    }

    /// Selects `id`; a composition is expanded too.
    pub fn open_item(&mut self, id: ObjectId)
        ensures
            final(self).selected_id == Some(id),
            final(self).expanded_ids@ == (match id {
                ObjectId::Composition(c) => old(self).expanded_ids@.insert(c),
                ObjectId::Instance { .. } => old(self).expanded_ids@,
            }),
    {
        self.selected_id = Some(id);
        if let ObjectId::Composition(c) = id {
            self.expanded_ids.insert(c);
        }
    }

    /// The composition that new objects go to (see [`target_of`]).
    pub fn target_composition(&self) -> (res: Option<u128>)
        ensures
            res == target_of(self.selected_id),
    {
        match self.selected_id {
            Some(ObjectId::Composition(c)) => Some(c),
            Some(ObjectId::Instance { composition, .. }) => Some(composition),
            None => None,
        }
    }

    /// Applies a message of the object browser and returns what it asks of
    /// the project: a new composition, or a new object in the target
    /// composition (nothing when there is none).
    pub fn apply_message(&mut self, message: ProjectPaneMessage) -> (action: ProjectPaneAction)
        ensures
            match message {
                ProjectPaneMessage::ToggleExpand(id) => {
                    &&& final(self).expanded_ids@ == toggled(old(self).expanded_ids@, id)
                    &&& final(self).selected_id == old(self).selected_id
                    &&& action == ProjectPaneAction::Nothing
                },
                ProjectPaneMessage::Select(id) => {
                    &&& final(self).expanded_ids@ == old(self).expanded_ids@
                    &&& final(self).selected_id == Some(id)
                    &&& action == ProjectPaneAction::Nothing
                },
                ProjectPaneMessage::ClearSelection => {
                    &&& final(self).expanded_ids@ == old(self).expanded_ids@
                    &&& final(self).selected_id is None
                    &&& action == ProjectPaneAction::Nothing
                },
                ProjectPaneMessage::OpenItem(id) => {
                    &&& final(self).selected_id == Some(id)
                    &&& final(self).expanded_ids@ == (match id {
                        ObjectId::Composition(c) => old(self).expanded_ids@.insert(c),
                        ObjectId::Instance { .. } => old(self).expanded_ids@,
                    })
                    &&& action == ProjectPaneAction::Nothing
                },
                ProjectPaneMessage::NewComposition => {
                    &&& final(self).expanded_ids@ == old(self).expanded_ids@
                    &&& final(self).selected_id == old(self).selected_id
                    &&& action == ProjectPaneAction::CreateComposition
                },
                ProjectPaneMessage::AddObject => {
                    &&& final(self).expanded_ids@ == old(self).expanded_ids@
                    &&& final(self).selected_id == old(self).selected_id
                    &&& action == (match target_of(old(self).selected_id) {
                        Some(c) => ProjectPaneAction::AddObject(c),
                        None => ProjectPaneAction::Nothing,
                    })
                },
            },
    {
        match message {
            ProjectPaneMessage::ToggleExpand(id) => {
                self.toggle_expand(id);
                ProjectPaneAction::Nothing
            },
            ProjectPaneMessage::Select(id) => {
                self.selected_id = Some(id);
                ProjectPaneAction::Nothing
            },
            ProjectPaneMessage::ClearSelection => {
                self.selected_id = None;
                ProjectPaneAction::Nothing
            },
            ProjectPaneMessage::OpenItem(id) => {
                self.open_item(id);
                ProjectPaneAction::Nothing
            },
            ProjectPaneMessage::NewComposition => ProjectPaneAction::CreateComposition,
            ProjectPaneMessage::AddObject => match self.target_composition() {
                Some(c) => ProjectPaneAction::AddObject(c),
                None => ProjectPaneAction::Nothing,
            },
        }
    }

    /// The project created the composition `id`: it is expanded and
    /// selected.
    pub fn composition_created(&mut self, id: u128)
        ensures
            final(self).expanded_ids@ == old(self).expanded_ids@.insert(id),
            final(self).selected_id == Some(ObjectId::Composition(id)),
    {
        self.expanded_ids.insert(id);
        self.selected_id = Some(ObjectId::Composition(id));
    }

    /// The project added the object `instance` to `composition`: the
    /// composition is expanded and the object selected.
    pub fn object_added(&mut self, composition: u128, instance: u128)
        ensures
            final(self).expanded_ids@ == old(self).expanded_ids@.insert(composition),
            final(self).selected_id == Some(ObjectId::Instance { composition, instance }),
    {
        self.expanded_ids.insert(composition);
        self.selected_id = Some(ObjectId::Instance { composition, instance });
    }
}

// ---------------------------------------------------------------------------
// The asset browser
// ---------------------------------------------------------------------------

/// Whether assets of this kind are media (they can go on the timeline).
pub open spec fn is_media(kind: ItemType) -> bool {
    kind == ItemType::Image || kind == ItemType::Video || kind == ItemType::Audio
}

/// The position of the first asset with id `id`, if any.
pub open spec fn asset_index(assets: Seq<AssetEntry>, id: u128) -> Option<int>
    decreases assets.len(),
{
    if assets.len() == 0 {
        None
    } else {
        match asset_index(assets.drop_last(), id) {
            Some(i) => Some(i),
            None => if assets.last().id == id { Some(assets.len() - 1) } else { None },
        }
    }
}

/// The kind and folder of the asset with id `id`, if any.
pub open spec fn asset_info(assets: Seq<AssetEntry>, id: u128) -> Option<(ItemType, Option<u128>)> {
    match asset_index(assets, id) {
        Some(i) => Some((assets[i].kind, assets[i].parent)),
        None => None,
    }
}

/// Where new assets go: into the selected folder, or next to the selected
/// asset; nowhere in particular when nothing (known) is selected.
pub open spec fn import_parent_of(selected: Option<u128>, assets: Seq<AssetEntry>) -> Option<u128> {
    match selected {
        None => None,
        Some(id) => match asset_info(assets, id) {
            None => None,
            Some((kind, parent)) => if kind == ItemType::Folder { Some(id) } else { parent },
        },
    }
}

/// The track a media asset goes on: sounds on the second track, pictures
/// and videos on the first.
pub open spec fn track_for(kind: ItemType) -> int {
    if kind == ItemType::Audio { 1 } else { 0 }
}

/// Where a clip for the selected asset goes on the timeline.
#[derive(Debug, Clone, Copy, PartialEq, Eq, Structural)]
pub struct ClipPlacement {
    pub asset: u128,
    pub track: usize,
    pub clip_id: usize,
}

/// A message of the asset browser.
#[derive(Debug, Clone, Copy, PartialEq, Eq, Structural)]
pub enum AssetBrowserMessage {
    /// Expand or collapse a folder.
    ToggleExpand(u128),
    Select(u128),
    ClearSelection,
    /// Select an asset and, for a folder, expand it.
    OpenItem(u128),
    ImportMedia,
    NewFolder,
    AddToTimeline,
}

/// What a message of the asset browser asks of the application.
#[derive(Debug, Clone, PartialEq, Eq)]
pub enum AssetBrowserAction {
    Nothing,
    /// Ask the user for a media file (then import it and report it with
    /// [`AssetBrowserState::media_imported`]).
    PickMediaFile,
    /// Create a folder with this name in this parent (then report it with
    /// [`AssetBrowserState::folder_created`]).
    CreateFolder { parent: Option<u128>, name: String },
    /// Put a clip for the asset on the timeline.
    AddToTimeline(ClipPlacement),
}

/// The asset browser's state: the expanded folders and the selection.
#[derive(Debug)]
pub struct AssetBrowserState {
    pub expanded_ids: HashSet<u128>,
    pub selected_id: Option<u128>,
}

/// The position of the first asset with id `id`, if any.
pub fn find_asset(assets: &[AssetEntry], id: u128) -> (res: Option<usize>)
    ensures
        match res {
            Some(i) => asset_index(assets@, id) == Some(i as int),
            None => asset_index(assets@, id) is None,
        },
{
    let mut i: usize = 0;
    while i < assets.len()
        invariant
            i <= assets@.len(),
            asset_index(assets@.take(i as int), id) is None,
        decreases assets.len() - i,
    {
        proof { assert(assets@.take(i + 1).drop_last() =~= assets@.take(i as int)); }
        if assets[i].id == id {
            proof { lemma_asset_index_prefix(assets@, id, i + 1); }
            return Some(i);
        }
        i = i + 1;
    }
    proof { assert(assets@.take(i as int) =~= assets@); }
    None
}

/// A match found in a prefix is the match of the whole sequence.
proof fn lemma_asset_index_prefix(assets: Seq<AssetEntry>, id: u128, n: int)
    requires
        0 <= n <= assets.len(),
        asset_index(assets.take(n), id) is Some,
    ensures
        asset_index(assets, id) == asset_index(assets.take(n), id),
    decreases assets.len() - n,
{
    if n < assets.len() {
        assert(assets.take(n + 1).drop_last() =~= assets.take(n));
        lemma_asset_index_prefix(assets, id, n + 1);
    } else {
        assert(assets.take(n) =~= assets);
    }
}

/// A found position is a position of the sequence.
proof fn lemma_asset_index_bounds(assets: Seq<AssetEntry>, id: u128)
    ensures
        asset_index(assets, id) matches Some(i) ==> 0 <= i < assets.len() && assets[i].id == id,
    decreases assets.len(),
{
    if assets.len() > 0 {
        lemma_asset_index_bounds(assets.drop_last(), id);
    }
}

impl Default for AssetBrowserState {
    /// Nothing expanded, nothing selected.
    fn default() -> (res: Self)
        ensures
            res.expanded_ids@ == Set::<u128>::empty(),
            res.selected_id is None,
    {
        AssetBrowserState { expanded_ids: HashSet::new(), selected_id: None }
    }
}

impl AssetBrowserState {
    /// Where new assets go (see [`import_parent_of`]).
    pub fn import_parent(&self, assets: &[AssetEntry]) -> (res: Option<u128>)
        ensures
            res == import_parent_of(self.selected_id, assets@),
    {
        let id = match self.selected_id {
            Some(id) => id,
            None => return None,
        };
        proof { lemma_asset_index_bounds(assets@, id); }
        match find_asset(assets, id) {
            None => None,
            Some(i) => {
                if assets[i].kind == ItemType::Folder {
                    Some(id)
                } else {
                    assets[i].parent
                }
            },
        }
    }

    /// Where a clip for the selected asset goes: on the track for its kind,
    /// under the next clip id. Nothing when no asset (known to the project)
    /// is selected, when it is not media, or when the timeline lacks that
    /// track.
    pub fn timeline_placement(&self, assets: &[AssetEntry], tracks: &Vec<Vec<usize>>) -> (res: Option<ClipPlacement>)
        requires
            forall|t: int, c: int| 0 <= t < tracks@.len() && 0 <= c < tracks@[t]@.len() ==> #[trigger] tracks@[t]@[c] < usize::MAX,
        ensures
            res is Some <==> (self.selected_id matches Some(id) && asset_info(assets@, id) matches Some((kind, _))
                && is_media(kind) && track_for(kind) < tracks@.len()),
            res matches Some(p) ==> p.asset == self.selected_id.unwrap()
                && p.track == track_for(asset_info(assets@, p.asset).unwrap().0)
                && (forall|t: int, c: int| 0 <= t < tracks@.len() && 0 <= c < tracks@[t]@.len() ==> #[trigger] tracks@[t]@[c] < p.clip_id)
                && (p.clip_id == 0 || exists|t: int, c: int| 0 <= t < tracks@.len() && 0 <= c < tracks@[t]@.len() && #[trigger] tracks@[t]@[c] == p.clip_id - 1),
    {
        let id = match self.selected_id {
            Some(id) => id,
            None => return None,
        };
        proof { lemma_asset_index_bounds(assets@, id); }
        let i = match find_asset(assets, id) {
            Some(i) => i,
            None => return None,
        };
        let kind = assets[i].kind;
        if !(kind == ItemType::Image || kind == ItemType::Video || kind == ItemType::Audio) {
            return None;
        }
        let clip_id = next_clip_id(tracks);
        let track: usize = if kind == ItemType::Audio { 1 } else { 0 };
        if track < tracks.len() {
            Some(ClipPlacement { asset: id, track, clip_id })
        } else {
            None
        }
    }

    /// Applies a message of the asset browser and returns what it asks of
    /// the application.
    pub fn apply_message(
        &mut self,
        message: AssetBrowserMessage,
        assets: &[AssetEntry],
        tracks: &Vec<Vec<usize>>,
    ) -> (action: AssetBrowserAction)
        requires
            forall|t: int, c: int| 0 <= t < tracks@.len() && 0 <= c < tracks@[t]@.len() ==> #[trigger] tracks@[t]@[c] < usize::MAX,
        ensures
            match message {
                AssetBrowserMessage::ToggleExpand(id) => {
                    &&& final(self).expanded_ids@ == toggled(old(self).expanded_ids@, id)
                    &&& final(self).selected_id == old(self).selected_id
                    &&& action == AssetBrowserAction::Nothing
                },
                AssetBrowserMessage::Select(id) => {
                    &&& final(self).expanded_ids@ == old(self).expanded_ids@
                    &&& final(self).selected_id == Some(id)
                    &&& action == AssetBrowserAction::Nothing
                },
                AssetBrowserMessage::ClearSelection => {
                    &&& final(self).expanded_ids@ == old(self).expanded_ids@
                    &&& final(self).selected_id is None
                    &&& action == AssetBrowserAction::Nothing
                },
                AssetBrowserMessage::OpenItem(id) => {
                    &&& final(self).selected_id == Some(id)
                    &&& final(self).expanded_ids@ == (match asset_info(assets@, id) {
                        Some((kind, _)) => if kind == ItemType::Folder {
                            old(self).expanded_ids@.insert(id)
                        } else {
                            old(self).expanded_ids@
                        },
                        None => old(self).expanded_ids@,
                    })
                    &&& action == AssetBrowserAction::Nothing
                },
                AssetBrowserMessage::ImportMedia => {
                    &&& final(self).expanded_ids@ == old(self).expanded_ids@
                    &&& final(self).selected_id == old(self).selected_id
                    &&& action == AssetBrowserAction::PickMediaFile
                },
                AssetBrowserMessage::NewFolder => {
                    &&& final(self).expanded_ids@ == old(self).expanded_ids@
                    &&& final(self).selected_id == old(self).selected_id
                    &&& action matches AssetBrowserAction::CreateFolder { parent, name }
                    &&& parent == import_parent_of(old(self).selected_id, assets@)
                    &&& !sibling_folder_names(assets@, parent).contains(name@)
                    &&& is_first_free_name("New Folder"@, sibling_folder_names(assets@, parent), name@)
                },
                AssetBrowserMessage::AddToTimeline => {
                    &&& final(self).expanded_ids@ == old(self).expanded_ids@
                    &&& final(self).selected_id == old(self).selected_id
                    &&& (action is AddToTimeline || action is Nothing)
                    &&& (action is AddToTimeline <==> (old(self).selected_id matches Some(id)
                        && asset_info(assets@, id) matches Some((kind, _)) && is_media(kind)
                        && track_for(kind) < tracks@.len()))
                    &&& action matches AssetBrowserAction::AddToTimeline(p) ==> p.asset == old(self).selected_id.unwrap()
                        && p.track == track_for(asset_info(assets@, p.asset).unwrap().0)
                        && (forall|t: int, c: int| 0 <= t < tracks@.len() && 0 <= c < tracks@[t]@.len() ==> #[trigger] tracks@[t]@[c] < p.clip_id)
                        && (p.clip_id == 0 || exists|t: int, c: int| 0 <= t < tracks@.len() && 0 <= c < tracks@[t]@.len() && #[trigger] tracks@[t]@[c] == p.clip_id - 1)
                },
            },
    {
        match message {
            AssetBrowserMessage::ToggleExpand(id) => {
                toggle(&mut self.expanded_ids, id);
                AssetBrowserAction::Nothing
            },
            AssetBrowserMessage::Select(id) => {
                self.selected_id = Some(id);
                AssetBrowserAction::Nothing
            },
            AssetBrowserMessage::ClearSelection => {
                self.selected_id = None;
                AssetBrowserAction::Nothing
            },
            AssetBrowserMessage::OpenItem(id) => {
                self.selected_id = Some(id);
                proof { lemma_asset_index_bounds(assets@, id); }
                if let Some(i) = find_asset(assets, id) {
                    if assets[i].kind == ItemType::Folder {
                        self.expanded_ids.insert(id);
                    }
                }
                AssetBrowserAction::Nothing
            },
            AssetBrowserMessage::ImportMedia => AssetBrowserAction::PickMediaFile,
            AssetBrowserMessage::NewFolder => {
                let parent = self.import_parent(assets);
                let name = unique_asset_folder_name(assets, parent);
                AssetBrowserAction::CreateFolder { parent, name }
            },
            AssetBrowserMessage::AddToTimeline => match self.timeline_placement(assets, tracks) {
                Some(p) => AssetBrowserAction::AddToTimeline(p),
                None => AssetBrowserAction::Nothing,
            },
        }
    }

    /// The project imported a media file into `parent` under `id`, or could
    /// not (`None`): an imported asset is selected and its folder expanded.
    pub fn media_imported(&mut self, parent: Option<u128>, id: Option<u128>)
        ensures
            match id {
                Some(x) => final(self).selected_id == Some(x)
                    && final(self).expanded_ids@ == with_optional(old(self).expanded_ids@, parent),
                None => final(self).selected_id == old(self).selected_id
                    && final(self).expanded_ids@ == old(self).expanded_ids@,
            },
    {
        if let Some(x) = id {
            if let Some(p) = parent {
                self.expanded_ids.insert(p);
            }
            self.selected_id = Some(x);
        }
    }

    /// The project created the folder `id` in `parent`: the parent and the
    /// new folder are expanded and the new folder selected.
    pub fn folder_created(&mut self, parent: Option<u128>, id: u128)
        ensures
            final(self).selected_id == Some(id),
            final(self).expanded_ids@ == with_optional(old(self).expanded_ids@, parent).insert(id),
    {
        if let Some(p) = parent {
            self.expanded_ids.insert(p);
        }
        self.selected_id = Some(id);
        self.expanded_ids.insert(id);
    }
}

// ---------------------------------------------------------------------------
// Timeline tracks
// ---------------------------------------------------------------------------

/// `tracks` with the track at `from` moved to position `to`, when both are
/// positions of `tracks` and differ; `tracks` unchanged otherwise.
pub open spec fn reordered<T>(tracks: Seq<T>, from: int, to: int) -> Seq<T> {
    if from != to && 0 <= from < tracks.len() && 0 <= to < tracks.len() {
        tracks.remove(from).insert(to, tracks[from])
    } else {
        tracks
    }
}

/// Moves the track at `from` to position `to` (see [`reordered`]); returns
/// whether anything moved.
pub fn reorder_tracks<T>(tracks: &mut Vec<T>, from: usize, to: usize) -> (moved: bool)
    ensures
        moved == (from != to && from < old(tracks)@.len() && to < old(tracks)@.len()),
        final(tracks)@ == reordered(old(tracks)@, from as int, to as int),
{
    if from != to && from < tracks.len() && to < tracks.len() {
        let track = tracks.remove(from);
        tracks.insert(to, track);
        true
    } else {
        false
    }
}

/// Toggling an entry twice leaves the expanded entries as they were.
pub proof fn law_toggle_twice(s: Set<u128>, id: u128)
    ensures
        toggled(toggled(s, id), id) == s,
{
    if s.contains(id) {
        assert(toggled(toggled(s, id), id) =~= s);
    } else {
        assert(toggled(toggled(s, id), id) =~= s);
    }
}

/// Moving a track and moving it back restores the order; moving keeps the
/// number of tracks.
pub proof fn law_reorder_back<T>(tracks: Seq<T>, from: int, to: int)
    ensures
        reordered(reordered(tracks, from, to), to, from) == tracks,
        reordered(tracks, from, to).len() == tracks.len(),
{
    if from != to && 0 <= from < tracks.len() && 0 <= to < tracks.len() {
        let moved = tracks.remove(from).insert(to, tracks[from]);
        assert(moved[to] == tracks[from]);
        assert(moved.remove(to) =~= tracks.remove(from));
        assert(moved.remove(to).insert(from, moved[to]) =~= tracks);
    }
}

/// Only sounds go on the second (audio) track: a placement for a picture
/// or a video asset puts it on the first track, one for a sound on the
/// second, so the track of a placed asset tells whether it is a sound.
pub proof fn law_only_sounds_go_on_the_second_track(assets: Seq<AssetEntry>, id: u128)
    ensures
        match asset_info(assets, id) {
            Some((kind, _)) => is_media(kind) ==> (track_for(kind) == 1) == (kind == ItemType::Audio)
                && (kind != ItemType::Audio ==> track_for(kind) == 0),
            None => true,
        },
        track_for(ItemType::Image) == 0,
        track_for(ItemType::Video) == 0,
        track_for(ItemType::Audio) == 1,
{
}

} // verus!
