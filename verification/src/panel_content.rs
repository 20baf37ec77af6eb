//! The editors that the areas of the Nade window can show.

use vstd::prelude::*;
use crate::dock::{Area, DockNode, SplitDirection};
use crate::geometry::Size;
use crate::system::{AreaKind, LayoutBuilder, PanelSystem, PanelSystemMessage};

verus! {

/// What an area of the window shows.
#[derive(Debug, Clone, Copy, PartialEq, Eq, Structural)]
pub enum PanelContent {
    /// The main preview (pixel viewer).
    MainPreview,
    /// The timeline.
    Timeline,
    /// The animation curve editor.
    CurveEditor,
    /// The inspector (transform and graph).
    Inspector,
    /// The object browser (compositions and their objects).
    Project,
    /// The asset browser (media and folder bins).
    Assets,
}

impl AreaKind for PanelContent {
    fn all() -> (res: Vec<Self>)
        ensures
            res@ == PanelContent::kinds(),
    {
        PanelContent::all_kinds()
    }
}

impl PanelContent {
    /// Every kind, in menu order.
    pub open spec fn kinds() -> Seq<PanelContent> {
        seq![
            PanelContent::MainPreview, PanelContent::Timeline, PanelContent::CurveEditor,
            PanelContent::Inspector, PanelContent::Project, PanelContent::Assets,
        ]
    }

    /// Every kind, in menu order.
    pub fn all_kinds() -> (res: Vec<Self>)
        ensures
            res@ == PanelContent::kinds(),
    {
        let res = vec![
            PanelContent::MainPreview,
            PanelContent::Timeline,
            PanelContent::CurveEditor,
            PanelContent::Inspector,
            PanelContent::Project,
            PanelContent::Assets,
        ];
        assert(res@ =~= PanelContent::kinds());
        res
    }

    /// The name shown for the kind.
    pub open spec fn spec_label(self) -> Seq<char> {
        match self {
            PanelContent::MainPreview => "Preview"@,
            PanelContent::Timeline => "Timeline"@,
            PanelContent::CurveEditor => "Curve Editor"@,
            PanelContent::Inspector => "Inspector"@,
            PanelContent::Project => "Objects"@,
            PanelContent::Assets => "Assets"@,
        }
    }

    /// The name shown for the kind.
    pub fn label(&self) -> (res: &'static str)
        ensures
            res@ == self.spec_label(),
    {
        match self {
            PanelContent::MainPreview => "Preview",
            PanelContent::Timeline => "Timeline",
            PanelContent::CurveEditor => "Curve Editor",
            PanelContent::Inspector => "Inspector",
            PanelContent::Project => "Objects",
            PanelContent::Assets => "Assets",
        }
    }

    /// The columns of the editor-type menu: a heading and the kinds under it.
    pub fn menu_columns() -> (res: Vec<(&'static str, Vec<Self>)>)
        ensures
            res@.len() == 3,
            res@[0].0@ == "General"@,
            res@[0].1@ == seq![PanelContent::MainPreview],
            res@[1].0@ == "Animation"@,
            res@[1].1@ == seq![PanelContent::Timeline, PanelContent::CurveEditor],
            res@[2].0@ == "Data"@,
            res@[2].1@ == seq![PanelContent::Project, PanelContent::Assets, PanelContent::Inspector],
    {
        let general = vec![PanelContent::MainPreview];
        let animation = vec![PanelContent::Timeline, PanelContent::CurveEditor];
        let data = vec![PanelContent::Project, PanelContent::Assets, PanelContent::Inspector];
        assert(general@ =~= seq![PanelContent::MainPreview]);
        assert(animation@ =~= seq![PanelContent::Timeline, PanelContent::CurveEditor]);
        assert(data@ =~= seq![PanelContent::Project, PanelContent::Assets, PanelContent::Inspector]);
        vec![("General", general), ("Animation", animation), ("Data", data)]
    }
}

/// The leaf showing `content` under `id`.
pub open spec fn leaf(id: usize, content: PanelContent) -> DockNode<PanelContent> {
    DockNode::Leaf(Area { id, content })
}

/// A split of `direction` and `ratio` between `first` and `second`.
pub open spec fn split(
    direction: SplitDirection, ratio: u32, first: DockNode<PanelContent>, second: DockNode<PanelContent>,
) -> DockNode<PanelContent> {
    DockNode::Split { direction, ratio, first: Box::new(first), second: Box::new(second) }
}

/// The window's starting layout, in a 1280 by 720 window:
///
/// ```text
/// +---------+------------------+-----------+
/// | Objects |     Preview      | Inspector |
/// +---------+------------------+           |
/// | Assets  |    Timeline      |           |
/// +---------+------------------+-----------+
/// ```
pub fn create_panel_layout() -> (res: PanelSystem<PanelContent>)
    ensures
        res.layout() == split(
            SplitDirection::Horizontal, 1800,
            split(SplitDirection::Vertical, 5500, leaf(0, PanelContent::Project), leaf(1, PanelContent::Assets)),
            split(SplitDirection::Horizontal, 7800,
                split(SplitDirection::Vertical, 6500, leaf(2, PanelContent::MainPreview), leaf(3, PanelContent::Timeline)),
                leaf(4, PanelContent::Inspector)),
        ),
        res.next_id() == 5,
        res.window() == (Size { width: 1280, height: 720 }),
        res.drag() is Idle,
        res.menu().is_none(),
        res.well_formed(),
{
    let mut builder: LayoutBuilder<PanelContent> = LayoutBuilder::new();
    let objects = builder.area(PanelContent::Project);
    let assets = builder.area(PanelContent::Assets);
    let preview = builder.area(PanelContent::MainPreview);
    let timeline = builder.area(PanelContent::Timeline);
    let inspector = builder.area(PanelContent::Inspector);

    let left = LayoutBuilder::vsplit(objects, assets, 5500);
    let center = LayoutBuilder::vsplit(preview, timeline, 6500);
    let main = LayoutBuilder::hsplit(center, inspector, 7800);
    let layout = LayoutBuilder::hsplit(left, main, 1800);

    let mut system = PanelSystem::new().with_layout(layout).with_ids(builder.next_area_id());
    system.update(PanelSystemMessage::<PanelContent, ()>::WindowResized(Size::new(1280, 720)), 0);
    proof {
        let t = system.layout();
        reveal_with_fuel(DockNode::is_compact, 4);
        reveal_with_fuel(DockNode::leaves, 4);
        reveal_with_fuel(DockNode::has_area, 4);
        reveal_with_fuel(DockNode::ids_unique, 4);
        assert(t.is_compact());
        assert forall|x: usize| #[trigger] t.has_area(x) implies x < 5 by {}
        assert(t.ids_unique());
    }
    system
}

/// Every kind appears in exactly one column of the editor-type menu.
pub proof fn law_menu_covers_every_kind(k: PanelContent)
    ensures
        PanelContent::kinds().contains(k),
        ({
            let c0 = seq![PanelContent::MainPreview];
            let c1 = seq![PanelContent::Timeline, PanelContent::CurveEditor];
            let c2 = seq![PanelContent::Project, PanelContent::Assets, PanelContent::Inspector];
            ||| c0.contains(k) && !c1.contains(k) && !c2.contains(k)
            ||| !c0.contains(k) && c1.contains(k) && !c2.contains(k)
            ||| !c0.contains(k) && !c1.contains(k) && c2.contains(k)
        }),
{
    let c0 = seq![PanelContent::MainPreview];
    let c1 = seq![PanelContent::Timeline, PanelContent::CurveEditor];
    let c2 = seq![PanelContent::Project, PanelContent::Assets, PanelContent::Inspector];
    match k {
        PanelContent::MainPreview => { assert(PanelContent::kinds()[0] == k); assert(c0[0] == k); },
        PanelContent::Timeline => { assert(PanelContent::kinds()[1] == k); assert(c1[0] == k); },
        PanelContent::CurveEditor => { assert(PanelContent::kinds()[2] == k); assert(c1[1] == k); },
        PanelContent::Inspector => { assert(PanelContent::kinds()[3] == k); assert(c2[2] == k); },
        PanelContent::Project => { assert(PanelContent::kinds()[4] == k); assert(c2[0] == k); },
        PanelContent::Assets => { assert(PanelContent::kinds()[5] == k); assert(c2[1] == k); },
    }
}

} // verus!
