//! The split-layout tree: areas, split directions and the dock nodes that
//! arrange areas into nested horizontal and vertical splits.

use vstd::prelude::*;

verus! {

/// Number of ratio units that make up a whole split (a ratio of `RATIO_SCALE`
/// gives the first child the entire extent).
pub const RATIO_SCALE: u32 = 10000;

/// Smallest share the first child of a split may get when a split is made or
/// resized interactively (15 %).
pub const MIN_RATIO: u32 = 1500;

/// Largest share the first child of a split may get when a split is made or
/// resized interactively (85 %).
pub const MAX_RATIO: u32 = 8500;

/// An even split (50 %).
pub const HALF_RATIO: u32 = 5000;

/// How a split divides its extent.
#[derive(Debug, Clone, Copy, PartialEq, Eq, Structural)]
pub enum SplitDirection {
    /// Side by side: the first child on the left, the second on the right.
    Horizontal,
    /// Stacked: the first child on top, the second below.
    Vertical,
}

/// One area of the layout: an editor of kind `C` under a stable id.
#[derive(Debug, Clone)]
pub struct Area<C> {
    pub id: usize,
    pub content: C,
}

impl<C> Area<C> {
    /// An area with the given id showing `content`.
    pub fn new(id: usize, content: C) -> (res: Self)
        ensures
            res.id == id,
            res.content == content,
    {
        Area { id, content }
    }
}

/// A node of the split layout.
#[derive(Debug)]
pub enum DockNode<C> {
    /// A node that shows nothing.
    Empty,
    /// A single area.
    Leaf(Area<C>),
    /// Two children that share the parent's extent along `direction`; the
    /// first child gets `ratio / RATIO_SCALE` of it.
    Split { direction: SplitDirection, ratio: u32, first: Box<DockNode<C>>, second: Box<DockNode<C>> },
}

impl<C> DockNode<C> {
    /// The areas of the tree, in depth-first order (first child before second).
    pub open spec fn leaves(self) -> Seq<Area<C>>
        decreases self,
    {
        match self {
            DockNode::Empty => Seq::empty(),
            DockNode::Leaf(area) => seq![area],
            DockNode::Split { first, second, .. } => first.leaves() + second.leaves(),
        }
    }

    /// The ids of the areas, in depth-first order.
    pub open spec fn ids(self) -> Seq<usize>
        decreases self,
    {
        match self {
            DockNode::Empty => Seq::empty(),
            DockNode::Leaf(area) => seq![area.id],
            DockNode::Split { first, second, .. } => first.ids() + second.ids(),
        }
    }

    /// Whether some area of the tree has the id `id`.
    pub open spec fn has_area(self, id: usize) -> bool
        decreases self,
    {
        match self {
            DockNode::Empty => false,
            DockNode::Leaf(area) => area.id == id,
            DockNode::Split { first, second, .. } => first.has_area(id) || second.has_area(id),
        }
    }

    /// No two areas share an id.
    pub open spec fn ids_unique(self) -> bool
        decreases self,
    {
        match self {
            DockNode::Split { first, second, .. } => {
                &&& first.ids_unique()
                &&& second.ids_unique()
                &&& forall|x: usize| first.has_area(x) ==> !second.has_area(x)
            },
            _ => true,
        }
    }

    /// Every split has areas on both sides: the shape `cleanup` leaves behind.
    pub open spec fn is_compact(self) -> bool
        decreases self,
    {
        match self {
            DockNode::Split { first, second, .. } => {
                &&& first.leaves().len() > 0
                &&& second.leaves().len() > 0
                &&& first.is_compact()
                &&& second.is_compact()
            },
            _ => true,
        }
    }

    /// Whether the tree shows no area at all.
    pub fn is_empty(&self) -> (res: bool)
        ensures
            res == (self.leaves().len() == 0),
        decreases self,
    {
        match self {
            DockNode::Empty => true,
            DockNode::Leaf(_) => false,
            DockNode::Split { first, second, .. } => first.is_empty() && second.is_empty(),
        }
    }

    /// The ids list the areas one for one.
    pub proof fn lemma_ids_leaves(self)
        ensures
            self.ids().len() == self.leaves().len(),
            forall|i: int| 0 <= i < self.ids().len() ==> #[trigger] self.ids()[i] == self.leaves()[i].id,
        decreases self,
    {
        if let DockNode::Split { first, second, .. } = self {
            first.lemma_ids_leaves();
            second.lemma_ids_leaves();
            assert forall|i: int| 0 <= i < self.ids().len() implies #[trigger] self.ids()[i] == self.leaves()[i].id by {
                if i >= first.ids().len() {
                    assert(self.ids()[i] == second.ids()[i - first.ids().len()]);
                    assert(self.leaves()[i] == second.leaves()[i - first.leaves().len()]);
                }
            }
        }
    }

    /// `has_area` is membership in `ids`.
    pub proof fn lemma_has_area_ids(self, id: usize)
        ensures
            self.has_area(id) == self.ids().contains(id),
        decreases self,
    {
        if let DockNode::Split { first, second, .. } = self {
            first.lemma_has_area_ids(id);
            second.lemma_has_area_ids(id);
            if first.has_area(id) {
                let i = choose|i: int| 0 <= i < first.ids().len() && first.ids()[i] == id;
                assert(self.ids()[i] == id);
            } else if second.has_area(id) {
                let i = choose|i: int| 0 <= i < second.ids().len() && second.ids()[i] == id;
                assert(self.ids()[first.ids().len() + i] == id);
            } else if self.ids().contains(id) {
                let i = choose|i: int| 0 <= i < self.ids().len() && self.ids()[i] == id;
                if i < first.ids().len() {
                    assert(first.ids()[i] == id);
                } else {
                    assert(second.ids()[i - first.ids().len()] == id);
                }
            }
        } else if let DockNode::Leaf(a) = self {
            assert(self.ids()[0] == a.id);
        }
    }
}

impl<C> Default for DockNode<C> {
    fn default() -> (res: Self)
        ensures
            res is Empty,
    {
        DockNode::Empty
    }
}

/// What releasing a corner drag would do.
#[derive(Debug, Clone, Copy, PartialEq, Eq, Structural)]
pub enum CornerAction {
    /// Split into left and right halves.
    SplitHorizontal,
    /// Split into top and bottom halves.
    SplitVertical,
    /// Move the dragged area onto another area.
    Move,
}

impl CornerAction {
    /// The direction of the split this action makes; a move makes none of
    /// its own.
    pub fn direction(self) -> (res: Option<SplitDirection>)
        ensures
            res == (match self {
                CornerAction::SplitHorizontal => Some(SplitDirection::Horizontal),
                CornerAction::SplitVertical => Some(SplitDirection::Vertical),
                CornerAction::Move => None::<SplitDirection>,
            }),
    {
        match self {
            CornerAction::SplitHorizontal => Some(SplitDirection::Horizontal),
            CornerAction::SplitVertical => Some(SplitDirection::Vertical),
            CornerAction::Move => None,
        }
    }
}

} // verus!
