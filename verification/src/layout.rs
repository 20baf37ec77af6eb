//! Queries and edits of the split-layout tree.

use vstd::prelude::*;
use crate::dock::{Area, DockNode, SplitDirection};

verus! {

impl<C> DockNode<C> {
    /// The tree with the content of the first area (depth-first) whose id is
    /// `id` replaced by `content`; the tree itself when no area has that id.
    pub open spec fn with_content(self, id: usize, content: C) -> DockNode<C>
        decreases self,
    {
        match self {
            DockNode::Leaf(area) => if area.id == id {
                DockNode::Leaf(Area { id, content })
            } else {
                self
            },
            DockNode::Split { direction, ratio, first, second } => if first.has_area(id) {
                DockNode::Split { direction, ratio, first: Box::new(first.with_content(id, content)), second }
            } else {
                DockNode::Split { direction, ratio, first, second: Box::new(second.with_content(id, content)) }
            },
            DockNode::Empty => self,
        }
    }

    /// The content of the first area (depth-first) with id `id`.
    pub open spec fn content_of(self, id: usize) -> Option<C>
        decreases self,
    {
        match self {
            DockNode::Leaf(area) => if area.id == id { Some(area.content) } else { None },
            DockNode::Split { first, second, .. } => if first.has_area(id) {
                first.content_of(id)
            } else {
                second.content_of(id)
            },
            DockNode::Empty => None,
        }
    }

    /// The route from this node to the first area (depth-first) with id `id`:
    /// `0` steps into the first child of a split, `1` into the second.
    pub open spec fn path_of(self, id: usize) -> Option<Seq<usize>>
        decreases self,
    {
        match self {
            DockNode::Leaf(area) => if area.id == id { Some(Seq::empty()) } else { None },
            DockNode::Split { first, second, .. } => if first.has_area(id) {
                Some(seq![0usize] + first.path_of(id).unwrap())
            } else if second.has_area(id) {
                Some(seq![1usize] + second.path_of(id).unwrap())
            } else {
                None
            },
            DockNode::Empty => None,
        }
    }

    /// The node that `path` leads to, if every step of it goes through a
    /// split (`0` into the first child, `1` into the second).
    pub open spec fn subtree_at(self, path: Seq<usize>) -> Option<DockNode<C>>
        decreases path.len(),
    {
        if path.len() == 0 {
            Some(self)
        } else {
            match self {
                DockNode::Split { first, second, .. } => if path[0] == 0 {
                    first.subtree_at(path.drop_first())
                } else if path[0] == 1 {
                    second.subtree_at(path.drop_first())
                } else {
                    None
                },
                _ => None,
            }
        }
    }

    /// The ratio of the split that `path` leads to.
    pub open spec fn ratio_at(self, path: Seq<usize>) -> Option<u32> {
        match self.subtree_at(path) {
            Some(DockNode::Split { ratio, .. }) => Some(ratio),
            _ => None,
        }
    }

    /// The tree with the ratio of the split that `path` leads to set to `r`;
    /// the tree itself when `path` leads to no split.
    pub open spec fn with_ratio_at(self, path: Seq<usize>, r: u32) -> DockNode<C>
        decreases path.len(),
    {
        match self {
            DockNode::Split { direction, ratio, first, second } => if path.len() == 0 {
                DockNode::Split { direction, ratio: r, first, second }
            } else if path[0] == 0 {
                DockNode::Split { direction, ratio, first: Box::new(first.with_ratio_at(path.drop_first(), r)), second }
            } else if path[0] == 1 {
                DockNode::Split { direction, ratio, first, second: Box::new(second.with_ratio_at(path.drop_first(), r)) }
            } else {
                self
            },
            _ => self,
        }
    }

    /// The tree with the node that `path` leads to replaced by `node`; the
    /// tree itself when `path` leads nowhere.
    pub open spec fn replace_at(self, path: Seq<usize>, node: DockNode<C>) -> DockNode<C>
        decreases path.len(),
    {
        if path.len() == 0 {
            node
        } else {
            match self {
                DockNode::Split { direction, ratio, first, second } => if path[0] == 0 {
                    DockNode::Split { direction, ratio, first: Box::new(first.replace_at(path.drop_first(), node)), second }
                } else if path[0] == 1 {
                    DockNode::Split { direction, ratio, first, second: Box::new(second.replace_at(path.drop_first(), node)) }
                } else {
                    self
                },
                _ => self,
            }
        }
    }

    /// The node is the area with id `id` itself.
    pub open spec fn is_leaf_of(self, id: usize) -> bool {
        self matches DockNode::Leaf(area) && area.id == id
    }

    /// The tree with the first area (depth-first) with id `id` replaced by a
    /// split of `direction` and `ratio` between that area and `new_area`
    /// (`new_area` first when `new_is_first`); the tree itself when no area
    /// has that id.
    pub open spec fn split_leaf(
        self,
        id: usize,
        new_area: Area<C>,
        direction: SplitDirection,
        ratio: u32,
        new_is_first: bool,
    ) -> DockNode<C>
        decreases self,
    {
        match self {
            DockNode::Leaf(area) => if area.id == id {
                if new_is_first {
                    DockNode::Split { direction, ratio, first: Box::new(DockNode::Leaf(new_area)), second: Box::new(self) }
                } else {
                    DockNode::Split { direction, ratio, first: Box::new(self), second: Box::new(DockNode::Leaf(new_area)) }
                }
            } else {
                self
            },
            DockNode::Split { direction: d, ratio: r, first, second } => if first.has_area(id) {
                DockNode::Split { direction: d, ratio: r, first: Box::new(first.split_leaf(id, new_area, direction, ratio, new_is_first)), second }
            } else {
                DockNode::Split { direction: d, ratio: r, first, second: Box::new(second.split_leaf(id, new_area, direction, ratio, new_is_first)) }
            },
            DockNode::Empty => self,
        }
    }

    /// Some split of the tree has the area with id `id` as a direct child.
    pub open spec fn has_joinable(self, id: usize) -> bool
        decreases self,
    {
        match self {
            DockNode::Split { first, second, .. } =>
                first.is_leaf_of(id) || second.is_leaf_of(id) || first.has_joinable(id) || second.has_joinable(id),
            _ => false,
        }
    }

    /// The tree with the first split (depth-first) that has the area with id
    /// `id` as a direct child replaced by that split's other child.
    pub open spec fn joined(self, id: usize) -> DockNode<C>
        decreases self,
    {
        match self {
            DockNode::Split { direction, ratio, first, second } => if first.is_leaf_of(id) {
                *second
            } else if second.is_leaf_of(id) {
                *first
            } else if first.has_joinable(id) {
                DockNode::Split { direction, ratio, first: Box::new(first.joined(id)), second }
            } else {
                DockNode::Split { direction, ratio, first, second: Box::new(second.joined(id)) }
            },
            _ => self,
        }
    }

    /// The area with id `id` sits directly in a split whose other side shows
    /// some area, so joining it leaves the sibling in its place.
    pub open spec fn can_join(self, id: usize) -> bool
        decreases self,
    {
        match self {
            DockNode::Split { first, second, .. } =>
                (first.is_leaf_of(id) && second.leaves().len() > 0)
                || (second.is_leaf_of(id) && first.leaves().len() > 0)
                || first.can_join(id) || second.can_join(id),
            _ => false,
        }
    }

    /// The tree with every split that shows nothing on one side replaced by
    /// its other side, bottom up.
    pub open spec fn cleaned(self) -> DockNode<C>
        decreases self,
    {
        match self {
            DockNode::Split { direction, ratio, first, second } => {
                let f = first.cleaned();
                let s = second.cleaned();
                if f.leaves().len() == 0 && s.leaves().len() == 0 {
                    DockNode::Empty
                } else if f.leaves().len() == 0 {
                    s
                } else if s.leaves().len() == 0 {
                    f
                } else {
                    DockNode::Split { direction, ratio, first: Box::new(f), second: Box::new(s) }
                }
            },
            _ => self,
        }
    }

    /// A tree without the id is left as it is.
    pub proof fn lemma_with_content_absent(self, id: usize, content: C)
        requires
            !self.has_area(id),
        ensures
            self.with_content(id, content) == self,
        decreases self,
    {
        if let DockNode::Split { first, second, .. } = self {
            first.lemma_with_content_absent(id, content);
            second.lemma_with_content_absent(id, content);
        }
    }
}

/// Gives the first area with id `area_id` the content `content`. Hands the
/// content back when no area has that id.
pub fn set_content_recursive<C>(node: DockNode<C>, area_id: usize, content: C) -> (res: (DockNode<C>, Option<C>))
    ensures
        res.0 == node.with_content(area_id, content),
        res.1 is None <==> node.has_area(area_id),
        res.1 matches Some(c) ==> c == content,
    decreases node,
{
    match node {
        DockNode::Leaf(area) => {
            if area.id == area_id {
                (DockNode::Leaf(Area { id: area.id, content }), None)
            } else {
                (DockNode::Leaf(area), Some(content))
            }
        },
        DockNode::Split { direction, ratio, first, second } => {
            let ghost first_before = *first;
            let (first, back) = set_content_recursive(*first, area_id, content);
            match back {
                None => (DockNode::Split { direction, ratio, first: Box::new(first), second }, None),
                Some(back) => {
                    proof { first_before.lemma_with_content_absent(area_id, content); }
                    let (second, back) = set_content_recursive(*second, area_id, back);
                    (DockNode::Split { direction, ratio, first: Box::new(first), second: Box::new(second) }, back)
                },
            }
        },
        DockNode::Empty => (DockNode::Empty, Some(content)),
    }
}

/// A copy of the content of the first area (depth-first) with id `area_id`.
pub fn find_content_recursive<C: Clone>(node: &DockNode<C>, area_id: usize) -> (res: Option<C>)
    ensures
        res is Some == node.content_of(area_id) is Some,
        res matches Some(c) ==> cloned(node.content_of(area_id).unwrap(), c),
    decreases node,
{
    match node {
        DockNode::Leaf(area) => {
            if area.id == area_id {
                Some(area.content.clone())
            } else {
                None
            }
        },
        DockNode::Split { first, second, .. } => {
            proof { lemma_content_of_has_area(**first, area_id); }
            match find_content_recursive(first, area_id) {
                Some(c) => Some(c),
                None => find_content_recursive(second, area_id),
            }
        },
        DockNode::Empty => None,
    }
}

/// A tree has content for exactly the ids it holds.
pub proof fn lemma_content_of_has_area<C>(node: DockNode<C>, id: usize)
    ensures
        node.content_of(id) is Some == node.has_area(id),
        node.path_of(id) is Some == node.has_area(id),
    decreases node,
{
    if let DockNode::Split { first, second, .. } = node {
        lemma_content_of_has_area(*first, id);
        lemma_content_of_has_area(*second, id);
    }
}

/// Appends to `path` the route to the first area (depth-first) with id
/// `area_id` and reports whether there is one; leaves `path` as it was when
/// there is none.
pub fn find_area_path<C>(node: &DockNode<C>, area_id: usize, path: &mut Vec<usize>) -> (found: bool)
    ensures
        found == node.has_area(area_id),
        found ==> final(path)@ == old(path)@ + node.path_of(area_id).unwrap(),
        !found ==> final(path)@ == old(path)@,
    decreases node,
{
    match node {
        DockNode::Leaf(area) => {
            proof { assert(old(path)@ + Seq::<usize>::empty() =~= old(path)@); }
            area.id == area_id
        },
        DockNode::Split { first, second, .. } => {
            proof { lemma_content_of_has_area(**first, area_id); lemma_content_of_has_area(**second, area_id); }
            let ghost start = path@;
            path.push(0);
            if find_area_path(first, area_id, path) {
                proof { assert(start.push(0usize) + first.path_of(area_id).unwrap() =~= start + (seq![0usize] + first.path_of(area_id).unwrap())); }
                return true;
            }
            path.pop();
            proof { assert(path@ =~= start); }
            path.push(1);
            if find_area_path(second, area_id, path) {
                proof { assert(start.push(1usize) + second.path_of(area_id).unwrap() =~= start + (seq![1usize] + second.path_of(area_id).unwrap())); }
                return true;
            }
            path.pop();
            proof { assert(path@ =~= start); }
            false
        },
        DockNode::Empty => false,
    }
}

/// The ratio of the split that `path[start..]` leads to.
pub fn get_ratio_recursive<C>(node: &DockNode<C>, path: &Vec<usize>, start: usize) -> (res: Option<u32>)
    requires
        start <= path.len(),
    ensures
        res == node.ratio_at(path@.skip(start as int)),
    decreases path.len() - start,
{
    if start == path.len() {
        return match node {
            DockNode::Split { ratio, .. } => Some(*ratio),
            _ => None,
        };
    }
    proof { assert(path@.skip(start as int).drop_first() =~= path@.skip(start + 1)); }
    match node {
        DockNode::Split { first, second, .. } => {
            if path[start] == 0 {
                get_ratio_recursive(first, path, start + 1)
            } else if path[start] == 1 {
                get_ratio_recursive(second, path, start + 1)
            } else {
                None
            }
        },
        _ => None,
    }
}

/// Sets the ratio of the split that `path[start..]` leads to.
pub fn set_ratio_recursive<C>(node: DockNode<C>, path: &Vec<usize>, start: usize, new_ratio: u32) -> (res: DockNode<C>)
    requires
        start <= path.len(),
    ensures
        res == node.with_ratio_at(path@.skip(start as int), new_ratio),
    decreases path.len() - start,
{
    proof {
        if start < path.len() {
            assert(path@.skip(start as int).drop_first() =~= path@.skip(start + 1));
        }
    }
    match node {
        DockNode::Split { direction, ratio, first, second } => {
            if start == path.len() {
                DockNode::Split { direction, ratio: new_ratio, first, second }
            } else if path[start] == 0 {
                let first = set_ratio_recursive(*first, path, start + 1, new_ratio);
                DockNode::Split { direction, ratio, first: Box::new(first), second }
            } else if path[start] == 1 {
                let second = set_ratio_recursive(*second, path, start + 1, new_ratio);
                DockNode::Split { direction, ratio, first, second: Box::new(second) }
            } else {
                DockNode::Split { direction, ratio, first, second }
            }
        },
        other => other,
    }
}

/// Puts `incoming` where `path[start..]` leads and hands back the node that
/// stood there; hands `incoming` back and leaves the tree as it was when the
/// path leads nowhere.
pub fn exchange_at_path<C>(node: DockNode<C>, path: &Vec<usize>, start: usize, incoming: DockNode<C>) -> (res: (DockNode<C>, DockNode<C>))
    requires
        start <= path.len(),
    ensures
        res.0 == node.replace_at(path@.skip(start as int), incoming),
        node.subtree_at(path@.skip(start as int)) matches Some(old_node) ==> res.1 == old_node,
        node.subtree_at(path@.skip(start as int)) is None ==> res.1 == incoming,
    decreases path.len() - start,
{
    if start == path.len() {
        return (incoming, node);
    }
    proof { assert(path@.skip(start as int).drop_first() =~= path@.skip(start + 1)); }
    match node {
        DockNode::Split { direction, ratio, first, second } => {
            if path[start] == 0 {
                let (first, out) = exchange_at_path(*first, path, start + 1, incoming);
                (DockNode::Split { direction, ratio, first: Box::new(first), second }, out)
            } else if path[start] == 1 {
                let (second, out) = exchange_at_path(*second, path, start + 1, incoming);
                (DockNode::Split { direction, ratio, first, second: Box::new(second) }, out)
            } else {
                (DockNode::Split { direction, ratio, first, second }, incoming)
            }
        },
        other => (other, incoming),
    }
}

/// Whether `node` is the area with id `area_id` itself.
pub fn is_direct_leaf<C>(node: &DockNode<C>, area_id: usize) -> (res: bool)
    ensures
        res == node.is_leaf_of(area_id),
{
    match node {
        DockNode::Leaf(area) => area.id == area_id,
        _ => false,
    }
}

/// Whether the area with id `area_id` can be joined into a sibling.
pub fn can_join_recursive<C>(node: &DockNode<C>, area_id: usize) -> (res: bool)
    ensures
        res == node.can_join(area_id),
    decreases node,
{
    match node {
        DockNode::Split { first, second, .. } => {
            if is_direct_leaf(first, area_id) && !second.is_empty() {
                return true;
            }
            if is_direct_leaf(second, area_id) && !first.is_empty() {
                return true;
            }
            can_join_recursive(first, area_id) || can_join_recursive(second, area_id)
        },
        _ => false,
    }
}

/// Splits the first area (depth-first) with id `area_id` into itself and
/// `new_area`. Hands `new_area` back when no area has that id.
pub fn split_area_recursive<C>(
    node: DockNode<C>,
    area_id: usize,
    new_area: Area<C>,
    direction: SplitDirection,
    ratio: u32,
    new_is_first: bool,
) -> (res: (DockNode<C>, Option<Area<C>>))
    ensures
        res.0 == node.split_leaf(area_id, new_area, direction, ratio, new_is_first),
        res.1 is None <==> node.has_area(area_id),
        res.1 matches Some(a) ==> a == new_area,
    decreases node,
{
    match node {
        DockNode::Leaf(area) => {
            if area.id == area_id {
                let existing = DockNode::Leaf(area);
                let new_leaf = DockNode::Leaf(new_area);
                let split = if new_is_first {
                    DockNode::Split { direction, ratio, first: Box::new(new_leaf), second: Box::new(existing) }
                } else {
                    DockNode::Split { direction, ratio, first: Box::new(existing), second: Box::new(new_leaf) }
                };
                (split, None)
            } else {
                (DockNode::Leaf(area), Some(new_area))
            }
        },
        DockNode::Split { direction: d, ratio: r, first, second } => {
            let ghost first_before = *first;
            let (first, back) = split_area_recursive(*first, area_id, new_area, direction, ratio, new_is_first);
            match back {
                None => (DockNode::Split { direction: d, ratio: r, first: Box::new(first), second }, None),
                Some(back) => {
                    proof { lemma_split_leaf_absent(first_before, area_id, new_area, direction, ratio, new_is_first); }
                    let (second, back) = split_area_recursive(*second, area_id, back, direction, ratio, new_is_first);
                    (DockNode::Split { direction: d, ratio: r, first: Box::new(first), second: Box::new(second) }, back)
                },
            }
        },
        DockNode::Empty => (DockNode::Empty, Some(new_area)),
    }
}

/// Splitting at an id the tree does not hold leaves it as it is.
pub proof fn lemma_split_leaf_absent<C>(
    node: DockNode<C>,
    id: usize,
    new_area: Area<C>,
    direction: SplitDirection,
    ratio: u32,
    new_is_first: bool,
)
    requires
        !node.has_area(id),
    ensures
        node.split_leaf(id, new_area, direction, ratio, new_is_first) == node,
    decreases node,
{
    if let DockNode::Split { first, second, .. } = node {
        lemma_split_leaf_absent(*first, id, new_area, direction, ratio, new_is_first);
        lemma_split_leaf_absent(*second, id, new_area, direction, ratio, new_is_first);
    }
}

/// Replaces the first split (depth-first) that has the area with id
/// `area_id` as a direct child by that split's other child, and reports
/// whether there was such a split.
pub fn join_area_recursive<C>(node: DockNode<C>, area_id: usize) -> (res: (DockNode<C>, bool))
    ensures
        res.0 == node.joined(area_id),
        res.1 == node.has_joinable(area_id),
    decreases node,
{
    match node {
        DockNode::Split { direction, ratio, first, second } => {
            if is_direct_leaf(&first, area_id) {
                return (*second, true);
            }
            if is_direct_leaf(&second, area_id) {
                return (*first, true);
            }
            let ghost first_before = *first;
            let (first, done) = join_area_recursive(*first, area_id);
            if done {
                (DockNode::Split { direction, ratio, first: Box::new(first), second }, true)
            } else {
                proof { lemma_joined_absent(first_before, area_id); }
                let (second, done) = join_area_recursive(*second, area_id);
                (DockNode::Split { direction, ratio, first: Box::new(first), second: Box::new(second) }, done)
            }
        },
        other => (other, false),
    }
}

/// Joining at an id that no split holds directly leaves the tree as it is.
pub proof fn lemma_joined_absent<C>(node: DockNode<C>, id: usize)
    requires
        !node.has_joinable(id),
    ensures
        node.joined(id) == node,
    decreases node,
{
    if let DockNode::Split { first, second, .. } = node {
        lemma_joined_absent(*first, id);
        lemma_joined_absent(*second, id);
    }
}

/// Replaces, bottom up, every split that shows nothing on one side by its
/// other side.
pub fn cleanup_recursive<C>(node: DockNode<C>) -> (res: DockNode<C>)
    ensures
        res == node.cleaned(),
    decreases node,
{
    match node {
        DockNode::Split { direction, ratio, first, second } => {
            let first = cleanup_recursive(*first);
            let second = cleanup_recursive(*second);
            if first.is_empty() && second.is_empty() {
                DockNode::Empty
            } else if first.is_empty() {
                second
            } else if second.is_empty() {
                first
            } else {
                DockNode::Split { direction, ratio, first: Box::new(first), second: Box::new(second) }
            }
        },
        other => other,
    }
}

/// The two routes part ways at some step: neither is a prefix of the other.
pub open spec fn paths_diverge(p: Seq<usize>, q: Seq<usize>) -> bool {
    exists|i: int| 0 <= i < p.len() && 0 <= i < q.len() && p[i] != q[i]
}

/// The route to an area leads to that area.
pub proof fn lemma_path_of_leads_to_leaf<C>(t: DockNode<C>, id: usize)
    requires
        t.has_area(id),
    ensures
        t.path_of(id) is Some,
        t.subtree_at(t.path_of(id).unwrap()) matches Some(n) && n.is_leaf_of(id),
    decreases t,
{
    if let DockNode::Split { first, second, .. } = t {
        let p = t.path_of(id).unwrap();
        if first.has_area(id) {
            lemma_path_of_leads_to_leaf(*first, id);
            assert(p.drop_first() =~= first.path_of(id).unwrap());
        } else {
            lemma_path_of_leads_to_leaf(*second, id);
            assert(p.drop_first() =~= second.path_of(id).unwrap());
        }
    }
}

/// The routes to two different areas part ways.
pub proof fn lemma_paths_diverge<C>(t: DockNode<C>, a: usize, b: usize)
    requires
        a != b,
        t.has_area(a),
        t.has_area(b),
    ensures
        paths_diverge(t.path_of(a).unwrap(), t.path_of(b).unwrap()),
    decreases t,
{
    if let DockNode::Split { first, second, .. } = t {
        let pa = t.path_of(a).unwrap();
        let pb = t.path_of(b).unwrap();
        if first.has_area(a) && first.has_area(b) {
            lemma_paths_diverge(*first, a, b);
            let i = choose|i: int| 0 <= i < first.path_of(a).unwrap().len() && 0 <= i < first.path_of(b).unwrap().len()
                && first.path_of(a).unwrap()[i] != first.path_of(b).unwrap()[i];
            assert(pa[i + 1] != pb[i + 1]);
        } else if !first.has_area(a) && !first.has_area(b) {
            lemma_paths_diverge(*second, a, b);
            let i = choose|i: int| 0 <= i < second.path_of(a).unwrap().len() && 0 <= i < second.path_of(b).unwrap().len()
                && second.path_of(a).unwrap()[i] != second.path_of(b).unwrap()[i];
            assert(pa[i + 1] != pb[i + 1]);
        } else {
            assert(pa[0] != pb[0]);
        }
    }
}

/// Replacing the node at one route leaves the nodes at diverging routes as
/// they were.
pub proof fn lemma_subtree_after_replace<C>(t: DockNode<C>, p: Seq<usize>, q: Seq<usize>, n: DockNode<C>)
    requires
        paths_diverge(p, q),
    ensures
        t.replace_at(p, n).subtree_at(q) == t.subtree_at(q),
    decreases p.len(),
{
    if let DockNode::Split { first, second, .. } = t {
        if p[0] == q[0] {
            let i = choose|i: int| 0 <= i < p.len() && 0 <= i < q.len() && p[i] != q[i];
            assert(p.drop_first()[i - 1] != q.drop_first()[i - 1]);
            if p[0] == 0 {
                lemma_subtree_after_replace(*first, p.drop_first(), q.drop_first(), n);
            } else if p[0] == 1 {
                lemma_subtree_after_replace(*second, p.drop_first(), q.drop_first(), n);
            }
        }
    }
}

/// Replacing the node at a route puts the new node there.
pub proof fn lemma_subtree_at_replaced<C>(t: DockNode<C>, p: Seq<usize>, n: DockNode<C>)
    requires
        t.subtree_at(p) is Some,
    ensures
        t.replace_at(p, n).subtree_at(p) == Some(n),
    decreases p.len(),
{
    if p.len() > 0 {
        if let DockNode::Split { first, second, .. } = t {
            if p[0] == 0 {
                lemma_subtree_at_replaced(*first, p.drop_first(), n);
            } else {
                lemma_subtree_at_replaced(*second, p.drop_first(), n);
            }
        }
    }
}

/// Replacements at diverging routes can be made in either order.
pub proof fn lemma_replace_commutes<C>(t: DockNode<C>, p: Seq<usize>, q: Seq<usize>, x: DockNode<C>, y: DockNode<C>)
    requires
        paths_diverge(p, q),
    ensures
        t.replace_at(p, x).replace_at(q, y) == t.replace_at(q, y).replace_at(p, x),
    decreases p.len(),
{
    if let DockNode::Split { first, second, .. } = t {
        if p[0] == q[0] {
            let i = choose|i: int| 0 <= i < p.len() && 0 <= i < q.len() && p[i] != q[i];
            assert(p.drop_first()[i - 1] != q.drop_first()[i - 1]);
            if p[0] == 0 {
                lemma_replace_commutes(*first, p.drop_first(), q.drop_first(), x, y);
            } else if p[0] == 1 {
                lemma_replace_commutes(*second, p.drop_first(), q.drop_first(), x, y);
            }
        }
    }
}

/// A second replacement at the same route overrides the first.
pub proof fn lemma_replace_twice<C>(t: DockNode<C>, p: Seq<usize>, x: DockNode<C>, y: DockNode<C>)
    ensures
        t.replace_at(p, x).replace_at(p, y) == t.replace_at(p, y),
    decreases p.len(),
{
    if p.len() > 0 {
        if let DockNode::Split { first, second, .. } = t {
            if p[0] == 0 {
                lemma_replace_twice(*first, p.drop_first(), x, y);
            } else if p[0] == 1 {
                lemma_replace_twice(*second, p.drop_first(), x, y);
            }
        }
    }
}

} // verus!
