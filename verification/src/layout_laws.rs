//! What the edits of the split layout keep and what they undo.

use vstd::prelude::*;
use crate::dock::{Area, DockNode, SplitDirection};
use crate::layout::{lemma_joined_absent, lemma_split_leaf_absent};

verus! {

/// A tree that holds some area shows at least one area.
pub proof fn lemma_has_area_nonempty<C>(t: DockNode<C>, x: usize)
    requires
        t.has_area(x),
    ensures
        t.leaves().len() > 0,
    decreases t,
{
    if let DockNode::Split { first, second, .. } = t {
        if first.has_area(x) {
            lemma_has_area_nonempty(*first, x);
        } else {
            lemma_has_area_nonempty(*second, x);
        }
    }
}

/// An area that some split holds directly is an area of the tree.
pub proof fn lemma_joinable_has_area<C>(t: DockNode<C>, x: usize)
    requires
        t.has_joinable(x),
    ensures
        t.has_area(x),
    decreases t,
{
    if let DockNode::Split { first, second, .. } = t {
        if first.has_joinable(x) {
            lemma_joinable_has_area(*first, x);
        } else if second.has_joinable(x) {
            lemma_joinable_has_area(*second, x);
        }
    }
}

/// Changing the content of an area keeps the areas' ids and the shape of
/// the tree.
pub proof fn lemma_with_content_shape<C>(t: DockNode<C>, id: usize, c: C)
    ensures
        forall|x: usize| #[trigger] t.with_content(id, c).has_area(x) == t.has_area(x),
        t.with_content(id, c).leaves().len() == t.leaves().len(),
        t.with_content(id, c).is_compact() == t.is_compact(),
        t.with_content(id, c).ids_unique() == t.ids_unique(),
    decreases t,
{
    if let DockNode::Split { first, second, .. } = t {
        lemma_with_content_shape(*first, id, c);
        lemma_with_content_shape(*second, id, c);
        assert forall|x: usize| #[trigger] t.with_content(id, c).has_area(x) == t.has_area(x) by {
            assert(first.with_content(id, c).has_area(x) == first.has_area(x));
            assert(second.with_content(id, c).has_area(x) == second.has_area(x));
        }
    } else {
        assert forall|x: usize| #[trigger] t.with_content(id, c).has_area(x) == t.has_area(x) by {
        }
    }
}

/// Changing a ratio keeps the areas' ids and the shape of the tree.
pub proof fn lemma_with_ratio_shape<C>(t: DockNode<C>, p: Seq<usize>, r: u32)
    ensures
        forall|x: usize| #[trigger] t.with_ratio_at(p, r).has_area(x) == t.has_area(x),
        t.with_ratio_at(p, r).leaves().len() == t.leaves().len(),
        t.with_ratio_at(p, r).is_compact() == t.is_compact(),
        t.with_ratio_at(p, r).ids_unique() == t.ids_unique(),
    decreases p.len(),
{
    if let DockNode::Split { first, second, .. } = t {
        if p.len() > 0 {
            let q = p.drop_first();
            lemma_with_ratio_shape(*first, q, r);
            lemma_with_ratio_shape(*second, q, r);
            assert forall|x: usize| #[trigger] t.with_ratio_at(p, r).has_area(x) == t.has_area(x) by {
                assert(first.with_ratio_at(q, r).has_area(x) == first.has_area(x));
                assert(second.with_ratio_at(q, r).has_area(x) == second.has_area(x));
            }
        }
    }
}

/// Tidying up leaves a compact tree with the same areas in the same order.
pub proof fn law_cleanup_compacts<C>(t: DockNode<C>)
    ensures
        t.cleaned().is_compact(),
        t.cleaned().leaves() == t.leaves(),
        forall|x: usize| #[trigger] t.cleaned().has_area(x) == t.has_area(x),
        t.ids_unique() ==> t.cleaned().ids_unique(),
    decreases t,
{
    if let DockNode::Split { first, second, .. } = t {
        law_cleanup_compacts(*first);
        law_cleanup_compacts(*second);
        let f = first.cleaned();
        let s = second.cleaned();
        assert forall|x: usize| #[trigger] t.cleaned().has_area(x) == t.has_area(x) by {
            assert(f.has_area(x) == first.has_area(x));
            assert(s.has_area(x) == second.has_area(x));
            if f.leaves().len() == 0 && first.has_area(x) {
                lemma_has_area_nonempty(f, x);
            }
            if s.leaves().len() == 0 && second.has_area(x) {
                lemma_has_area_nonempty(s, x);
            }
        }
        if f.leaves().len() == 0 && s.leaves().len() == 0 {
            assert(t.leaves() =~= Seq::<Area<C>>::empty());
        } else if f.leaves().len() == 0 {
            assert(t.leaves() =~= s.leaves());
        } else if s.leaves().len() == 0 {
            assert(t.leaves() =~= f.leaves());
        }
    }
}

/// Tidying up a compact tree changes nothing.
pub proof fn law_cleanup_of_compact_is_identity<C>(t: DockNode<C>)
    requires
        t.is_compact(),
    ensures
        t.cleaned() == t,
    decreases t,
{
    if let DockNode::Split { first, second, .. } = t {
        law_cleanup_of_compact_is_identity(*first);
        law_cleanup_of_compact_is_identity(*second);
    }
}

/// Splitting adds the new area next to the split one and nothing else; it
/// keeps the tree compact, and keeps ids unique when the new id is fresh.
pub proof fn law_split_shape<C>(
    t: DockNode<C>,
    id: usize,
    new_area: Area<C>,
    direction: SplitDirection,
    ratio: u32,
    new_is_first: bool,
)
    ensures
        forall|x: usize| #[trigger] t.split_leaf(id, new_area, direction, ratio, new_is_first).has_area(x)
            == (t.has_area(x) || (t.has_area(id) && x == new_area.id)),
        t.is_compact() ==> t.split_leaf(id, new_area, direction, ratio, new_is_first).is_compact(),
        t.ids_unique() && !t.has_area(new_area.id) ==> t.split_leaf(id, new_area, direction, ratio, new_is_first).ids_unique(),
        t.has_area(id) ==> t.split_leaf(id, new_area, direction, ratio, new_is_first).leaves().len() == t.leaves().len() + 1,
        !t.has_area(id) ==> t.split_leaf(id, new_area, direction, ratio, new_is_first) == t,
    decreases t,
{
    if !t.has_area(id) {
        lemma_split_leaf_absent(t, id, new_area, direction, ratio, new_is_first);
        return;
    }
    if let DockNode::Split { first, second, .. } = t {
        law_split_shape(*first, id, new_area, direction, ratio, new_is_first);
        law_split_shape(*second, id, new_area, direction, ratio, new_is_first);
        let f = first.split_leaf(id, new_area, direction, ratio, new_is_first);
        let g = second.split_leaf(id, new_area, direction, ratio, new_is_first);
        assert forall|x: usize| #[trigger] t.split_leaf(id, new_area, direction, ratio, new_is_first).has_area(x)
            == (t.has_area(x) || (t.has_area(id) && x == new_area.id)) by {
            assert(f.has_area(x) == (first.has_area(x) || (first.has_area(id) && x == new_area.id)));
            assert(g.has_area(x) == (second.has_area(x) || (second.has_area(id) && x == new_area.id)));
        }
        let r = t.split_leaf(id, new_area, direction, ratio, new_is_first);
        if first.has_area(id) {
            assert(f.has_area(id));
            lemma_has_area_nonempty(f, id);
            assert(r == DockNode::Split { direction: t->direction, ratio: t->ratio, first: Box::new(f), second });
            if t.ids_unique() && !t.has_area(new_area.id) {
                assert forall|x: usize| f.has_area(x) implies !second.has_area(x) by {
                    assert(f.has_area(x) == (first.has_area(x) || x == new_area.id));
                }
            }
        } else {
            assert(g.has_area(id));
            lemma_has_area_nonempty(g, id);
            assert(r == DockNode::Split { direction: t->direction, ratio: t->ratio, first, second: Box::new(g) });
            if t.ids_unique() && !t.has_area(new_area.id) {
                assert forall|x: usize| first.has_area(x) implies !g.has_area(x) by {
                    assert(g.has_area(x) == (second.has_area(x) || x == new_area.id));
                }
            }
        }
    } else {
        let r = t.split_leaf(id, new_area, direction, ratio, new_is_first);
        assert forall|x: usize| #[trigger] r.has_area(x) == (t.has_area(x) || (t.has_area(id) && x == new_area.id)) by {
            if let DockNode::Split { first, second, .. } = r {
                assert(first.has_area(x) || second.has_area(x) <==> r.has_area(x));
            }
        }
        if let DockNode::Split { first, second, .. } = r {
            assert(first.leaves().len() == 1);
            assert(second.leaves().len() == 1);
            assert(first.is_compact() && second.is_compact());
            assert(r.is_compact());
            if !t.has_area(new_area.id) {
                assert forall|x: usize| first.has_area(x) implies !second.has_area(x) by {}
                assert(first.ids_unique() && second.ids_unique());
                assert(r.ids_unique());
            }
        }
    }
}

/// Splitting makes the new area a direct child of a split.
pub proof fn lemma_split_makes_joinable<C>(
    t: DockNode<C>,
    id: usize,
    new_area: Area<C>,
    direction: SplitDirection,
    ratio: u32,
    new_is_first: bool,
)
    requires
        t.has_area(id),
    ensures
        t.split_leaf(id, new_area, direction, ratio, new_is_first).has_joinable(new_area.id),
        t.split_leaf(id, new_area, direction, ratio, new_is_first) is Split,
    decreases t,
{
    if let DockNode::Split { first, second, .. } = t {
        if first.has_area(id) {
            lemma_split_makes_joinable(*first, id, new_area, direction, ratio, new_is_first);
        } else {
            lemma_split_makes_joinable(*second, id, new_area, direction, ratio, new_is_first);
        }
    }
}

/// Joining the area that a split has just made gives back the tree from
/// before the split.
pub proof fn law_split_then_join<C>(
    t: DockNode<C>,
    id: usize,
    new_area: Area<C>,
    direction: SplitDirection,
    ratio: u32,
    new_is_first: bool,
)
    requires
        t.has_area(id),
        !t.has_area(new_area.id),
    ensures
        t.split_leaf(id, new_area, direction, ratio, new_is_first).joined(new_area.id) == t,
    decreases t,
{
    let r = t.split_leaf(id, new_area, direction, ratio, new_is_first);
    match t {
        DockNode::Split { direction: d, ratio: q, first, second } => {
            if first.has_area(id) {
                law_split_then_join(*first, id, new_area, direction, ratio, new_is_first);
                lemma_split_makes_joinable(*first, id, new_area, direction, ratio, new_is_first);
                let f = first.split_leaf(id, new_area, direction, ratio, new_is_first);
                assert(r == DockNode::Split { direction: d, ratio: q, first: Box::new(f), second });
                assert(!second.has_area(new_area.id));
                assert(!second.is_leaf_of(new_area.id)) by {
                    if let DockNode::Leaf(b) = *second {
                        assert(second.has_area(b.id));
                    }
                }
                assert(!f.is_leaf_of(new_area.id));
                assert(r.joined(new_area.id) == DockNode::Split { direction: d, ratio: q, first: Box::new(f.joined(new_area.id)), second });
            } else {
                law_split_then_join(*second, id, new_area, direction, ratio, new_is_first);
                lemma_split_makes_joinable(*second, id, new_area, direction, ratio, new_is_first);
                if first.has_joinable(new_area.id) {
                    lemma_joinable_has_area(*first, new_area.id);
                }
                let g = second.split_leaf(id, new_area, direction, ratio, new_is_first);
                assert(r == DockNode::Split { direction: d, ratio: q, first, second: Box::new(g) });
                assert(!first.has_area(new_area.id));
                assert(!first.is_leaf_of(new_area.id)) by {
                    if let DockNode::Leaf(b) = *first {
                        assert(first.has_area(b.id));
                    }
                }
                assert(!g.is_leaf_of(new_area.id));
                assert(r.joined(new_area.id) == DockNode::Split { direction: d, ratio: q, first, second: Box::new(g.joined(new_area.id)) });
            }
        },
        DockNode::Leaf(a) => {
            assert(a.id != new_area.id);
        },
        DockNode::Empty => {},
    }
}

/// Joining removes only the joined area, and keeps ids unique.
pub proof fn law_join_shape<C>(t: DockNode<C>, id: usize)
    ensures
        forall|x: usize| #[trigger] t.joined(id).has_area(x) ==> t.has_area(x),
        t.ids_unique() ==> t.joined(id).ids_unique(),
        t.ids_unique() && t.has_joinable(id) ==> !t.joined(id).has_area(id),
        t.ids_unique() && t.has_joinable(id) ==> forall|x: usize| x != id ==> (#[trigger] t.joined(id).has_area(x) == t.has_area(x)),
        !t.has_joinable(id) ==> t.joined(id) == t,
    decreases t,
{
    if !t.has_joinable(id) {
        lemma_joined_absent(t, id);
        return;
    }
    if let DockNode::Split { first, second, .. } = t {
        law_join_shape(*first, id);
        law_join_shape(*second, id);
        let f = first.joined(id);
        let g = second.joined(id);
        assert forall|x: usize| #[trigger] t.joined(id).has_area(x) implies t.has_area(x) by {
            assert(f.has_area(x) ==> first.has_area(x));
            assert(g.has_area(x) ==> second.has_area(x));
        }
        if t.ids_unique() {
            assert forall|x: usize| x != id implies (#[trigger] t.joined(id).has_area(x) == t.has_area(x)) by {
                assert(f.has_area(x) ==> first.has_area(x));
                assert(g.has_area(x) ==> second.has_area(x));
                if first.has_joinable(id) {
                    assert(f.has_area(x) == first.has_area(x));
                } else if second.has_joinable(id) {
                    assert(g.has_area(x) == second.has_area(x));
                }
            }
        }
        if first.has_joinable(id) {
            lemma_joinable_has_area(*first, id);
        }
        if second.has_joinable(id) {
            lemma_joinable_has_area(*second, id);
        }
    }
}

/// Reading a ratio back after setting it gives the value set.
pub proof fn law_ratio_read_after_write<C>(t: DockNode<C>, p: Seq<usize>, r: u32)
    requires
        t.ratio_at(p) is Some,
    ensures
        t.with_ratio_at(p, r).ratio_at(p) == Some(r),
    decreases p.len(),
{
    if p.len() > 0 {
        if let DockNode::Split { first, second, .. } = t {
            if p[0] == 0 {
                law_ratio_read_after_write(*first, p.drop_first(), r);
            } else if p[0] == 1 {
                law_ratio_read_after_write(*second, p.drop_first(), r);
            }
        }
    }
}

/// Reading an area's content back after setting it gives the value set.
pub proof fn law_content_read_after_write<C>(t: DockNode<C>, id: usize, c: C)
    requires
        t.has_area(id),
    ensures
        t.with_content(id, c).content_of(id) == Some(c),
    decreases t,
{
    if let DockNode::Split { first, second, .. } = t {
        lemma_with_content_shape(*first, id, c);
        if first.has_area(id) {
            law_content_read_after_write(*first, id, c);
            assert(first.with_content(id, c).has_area(id));
        } else {
            law_content_read_after_write(*second, id, c);
            assert(!first.with_content(id, c).has_area(id));
        }
    }
}

/// Putting a leaf in the place of a leaf swaps one id for another and keeps
/// the shape of the tree.
pub proof fn lemma_replace_leaf<C>(t: DockNode<C>, p: Seq<usize>, y: Area<C>, n: Area<C>)
    requires
        t.subtree_at(p) == Some(DockNode::Leaf(y)),
        t.ids_unique(),
    ensures
        forall|x: usize| #[trigger] t.replace_at(p, DockNode::Leaf(n)).has_area(x)
            == ((t.has_area(x) && x != y.id) || x == n.id),
        t.replace_at(p, DockNode::Leaf(n)).leaves().len() == t.leaves().len(),
        t.replace_at(p, DockNode::Leaf(n)).is_compact() == t.is_compact(),
        (!t.has_area(n.id) || n.id == y.id) ==> t.replace_at(p, DockNode::Leaf(n)).ids_unique(),
        t.has_area(y.id),
    decreases p.len(),
{
    let r = t.replace_at(p, DockNode::Leaf(n));
    if p.len() == 0 {
        assert forall|x: usize| #[trigger] r.has_area(x) == ((t.has_area(x) && x != y.id) || x == n.id) by {}
    } else if let DockNode::Split { direction, ratio, first, second } = t {
        let q = p.drop_first();
        if p[0] == 0 {
            lemma_replace_leaf(*first, q, y, n);
            let f = first.replace_at(q, DockNode::Leaf(n));
            assert(r == DockNode::Split { direction, ratio, first: Box::new(f), second });
            assert forall|x: usize| #[trigger] r.has_area(x) == ((t.has_area(x) && x != y.id) || x == n.id) by {
                assert(f.has_area(x) == ((first.has_area(x) && x != y.id) || x == n.id));
            }
            if !t.has_area(n.id) || n.id == y.id {
                assert forall|x: usize| f.has_area(x) implies !second.has_area(x) by {
                    assert(f.has_area(x) == ((first.has_area(x) && x != y.id) || x == n.id));
                }
            }
            if t.is_compact() {
                assert(f.leaves().len() > 0);
            }
            if r.is_compact() {
                assert(first.leaves().len() > 0);
            }
        } else {
            lemma_replace_leaf(*second, q, y, n);
            let g = second.replace_at(q, DockNode::Leaf(n));
            assert(r == DockNode::Split { direction, ratio, first, second: Box::new(g) });
            assert forall|x: usize| #[trigger] r.has_area(x) == ((t.has_area(x) && x != y.id) || x == n.id) by {
                assert(g.has_area(x) == ((second.has_area(x) && x != y.id) || x == n.id));
            }
            if !t.has_area(n.id) || n.id == y.id {
                assert forall|x: usize| first.has_area(x) implies !g.has_area(x) by {
                    assert(g.has_area(x) == ((second.has_area(x) && x != y.id) || x == n.id));
                }
            }
            if t.is_compact() {
                assert(g.leaves().len() > 0);
            }
            if r.is_compact() {
                assert(second.leaves().len() > 0);
            }
        }
    }
}

/// Exchanging two leaves with different ids keeps the set of ids, their
/// uniqueness and the shape of the tree.
pub proof fn law_swap_shape<C>(t: DockNode<C>, pa: Seq<usize>, pb: Seq<usize>, ya: Area<C>, yb: Area<C>)
    requires
        t.ids_unique(),
        t.subtree_at(pa) == Some(DockNode::Leaf(ya)),
        t.subtree_at(pb) == Some(DockNode::Leaf(yb)),
        ya.id != yb.id,
    ensures
        forall|x: usize| #[trigger] t.replace_at(pa, DockNode::Leaf(yb)).replace_at(pb, DockNode::Leaf(ya)).has_area(x)
            == t.has_area(x),
        t.replace_at(pa, DockNode::Leaf(yb)).replace_at(pb, DockNode::Leaf(ya)).ids_unique(),
        t.replace_at(pa, DockNode::Leaf(yb)).replace_at(pb, DockNode::Leaf(ya)).is_compact() == t.is_compact(),
        t.replace_at(pa, DockNode::Leaf(yb)).replace_at(pb, DockNode::Leaf(ya)).leaves().len() == t.leaves().len(),
    decreases pa.len(),
{
    let r = t.replace_at(pa, DockNode::Leaf(yb)).replace_at(pb, DockNode::Leaf(ya));
    if let DockNode::Split { direction, ratio, first, second } = t {
        if pa.len() == 0 || pb.len() == 0 {
            assert(false);
        }
        let qa = pa.drop_first();
        let qb = pb.drop_first();
        if pa[0] == 0 && pb[0] == 0 {
            law_swap_shape(*first, qa, qb, ya, yb);
            let f = first.replace_at(qa, DockNode::Leaf(yb)).replace_at(qb, DockNode::Leaf(ya));
            assert(r == DockNode::Split { direction, ratio, first: Box::new(f), second });
            assert forall|x: usize| #[trigger] r.has_area(x) == t.has_area(x) by {
                assert(f.has_area(x) == first.has_area(x));
            }
            assert forall|x: usize| f.has_area(x) implies !second.has_area(x) by {
                assert(f.has_area(x) == first.has_area(x));
            }
        } else if pa[0] != 0 && pb[0] != 0 {
            law_swap_shape(*second, qa, qb, ya, yb);
            let g = second.replace_at(qa, DockNode::Leaf(yb)).replace_at(qb, DockNode::Leaf(ya));
            assert(r == DockNode::Split { direction, ratio, first, second: Box::new(g) });
            assert forall|x: usize| #[trigger] r.has_area(x) == t.has_area(x) by {
                assert(g.has_area(x) == second.has_area(x));
            }
            assert forall|x: usize| first.has_area(x) implies !g.has_area(x) by {
                assert(g.has_area(x) == second.has_area(x));
            }
        } else if pa[0] == 0 {
            lemma_replace_leaf(*first, qa, ya, yb);
            lemma_replace_leaf(*second, qb, yb, ya);
            let f = first.replace_at(qa, DockNode::Leaf(yb));
            let g = second.replace_at(qb, DockNode::Leaf(ya));
            assert(r == DockNode::Split { direction, ratio, first: Box::new(f), second: Box::new(g) });
            assert forall|x: usize| #[trigger] r.has_area(x) == t.has_area(x) by {
                assert(f.has_area(x) == ((first.has_area(x) && x != ya.id) || x == yb.id));
                assert(g.has_area(x) == ((second.has_area(x) && x != yb.id) || x == ya.id));
            }
            assert forall|x: usize| f.has_area(x) implies !g.has_area(x) by {
                assert(f.has_area(x) == ((first.has_area(x) && x != ya.id) || x == yb.id));
                assert(g.has_area(x) == ((second.has_area(x) && x != yb.id) || x == ya.id));
            }
            if t.is_compact() {
                assert(f.leaves().len() > 0 && g.leaves().len() > 0);
            }
        } else {
            lemma_replace_leaf(*second, qa, ya, yb);
            lemma_replace_leaf(*first, qb, yb, ya);
            let f = first.replace_at(qb, DockNode::Leaf(ya));
            let g = second.replace_at(qa, DockNode::Leaf(yb));
            assert(r == DockNode::Split { direction, ratio, first: Box::new(f), second: Box::new(g) });
            assert forall|x: usize| #[trigger] r.has_area(x) == t.has_area(x) by {
                assert(f.has_area(x) == ((first.has_area(x) && x != yb.id) || x == ya.id));
                assert(g.has_area(x) == ((second.has_area(x) && x != ya.id) || x == yb.id));
            }
            assert forall|x: usize| f.has_area(x) implies !g.has_area(x) by {
                assert(f.has_area(x) == ((first.has_area(x) && x != yb.id) || x == ya.id));
                assert(g.has_area(x) == ((second.has_area(x) && x != ya.id) || x == yb.id));
            }
            if t.is_compact() {
                assert(f.leaves().len() > 0 && g.leaves().len() > 0);
            }
        }
    } else {
        if pa.len() > 0 || pb.len() > 0 {
            assert(false);
        }
    }
}


/// The area a route leads to is one of the tree's areas.
pub proof fn lemma_subtree_leaf_has_area<C>(t: DockNode<C>, p: Seq<usize>, y: Area<C>)
    requires
        t.subtree_at(p) == Some(DockNode::Leaf(y)),
    ensures
        t.has_area(y.id),
    decreases p.len(),
{
    if p.len() > 0 {
        if let DockNode::Split { first, second, .. } = t {
            if p[0] == 0 {
                lemma_subtree_leaf_has_area(*first, p.drop_first(), y);
            } else {
                lemma_subtree_leaf_has_area(*second, p.drop_first(), y);
            }
        }
    }
}

/// With unique ids, the route to an area is the only route that leads to it.
pub proof fn lemma_unique_path<C>(t: DockNode<C>, p: Seq<usize>, y: Area<C>)
    requires
        t.ids_unique(),
        t.subtree_at(p) == Some(DockNode::Leaf(y)),
    ensures
        t.path_of(y.id) == Some(p),
    decreases p.len(),
{
    if p.len() == 0 {
        assert(t == DockNode::Leaf(y));
    } else {
        if let DockNode::Split { first, second, .. } = t {
            let q = p.drop_first();
            if p[0] == 0 {
                lemma_unique_path(*first, q, y);
                lemma_subtree_leaf_has_area(*first, q, y);
                assert(seq![0usize] + q =~= p);
            } else {
                lemma_unique_path(*second, q, y);
                lemma_subtree_leaf_has_area(*second, q, y);
                assert(!first.has_area(y.id));
                assert(seq![1usize] + q =~= p);
            }
        }
    }
}

/// Putting back the node that a route leads to changes nothing.
pub proof fn lemma_replace_with_own<C>(t: DockNode<C>, p: Seq<usize>)
    requires
        t.subtree_at(p) is Some,
    ensures
        t.replace_at(p, t.subtree_at(p).unwrap()) == t,
    decreases p.len(),
{
    if p.len() > 0 {
        if let DockNode::Split { direction, ratio, first, second } = t {
            if p[0] == 0 {
                lemma_replace_with_own(*first, p.drop_first());
            } else {
                lemma_replace_with_own(*second, p.drop_first());
            }
        }
    }
}

/// Joining never adds areas to the tree.
pub proof fn lemma_joined_leaves_len<C>(t: DockNode<C>, id: usize)
    ensures
        t.joined(id).leaves().len() <= t.leaves().len(),
    decreases t,
{
    if let DockNode::Split { first, second, .. } = t {
        lemma_joined_leaves_len(*first, id);
        lemma_joined_leaves_len(*second, id);
    }
}

/// Putting a leaf in the place of a leaf keeps the number of areas.
pub proof fn lemma_replace_leaf_len<C>(t: DockNode<C>, p: Seq<usize>, y: Area<C>, n: Area<C>)
    requires
        t.subtree_at(p) == Some(DockNode::Leaf(y)),
    ensures
        t.replace_at(p, DockNode::Leaf(n)).leaves().len() == t.leaves().len(),
    decreases p.len(),
{
    if p.len() > 0 {
        if let DockNode::Split { first, second, .. } = t {
            if p[0] == 0 {
                lemma_replace_leaf_len(*first, p.drop_first(), y, n);
            } else {
                lemma_replace_leaf_len(*second, p.drop_first(), y, n);
            }
        }
    }
}

} // verus!
