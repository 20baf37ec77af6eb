//! What handling a message keeps, and what one message undoes of another.

use vstd::prelude::*;
use crate::dock::{Area, CornerAction, DockNode, SplitDirection};
use crate::layout::{
    lemma_path_of_leads_to_leaf, lemma_paths_diverge, lemma_replace_commutes, lemma_replace_twice,
    lemma_subtree_after_replace, lemma_subtree_at_replaced, paths_diverge,
};
use crate::layout_laws::{
    law_cleanup_compacts, law_cleanup_of_compact_is_identity, law_join_shape, law_split_shape,
    law_split_then_join, law_swap_shape, lemma_joined_leaves_len, lemma_replace_leaf_len, lemma_replace_with_own,
    lemma_unique_path, lemma_with_content_shape, lemma_with_ratio_shape,
};
use crate::dock::{HALF_RATIO, MAX_RATIO, MIN_RATIO};
use crate::geometry::{Point, Rect};
use crate::system::{
    area_at, bounds_along, drop_layout, menu_closing, menu_ticked, menu_toggled, ratio_from_center, DropLayout, EditorMenuState,
    MENU_PROGRESS_FULL, clamp_ratio, move_result, split_result, swapped_layout, updated, DragState,
    PanelSystem, PanelSystemMessage,
};

verus! {

/// A split with a fresh id keeps ids unique, keeps the tree compact and
/// keeps every id below the next one.
proof fn lemma_split_result_well_formed<C: Clone>(
    t: DockNode<C>, next: usize, id: usize, direction: SplitDirection, ratio: u32, new_is_first: bool,
    t2: DockNode<C>, next2: usize,
)
    requires
        split_result(t, next, id, direction, ratio, new_is_first, t2, next2),
        t.ids_unique(),
        t.is_compact(),
        forall|x: usize| #[trigger] t.has_area(x) ==> x < next,
    ensures
        t2.ids_unique(),
        t2.is_compact(),
        forall|x: usize| #[trigger] t2.has_area(x) ==> x < next2,
{
    if t.has_area(id) {
        let c = choose|c: C| #[trigger] cloned(t.content_of(id).unwrap(), c)
            && t2 == t.split_leaf(id, Area { id: next, content: c }, direction, clamp_ratio(ratio), new_is_first);
        law_split_shape(t, id, Area { id: next, content: c }, direction, clamp_ratio(ratio), new_is_first);
        assert(!t.has_area(next));
    }
}

/// Moving an area keeps ids unique, keeps the tree compact and keeps every
/// id below the next one.
proof fn lemma_move_result_well_formed<C: Clone>(
    t: DockNode<C>, next: usize, source: usize, target: usize, direction: SplitDirection, ratio: u32,
    new_is_first: bool, t2: DockNode<C>, next2: usize,
)
    requires
        move_result(t, next, source, target, direction, ratio, new_is_first, t2, next2),
        t.ids_unique(),
        t.is_compact(),
        forall|x: usize| #[trigger] t.has_area(x) ==> x < next,
    ensures
        t2.ids_unique(),
        t2.is_compact(),
        forall|x: usize| #[trigger] t2.has_area(x) ==> x < next2,
{
    if source != target && t.has_area(source) {
        let c = choose|c: C| #[trigger] cloned(t.content_of(source).unwrap(), c)
            && t2 == t.split_leaf(target, Area { id: next, content: c }, direction, clamp_ratio(ratio), new_is_first).joined(source).cleaned();
        let s = t.split_leaf(target, Area { id: next, content: c }, direction, clamp_ratio(ratio), new_is_first);
        law_split_shape(t, target, Area { id: next, content: c }, direction, clamp_ratio(ratio), new_is_first);
        assert(!t.has_area(next));
        law_join_shape(s, source);
        law_cleanup_compacts(s.joined(source));
        assert forall|x: usize| #[trigger] t2.has_area(x) implies x < next2 by {
            assert(s.joined(source).has_area(x));
            assert(s.has_area(x));
        }
    }
}

/// Swapping two areas keeps ids unique, keeps the tree compact and keeps
/// the set of ids.
proof fn lemma_swap_well_formed<C>(t: DockNode<C>, a: usize, b: usize)
    requires
        t.ids_unique(),
    ensures
        swapped_layout(t, a, b).ids_unique(),
        swapped_layout(t, a, b).is_compact() == t.is_compact(),
        forall|x: usize| #[trigger] swapped_layout(t, a, b).has_area(x) == t.has_area(x),
{
    if !(a == b || !t.has_area(a) || !t.has_area(b)) {
        lemma_path_of_leads_to_leaf(t, a);
        lemma_path_of_leads_to_leaf(t, b);
        let pa = t.path_of(a).unwrap();
        let pb = t.path_of(b).unwrap();
        let ya = t.subtree_at(pa).unwrap()->Leaf_0;
        let yb = t.subtree_at(pb).unwrap()->Leaf_0;
        law_swap_shape(t, pa, pb, ya, yb);
    }
}

/// Handling any message keeps the system well formed: area ids stay unique
/// and below the next id, and every split keeps areas on both sides.
pub proof fn law_update_keeps_well_formed<C: Clone, M>(
    s: PanelSystem<C>,
    t: PanelSystem<C>,
    message: PanelSystemMessage<C, M>,
    now: u64,
)
    requires
        s.well_formed(),
        updated(s, t, message, now),
    ensures
        t.well_formed(),
{
    match message {
        PanelSystemMessage::ChangeEditor(id, content) => {
            lemma_with_content_shape(s.layout(), id, content);
        },
        PanelSystemMessage::MouseMove(pos) => {
            if let DragState::Resizing { .. } = s.drag() {
                assert forall|p: Seq<usize>, q: u32| s.layout().with_ratio_at(p, q).is_compact() == s.layout().is_compact() by {
                    lemma_with_ratio_shape(s.layout(), p, q);
                }
                assert forall|p: Seq<usize>, q: u32| s.layout().with_ratio_at(p, q).ids_unique() by {
                    lemma_with_ratio_shape(s.layout(), p, q);
                }
                assert forall|p: Seq<usize>, q: u32, x: usize| #[trigger] s.layout().with_ratio_at(p, q).has_area(x) == s.layout().has_area(x) by {
                    lemma_with_ratio_shape(s.layout(), p, q);
                }
            }
        },
        PanelSystemMessage::CornerDragEnd => {
            match s.drag() {
                DragState::CornerDrag { area_id, update, .. } => match update.action {
                    Some(CornerAction::Move) => match update.target_area_id {
                        Some(target) => match update.direction {
                            Some(direction) => {
                                lemma_move_result_well_formed(s.layout(), s.next_id(), area_id, target, direction,
                                    update.ratio, update.new_is_first, t.layout(), t.next_id());
                            },
                            None => {
                                lemma_swap_well_formed(s.layout(), area_id, target);
                            },
                        },
                        None => {},
                    },
                    Some(action) => match crate::system::action_direction(action) {
                        Some(direction) => {
                            lemma_split_result_well_formed(s.layout(), s.next_id(), area_id,
                                direction, update.ratio, false, t.layout(), t.next_id());
                        },
                        None => {},
                    },
                    None => {},
                },
                _ => {},
            }
        },
        PanelSystemMessage::JoinArea(id) => {
            law_join_shape(s.layout(), id);
            law_cleanup_compacts(s.layout().joined(id));
            assert forall|x: usize| #[trigger] t.layout().has_area(x) implies x < t.next_id() by {
                assert(s.layout().joined(id).has_area(x));
            }
        },
        _ => {},
    }
}

/// Splitting an area and then joining the new area into it gives back the
/// layout from before the split.
pub proof fn law_split_then_join_restores<C: Clone>(
    t: DockNode<C>, next: usize, id: usize, direction: SplitDirection, ratio: u32, new_is_first: bool,
    t2: DockNode<C>, next2: usize,
)
    requires
        split_result(t, next, id, direction, ratio, new_is_first, t2, next2),
        t.has_area(id),
        !t.has_area(next),
        t.is_compact(),
    ensures
        t2.joined(next).cleaned() == t,
{
    let c = choose|c: C| #[trigger] cloned(t.content_of(id).unwrap(), c)
        && t2 == t.split_leaf(id, Area { id: next, content: c }, direction, clamp_ratio(ratio), new_is_first);
    law_split_then_join(t, id, Area { id: next, content: c }, direction, clamp_ratio(ratio), new_is_first);
    law_cleanup_of_compact_is_identity(t);
}

/// The area found under a point is an area of the layout.
pub proof fn law_area_at_is_an_area<C>(t: DockNode<C>, p: Point, r: Rect)
    ensures
        area_at(t, p, r) matches Some(id) ==> t.has_area(id),
    decreases t,
{
    if let DockNode::Split { direction, ratio, first, second } = t {
        let (a, b) = r.split_parts(direction, ratio);
        law_area_at_is_an_area(*first, p, a);
        law_area_at_is_an_area(*second, p, b);
    }
}

/// A docking drop always proposes a split ratio between [`MIN_RATIO`] and
/// [`MAX_RATIO`], with the moved area's side at most half when it goes first
/// and at least half when it goes second.
pub proof fn law_drop_ratio_in_range(b: Rect, p: Point)
    ensures
        drop_layout(b, p) matches Some(DropLayout::Split { ratio, new_is_first, .. }) ==> {
            &&& MIN_RATIO <= ratio <= MAX_RATIO
            &&& new_is_first ==> ratio <= HALF_RATIO
            &&& !new_is_first ==> ratio >= HALF_RATIO
        },
{
    assert forall|pos: u32, first: bool| #[trigger] ratio_from_center(pos, first) >= MIN_RATIO
        && ratio_from_center(pos, first) <= MAX_RATIO
        && (first ==> ratio_from_center(pos, first) <= HALF_RATIO)
        && (!first ==> ratio_from_center(pos, first) >= HALF_RATIO) by {
        let boundary: int = HALF_RATIO - 2200;
        if first {
            let t: int = if pos > boundary { boundary } else { pos as int };
            assert(0 <= t * 3500 / 2800 <= 3500) by (nonlinear_arith) requires 0 <= t <= 2800;
        } else {
            let far: int = HALF_RATIO + 2200;
            let t: int = if pos <= far { 0 } else if pos - far > 10000 - far { 10000 - far } else { pos - far };
            assert(0 <= t * 3500 / 2800 <= 3500) by (nonlinear_arith) requires 0 <= t <= 2800;
        }
    }
}

/// The editor menu's progress never leaves the range from closed to fully
/// open.
pub proof fn law_menu_progress_bounded(menu: Option<EditorMenuState>, area_id: usize, now: u64)
    requires
        menu matches Some(m) ==> m.progress <= MENU_PROGRESS_FULL,
    ensures
        menu_ticked(menu, now) matches Some(m) ==> m.progress <= MENU_PROGRESS_FULL,
        menu_toggled(menu, area_id, now) matches Some(m) ==> m.progress <= MENU_PROGRESS_FULL,
        menu_closing(menu, now) matches Some(m) ==> m.progress <= MENU_PROGRESS_FULL,
{
}

/// Toggling the menu of the same area twice leaves it heading the way it
/// was, at the same progress.
pub proof fn law_menu_toggle_twice(m: EditorMenuState, t1: u64, t2: u64)
    ensures
        menu_toggled(menu_toggled(Some(m), m.area_id, t1), m.area_id, t2)
            == Some(EditorMenuState { last_tick_ms: t2, ..m }),
{
}

/// A closing menu shrinks with every tick after time has passed, and goes
/// away once it reaches closed; an opening menu never shrinks.
pub proof fn law_menu_tick_moves_towards_target(m: EditorMenuState, now: u64)
    ensures
        !m.opening && now > m.last_tick_ms ==> match menu_ticked(Some(m), now) {
            Some(n) => n.progress < m.progress,
            None => true,
        },
        m.opening ==> (menu_ticked(Some(m), now) matches Some(n) && (n.progress >= m.progress || n.progress == MENU_PROGRESS_FULL)),
{
}


/// Swapping two areas twice gives back the layout: the second swap finds
/// each area where the first one put it and puts it back.
pub proof fn law_swap_twice<C>(t: DockNode<C>, a: usize, b: usize)
    requires
        t.ids_unique(),
    ensures
        swapped_layout(swapped_layout(t, a, b), a, b) == t,
{
    if a == b || !t.has_area(a) || !t.has_area(b) {
        return;
    }
    let pa = t.path_of(a).unwrap();
    let pb = t.path_of(b).unwrap();
    lemma_path_of_leads_to_leaf(t, a);
    lemma_path_of_leads_to_leaf(t, b);
    lemma_paths_diverge(t, a, b);
    let la = t.subtree_at(pa).unwrap();
    let lb = t.subtree_at(pb).unwrap();
    let ya = la->Leaf_0;
    let yb = lb->Leaf_0;
    let u = t.replace_at(pa, lb);
    let s = u.replace_at(pb, la);
    assert(s == swapped_layout(t, a, b));
    // Where the first swap put the two areas.
    lemma_subtree_after_replace(t, pa, pb, lb);
    lemma_subtree_at_replaced(u, pb, la);
    lemma_subtree_at_replaced(t, pa, lb);
    assert(paths_diverge(pb, pa));
    lemma_subtree_after_replace(u, pb, pa, la);
    assert(s.subtree_at(pb) == Some(la));
    assert(s.subtree_at(pa) == Some(lb));
    law_swap_shape(t, pa, pb, ya, yb);
    assert(s.has_area(a) && s.has_area(b));
    lemma_unique_path(s, pb, ya);
    lemma_unique_path(s, pa, yb);
    // The second swap puts them back.
    assert(swapped_layout(s, a, b) == s.replace_at(pb, lb).replace_at(pa, la));
    lemma_replace_twice(u, pb, la, lb);
    lemma_replace_commutes(t.replace_at(pa, lb), pb, pa, lb, la);
    lemma_replace_twice(t, pa, lb, la);
    lemma_replace_with_own(t, pa);
    lemma_replace_with_own(t, pb);
}

/// Releasing a corner drag ends the drag and adds at most one area: a split
/// adds the new area, a move adds it and removes the moved one, a swap
/// exchanges two. The layout changes only when the drag had an action.
pub proof fn law_corner_drag_end_adds_at_most_one_area<C: Clone, M>(
    s: PanelSystem<C>,
    t: PanelSystem<C>,
    now: u64,
)
    requires
        updated(s, t, PanelSystemMessage::<C, M>::CornerDragEnd, now),
    ensures
        t.drag() is Idle,
        t.layout().leaves().len() <= s.layout().leaves().len() + 1,
        !(s.drag() matches DragState::CornerDrag { update, .. } && update.action is Some) ==> t.layout() == s.layout(),
{
    let l = s.layout();
    let next = s.next_id();
    if let DragState::CornerDrag { area_id, update, .. } = s.drag() {
        match update.action {
            Some(CornerAction::Move) => {
                if let Some(target) = update.target_area_id {
                    match update.direction {
                        Some(direction) => {
                            if area_id != target && l.has_area(area_id) {
                                let c = choose|c: C| #[trigger] cloned(l.content_of(area_id).unwrap(), c)
                                    && t.layout() == l.split_leaf(target, Area { id: next, content: c }, direction,
                                        clamp_ratio(update.ratio), update.new_is_first).joined(area_id).cleaned();
                                let sp = l.split_leaf(target, Area { id: next, content: c }, direction,
                                    clamp_ratio(update.ratio), update.new_is_first);
                                law_split_shape(l, target, Area { id: next, content: c }, direction,
                                    clamp_ratio(update.ratio), update.new_is_first);
                                lemma_joined_leaves_len(sp, area_id);
                                law_cleanup_compacts(sp.joined(area_id));
                            }
                        },
                        None => {
                            if area_id != target && l.has_area(area_id) && l.has_area(target) {
                                let pa = l.path_of(area_id).unwrap();
                                let pb = l.path_of(target).unwrap();
                                lemma_path_of_leads_to_leaf(l, area_id);
                                lemma_path_of_leads_to_leaf(l, target);
                                lemma_paths_diverge(l, area_id, target);
                                let la = l.subtree_at(pa).unwrap();
                                let lb = l.subtree_at(pb).unwrap();
                                let u = l.replace_at(pa, lb);
                                lemma_replace_leaf_len(l, pa, la->Leaf_0, lb->Leaf_0);
                                lemma_subtree_after_replace(l, pa, pb, lb);
                                lemma_replace_leaf_len(u, pb, lb->Leaf_0, la->Leaf_0);
                            }
                        },
                    }
                }
            },
            Some(action) => {
                if let Some(direction) = crate::system::action_direction(action) {
                    if l.has_area(area_id) {
                        let c = choose|c: C| #[trigger] cloned(l.content_of(area_id).unwrap(), c)
                            && t.layout() == l.split_leaf(area_id, Area { id: next, content: c }, direction,
                                clamp_ratio(update.ratio), false);
                        law_split_shape(l, area_id, Area { id: next, content: c }, direction, clamp_ratio(update.ratio), false);
                    }
                }
            },
            None => {},
        }
    }
}

/// The rectangles of the layout compose: the root fills the whole
/// rectangle (for a system, its window), and the two children of a split get
/// the first and the second part of the split's own rectangle, as the split
/// divides it.
pub proof fn law_bounds_of_children<C>(t: DockNode<C>, p: Seq<usize>, r: Rect)
    ensures
        bounds_along(t, Seq::empty(), r) == r,
        t.subtree_at(p) matches Some(DockNode::Split { direction, ratio, .. }) ==> {
            &&& bounds_along(t, p.push(0), r) == bounds_along(t, p, r).split_parts(direction, ratio).0
            &&& bounds_along(t, p.push(1), r) == bounds_along(t, p, r).split_parts(direction, ratio).1
        },
    decreases p.len(),
{
    if p.len() == 0 {
        assert(p.push(0usize).drop_first() =~= Seq::<usize>::empty());
        assert(p.push(1usize).drop_first() =~= Seq::<usize>::empty());
        if let DockNode::Split { direction, ratio, first, second } = t {
            let (a, b) = r.split_parts(direction, ratio);
            assert(bounds_along(*first, Seq::<usize>::empty(), a) == a);
            assert(bounds_along(*second, Seq::<usize>::empty(), b) == b);
            assert(p.push(0usize)[0] == 0 && p.push(1usize)[0] == 1);
            assert(bounds_along(t, p, r) == r);
        }
    } else if let DockNode::Split { direction, ratio, first, second } = t {
        let (a, b) = r.split_parts(direction, ratio);
        let q = p.drop_first();
        assert(p.push(0usize).drop_first() =~= q.push(0usize));
        assert(p.push(1usize).drop_first() =~= q.push(1usize));
        assert(p.push(0usize)[0] == p[0] && p.push(1usize)[0] == p[0]);
        if p[0] == 0 {
            law_bounds_of_children(*first, q, a);
            assert(t.subtree_at(p) == first.subtree_at(q));
            assert(bounds_along(t, p, r) == bounds_along(*first, q, a));
            assert(bounds_along(t, p.push(0usize), r) == bounds_along(*first, q.push(0usize), a));
            assert(bounds_along(t, p.push(1usize), r) == bounds_along(*first, q.push(1usize), a));
        } else {
            law_bounds_of_children(*second, q, b);
            assert(bounds_along(t, p, r) == bounds_along(*second, q, b));
            assert(bounds_along(t, p.push(0usize), r) == bounds_along(*second, q.push(0usize), b));
            assert(bounds_along(t, p.push(1usize), r) == bounds_along(*second, q.push(1usize), b));
            if p[0] == 1 {
                assert(t.subtree_at(p) == second.subtree_at(q));
            }
        }
    }
}

} // verus!
