//! How the pointer steers the split layout and the editor menu: which side a
//! dropped area docks on, which pointer coordinate a resize or a corner split
//! follows, and how animation ticks count time.

use vstd::prelude::*;
use crate::dock::{CornerAction, DockNode, SplitDirection, HALF_RATIO, MAX_RATIO, MIN_RATIO};
use crate::geometry::{Point, Rect};
use crate::system::{
    ratio_from_center, clamp_ratio, corner_split_ratio, drop_layout, menu_step, menu_ticked, new_resize_ratio, unit_position, DropLayout,
    EditorMenuState,
};

verus! {

/// A position along `len` pixels lies before the middle, in ratio units,
/// exactly when it lies before the middle in pixels.
proof fn lemma_unit_position_before_middle(offset: int, len: u32)
    requires
        len > 1,
    ensures
        (unit_position(offset, len) < HALF_RATIO) == (offset * 2 < len),
{
    if offset > 0 {
        let l = len as int;
        let v = offset * 10000 / l;
        assert((v < 5000) == (offset * 2 < l)) by (nonlinear_arith)
            requires l > 1, offset > 0, v == offset * 10000 / l;
        assert(v > 10000 ==> offset * 2 >= l) by (nonlinear_arith)
            requires l > 1, offset > 0, v == offset * 10000 / l;
    }
}

/// A drop away from the centre of an area docks the moved area on the side
/// of the drop: it becomes the first (left or upper) side exactly when the
/// drop lies left of, or above, the middle of the target; a drop on the
/// first side gives it at most half of the target, a drop on the second
/// side at least half.
pub proof fn law_drop_docks_on_the_side_of_the_drop(b: Rect, p: Point)
    ensures
        drop_layout(b, p) matches Some(DropLayout::Split { direction: SplitDirection::Vertical, ratio, new_is_first })
            ==> new_is_first == ((p.y - b.y) * 2 < b.height) && (new_is_first ==> ratio <= HALF_RATIO)
                && (!new_is_first ==> ratio >= HALF_RATIO),
        drop_layout(b, p) matches Some(DropLayout::Split { direction: SplitDirection::Horizontal, ratio, new_is_first })
            ==> new_is_first == ((p.x - b.x) * 2 < b.width) && (new_is_first ==> ratio <= HALF_RATIO)
                && (!new_is_first ==> ratio >= HALF_RATIO),
{
    crate::system_laws::law_drop_ratio_in_range(b, p);
    if b.width > 1 && b.height > 1 {
        lemma_unit_position_before_middle(p.x - b.x, b.width);
        lemma_unit_position_before_middle(p.y - b.y, b.height);
    }
}

/// `num / den` rounded towards zero grows with `num`.
proof fn lemma_div_toward_zero_monotone(a: int, b: int, den: int)
    requires
        a <= b,
        den > 0,
    ensures
        crate::system::div_toward_zero(a, den) <= crate::system::div_toward_zero(b, den),
{
    if a >= 0 {
        assert(a / den <= b / den) by (nonlinear_arith) requires 0 <= a <= b, den > 0;
    } else if b >= 0 {
        assert(-((-a) / den) <= 0) by (nonlinear_arith) requires a < 0, den > 0;
        assert(b / den >= 0) by (nonlinear_arith) requires b >= 0, den > 0;
    } else {
        assert((-b) / den <= (-a) / den) by (nonlinear_arith) requires 0 < -b <= -a, den > 0;
    }
}

/// Resizing a split follows the pointer's travel along the split's own axis
/// only: a vertical split (one area above the other) moves with the
/// vertical travel whatever the horizontal travel, a horizontal split with
/// the horizontal travel; no travel keeps the start ratio (within the
/// allowed range), and travelling further down (or right) never gives the
/// first area less.
pub proof fn law_resize_follows_the_axis_travel<C>(
    t: DockNode<C>,
    window: Rect,
    path: Seq<usize>,
    start: Point,
    c1: Point,
    c2: Point,
    start_ratio: u32,
)
    ensures
        c1.y == c2.y ==> new_resize_ratio(t, window, path, start, c1, start_ratio, SplitDirection::Vertical)
            == new_resize_ratio(t, window, path, start, c2, start_ratio, SplitDirection::Vertical),
        c1.x == c2.x ==> new_resize_ratio(t, window, path, start, c1, start_ratio, SplitDirection::Horizontal)
            == new_resize_ratio(t, window, path, start, c2, start_ratio, SplitDirection::Horizontal),
        c1.y == start.y ==> new_resize_ratio(t, window, path, start, c1, start_ratio, SplitDirection::Vertical)
            == clamp_ratio(start_ratio),
        c1.x == start.x ==> new_resize_ratio(t, window, path, start, c1, start_ratio, SplitDirection::Horizontal)
            == clamp_ratio(start_ratio),
        c1.y <= c2.y ==> new_resize_ratio(t, window, path, start, c1, start_ratio, SplitDirection::Vertical)
            <= new_resize_ratio(t, window, path, start, c2, start_ratio, SplitDirection::Vertical),
        c1.x <= c2.x ==> new_resize_ratio(t, window, path, start, c1, start_ratio, SplitDirection::Horizontal)
            <= new_resize_ratio(t, window, path, start, c2, start_ratio, SplitDirection::Horizontal),
{
    let region = crate::system::bounds_along(t, path, window);
    let h: int = if region.height < 100 { 100 } else { region.height as int };
    let w: int = if region.width < 100 { 100 } else { region.width as int };
    if c1.y <= c2.y {
        assert((c1.y - start.y) * 10000 <= (c2.y - start.y) * 10000) by (nonlinear_arith) requires c1.y <= c2.y;
        lemma_div_toward_zero_monotone((c1.y - start.y) * 10000, (c2.y - start.y) * 10000, h);
    }
    if c1.x <= c2.x {
        assert((c1.x - start.x) * 10000 <= (c2.x - start.x) * 10000) by (nonlinear_arith) requires c1.x <= c2.x;
        lemma_div_toward_zero_monotone((c1.x - start.x) * 10000, (c2.x - start.x) * 10000, w);
    }
}

/// A corner split follows the pointer across its own axis only: the ratio
/// of a split into an upper and a lower area comes from the pointer's height
/// in the area, whatever its horizontal position, and that of a split into
/// a left and a right area from its horizontal position; a pointer lower
/// down (or further right) never gives the first area less, and a pointer
/// exactly at the middle gives an even split.
pub proof fn law_corner_split_follows_the_pointer(b: Rect, p: Point, q: Point)
    ensures
        p.y == q.y ==> corner_split_ratio(CornerAction::SplitVertical, b, p)
            == corner_split_ratio(CornerAction::SplitVertical, b, q),
        p.x == q.x ==> corner_split_ratio(CornerAction::SplitHorizontal, b, p)
            == corner_split_ratio(CornerAction::SplitHorizontal, b, q),
        p.y <= q.y ==> corner_split_ratio(CornerAction::SplitVertical, b, p)
            <= corner_split_ratio(CornerAction::SplitVertical, b, q),
        p.x <= q.x ==> corner_split_ratio(CornerAction::SplitHorizontal, b, p)
            <= corner_split_ratio(CornerAction::SplitHorizontal, b, q),
        b.height > 1 && (p.y - b.y) * 2 == b.height ==> corner_split_ratio(CornerAction::SplitVertical, b, p) == HALF_RATIO,
        b.width > 1 && (p.x - b.x) * 2 == b.width ==> corner_split_ratio(CornerAction::SplitHorizontal, b, p) == HALF_RATIO,
{
    let h = b.height as int;
    let w = b.width as int;
    if b.height > 1 {
        if p.y <= q.y {
            assert((p.y - b.y) * 10000 <= (q.y - b.y) * 10000) by (nonlinear_arith) requires p.y <= q.y;
            lemma_div_toward_zero_monotone((p.y - b.y) * 10000, (q.y - b.y) * 10000, h);
        }
        if (p.y - b.y) * 2 == h {
            let o = p.y - b.y;
            assert(o * 10000 / h == 5000) by (nonlinear_arith) requires o * 2 == h, h > 1;
        }
    }
    if b.width > 1 {
        if p.x <= q.x {
            assert((p.x - b.x) * 10000 <= (q.x - b.x) * 10000) by (nonlinear_arith) requires p.x <= q.x;
            lemma_div_toward_zero_monotone((p.x - b.x) * 10000, (q.x - b.x) * 10000, w);
        }
        if (p.x - b.x) * 2 == w {
            let o = p.x - b.x;
            assert(o * 10000 / w == 5000) by (nonlinear_arith) requires o * 2 == w, w > 1;
        }
    }
}

/// An animation tick that leaves the editor menu in place records when it
/// happened, and keeps the menu's area and direction; so each tick counts
/// only the time since the tick before it, and two ticks advance an opening
/// menu by no more than the steps of their two intervals.
pub proof fn law_menu_ticks_count_time_once(m: EditorMenuState, t1: u64, t2: u64)
    ensures
        menu_ticked(Some(m), t1) matches Some(n) ==> n.last_tick_ms == t1 && n.area_id == m.area_id
            && n.opening == m.opening,
        m.opening && m.last_tick_ms <= t1 <= t2 ==> (menu_ticked(menu_ticked(Some(m), t1), t2) matches Some(n)
            && n.progress <= m.progress + menu_step((t1 - m.last_tick_ms) as u64) + menu_step((t2 - t1) as u64)),
{
}

/// The docking split puts its line where the drop is: the further towards
/// the far edge the drop lies, the larger the share of the first side, on
/// both sides of the centre; a drop at the near edge gives the new first
/// area the smallest share and a drop at the far edge leaves the new second
/// area the smallest share.
pub proof fn law_dock_ratio_follows_the_drop(p1: u32, p2: u32, first: bool)
    ensures
        p1 <= p2 ==> ratio_from_center(p1, first) <= ratio_from_center(p2, first),
        ratio_from_center(0, true) == MIN_RATIO,
        ratio_from_center(10000, false) == MAX_RATIO,
{
    assert(2800int * 3500 / 2800 == 3500) by (nonlinear_arith);
    assert(0int * 3500 / 2800 == 0) by (nonlinear_arith);
    if p1 <= p2 {
        if first {
            let t1: int = if p1 > 2800 { 2800 } else { p1 as int };
            let t2: int = if p2 > 2800 { 2800 } else { p2 as int };
            assert(t1 * 3500 / 2800 <= t2 * 3500 / 2800) by (nonlinear_arith) requires 0 <= t1 <= t2;
        } else {
            let t1: int = if p1 <= 7200 { 0 } else if p1 - 7200 > 2800 { 2800 } else { p1 - 7200 };
            let t2: int = if p2 <= 7200 { 0 } else if p2 - 7200 > 2800 { 2800 } else { p2 - 7200 };
            assert(t1 * 3500 / 2800 <= t2 * 3500 / 2800) by (nonlinear_arith) requires 0 <= t1 <= t2;
        }
    }
}

} // verus!
