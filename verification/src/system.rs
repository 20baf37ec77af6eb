//! The area system: a split layout of editor areas together with the state
//! of the interactions on it (corner drags that split or move areas, resize
//! drags on split handles, and the editor-type menu with its open and close
//! animation), driven by [`PanelSystemMessage`]s.

use vstd::prelude::*;
use crate::dock::{Area, CornerAction, DockNode, SplitDirection, HALF_RATIO, MAX_RATIO, MIN_RATIO, RATIO_SCALE};
use crate::geometry::{Point, Rect, Size};
use crate::layout::{
    lemma_path_of_leads_to_leaf, lemma_paths_diverge, lemma_replace_commutes, lemma_replace_twice,
    lemma_subtree_after_replace, can_join_recursive, cleanup_recursive, exchange_at_path, find_area_path, find_content_recursive,
    get_ratio_recursive, join_area_recursive, set_content_recursive, set_ratio_recursive,
    split_area_recursive,
};

verus! {

/// Length of the editor menu's open or close animation, in milliseconds.
pub const EDITOR_MENU_ANIM_MS: u64 = 140;

/// Longest step, in milliseconds, that one animation tick may advance the
/// menu by.
pub const EDITOR_MENU_MAX_STEP_MS: u64 = 50;

/// Smallest extent, in pixels, that a resize drag measures its travel
/// against.
pub const MIN_RESIZE_EXTENT: u32 = 100;

/// How far, in pixels, a corner must be dragged before it proposes a split.
pub const CORNER_DRAG_THRESHOLD: i64 = 24;

/// Half-width of the centre zone of a drop target, in ratio units; drops
/// inside it swap the two areas.
pub const MOVE_CENTER_ZONE: u32 = 2200;

/// Progress of a fully open editor menu.
pub const MENU_PROGRESS_FULL: u64 = 1000;

/// Editor kinds that an area can show.
pub trait AreaKind: Sized {
    /// Every kind that can be chosen.
    fn all() -> Vec<Self>;
}

/// The editor-type menu of one area and how far it has opened.
#[derive(Debug, Clone, Copy, PartialEq, Eq, Structural)]
pub struct EditorMenuState {
    /// The area whose menu this is.
    pub area_id: usize,
    /// `0` is fully closed, [`MENU_PROGRESS_FULL`] fully open.
    pub progress: u64,
    /// Whether the menu is opening (rather than closing).
    pub opening: bool,
    /// When the menu last advanced, in milliseconds on the caller's clock.
    pub last_tick_ms: u64,
}

/// The editor menu after a toggle on `area_id` at time `now`: the open menu
/// of that area turns around; any other state gives a freshly opening menu of
/// that area.
pub open spec fn menu_toggled(menu: Option<EditorMenuState>, area_id: usize, now: u64) -> Option<EditorMenuState> {
    match menu {
        Some(m) if m.area_id == area_id => Some(EditorMenuState { opening: !m.opening, last_tick_ms: now, ..m }),
        _ => Some(EditorMenuState { area_id, progress: 0, opening: true, last_tick_ms: now }),
    }
}

/// The editor menu after a request to close it at time `now`.
pub open spec fn menu_closing(menu: Option<EditorMenuState>, now: u64) -> Option<EditorMenuState> {
    match menu {
        Some(m) => Some(EditorMenuState { opening: false, last_tick_ms: now, ..m }),
        None => None,
    }
}

/// How far `elapsed` milliseconds move the menu animation: the elapsed time,
/// capped at [`EDITOR_MENU_MAX_STEP_MS`], as a share of the animation length.
pub open spec fn menu_step(elapsed: u64) -> u64 {
    let dt = if elapsed > EDITOR_MENU_MAX_STEP_MS { EDITOR_MENU_MAX_STEP_MS } else { elapsed };
    ((dt * MENU_PROGRESS_FULL) as nat / (EDITOR_MENU_ANIM_MS as nat)) as u64
}

/// The editor menu after an animation tick at time `now`: an opening menu
/// advances towards fully open, a closing one towards closed, and a menu that
/// has closed completely goes away. A clock reading before the last tick
/// counts as no time passed.
pub open spec fn menu_ticked(menu: Option<EditorMenuState>, now: u64) -> Option<EditorMenuState> {
    match menu {
        Some(m) => {
            let elapsed = if now >= m.last_tick_ms { (now - m.last_tick_ms) as u64 } else { 0 };
            let step = menu_step(elapsed);
            if m.opening {
                let p = if m.progress + step > MENU_PROGRESS_FULL { MENU_PROGRESS_FULL } else { (m.progress + step) as u64 };
                Some(EditorMenuState { progress: p, last_tick_ms: now, ..m })
            } else if m.progress <= step {
                None
            } else {
                Some(EditorMenuState { progress: (m.progress - step) as u64, last_tick_ms: now, ..m })
            }
        },
        None => None,
    }
}

/// The layout with the areas `a` and `b` in each other's place (`b`'s node
/// where `a`'s stood and the other way round); the layout itself when the ids
/// are equal or one of them is missing.
pub open spec fn swapped_layout<C>(t: DockNode<C>, a: usize, b: usize) -> DockNode<C> {
    if a == b || !t.has_area(a) || !t.has_area(b) {
        t
    } else {
        let pa = t.path_of(a).unwrap();
        let pb = t.path_of(b).unwrap();
        t.replace_at(pa, t.subtree_at(pb).unwrap()).replace_at(pb, t.subtree_at(pa).unwrap())
    }
}

/// `ratio` kept between [`MIN_RATIO`] and [`MAX_RATIO`].
pub open spec fn clamp_ratio(ratio: u32) -> u32 {
    if ratio < MIN_RATIO {
        MIN_RATIO
    } else if ratio > MAX_RATIO {
        MAX_RATIO
    } else {
        ratio
    }
}

/// `ratio` kept between [`MIN_RATIO`] and [`MAX_RATIO`].
pub fn clamp_ratio_exec(ratio: u32) -> (res: u32)
    ensures
        res == clamp_ratio(ratio),
{
    if ratio < MIN_RATIO {
        MIN_RATIO
    } else if ratio > MAX_RATIO {
        MAX_RATIO
    } else {
        ratio
    }
}

/// The rectangle of the node that `path` leads to, when the node `t` fills
/// `r`: each step into a split takes the first (`0`) or the second (any
/// other step) part of the split's rectangle, and the walk stops at the
/// first node that is not a split.
pub open spec fn bounds_along<C>(t: DockNode<C>, path: Seq<usize>, r: Rect) -> Rect
    decreases path.len(),
{
    if path.len() == 0 {
        r
    } else {
        match t {
            DockNode::Split { direction, ratio, first, second } => {
                let (a, b) = r.split_parts(direction, ratio);
                if path[0] == 0 {
                    bounds_along(*first, path.drop_first(), a)
                } else {
                    bounds_along(*second, path.drop_first(), b)
                }
            },
            _ => r,
        }
    }
}

/// The first area (depth-first) whose rectangle holds `p`, when the node `t`
/// fills `r`.
pub open spec fn area_at<C>(t: DockNode<C>, p: Point, r: Rect) -> Option<usize>
    decreases t,
{
    match t {
        DockNode::Leaf(area) => if r.spec_contains(p) { Some(area.id) } else { None },
        DockNode::Split { direction, ratio, first, second } => {
            let (a, b) = r.split_parts(direction, ratio);
            match area_at(*first, p, a) {
                Some(id) => Some(id),
                None => area_at(*second, p, b),
            }
        },
        DockNode::Empty => None,
    }
}

/// `num / den` rounded towards zero.
pub open spec fn div_toward_zero(num: int, den: int) -> int {
    if num >= 0 { num / den } else { -((-num) / den) }
}

/// `v` kept between [`MIN_RATIO`] and [`MAX_RATIO`].
pub open spec fn clamp_ratio_int(v: int) -> u32 {
    if v < MIN_RATIO { MIN_RATIO } else if v > MAX_RATIO { MAX_RATIO } else { v as u32 }
}

/// The ratio a resize drag gives a split: the start ratio moved by the
/// pointer's travel along the split axis as a share of the split's extent
/// (at least [`MIN_RESIZE_EXTENT`] pixels), kept between [`MIN_RATIO`] and
/// [`MAX_RATIO`].
pub open spec fn resized_ratio(extent: u32, travel: int, start_ratio: u32) -> u32 {
    let size = if extent < MIN_RESIZE_EXTENT { MIN_RESIZE_EXTENT } else { extent };
    clamp_ratio_int(start_ratio + div_toward_zero(travel * RATIO_SCALE, size as int))
}

/// Where `offset` falls along `len` pixels, in ratio units, kept between `0`
/// and [`RATIO_SCALE`].
pub open spec fn unit_position(offset: int, len: u32) -> u32 {
    if offset <= 0 {
        0
    } else if offset * RATIO_SCALE / (len as int) > RATIO_SCALE {
        RATIO_SCALE
    } else {
        (offset * RATIO_SCALE / (len as int)) as u32
    }
}

/// The ratio of a docking split for a drop at `pos` (in ratio units across
/// the target): drops towards the near edge give the new first side a share
/// from [`MIN_RATIO`] up to one half, drops towards the far edge give the
/// first side one half up to [`MAX_RATIO`], scaled over the part outside the
/// centre zone.
pub open spec fn ratio_from_center(pos: u32, new_is_first: bool) -> u32 {
    let boundary: int = HALF_RATIO - MOVE_CENTER_ZONE;
    if new_is_first {
        let t: int = if pos > boundary { boundary } else { pos as int };
        (MIN_RATIO + t * (HALF_RATIO - MIN_RATIO) / (boundary as int)) as u32
    } else {
        let far: int = HALF_RATIO + MOVE_CENTER_ZONE;
        let t: int = if pos <= far { 0 } else if pos - far > RATIO_SCALE - far { RATIO_SCALE - far } else { pos - far };
        (HALF_RATIO + t * (MAX_RATIO - HALF_RATIO) / ((RATIO_SCALE - far) as int)) as u32
    }
}

/// How a drop onto another area is laid out.
#[derive(Debug, Clone, Copy, PartialEq, Eq, Structural)]
pub enum DropLayout {
    /// A drop near the centre: the two areas swap places.
    FullMove,
    /// A drop away from the centre: the moved area docks on that side.
    Split { direction: SplitDirection, ratio: u32, new_is_first: bool },
}

/// The layout of a drop at `p` onto an area with rectangle `b`: no layout
/// when the area is at most one pixel wide or high; a full move inside the
/// centre zone; otherwise a split across the axis along which the drop lies
/// further from the centre, on the side of the drop.
pub open spec fn drop_layout(b: Rect, p: Point) -> Option<DropLayout> {
    if b.width <= 1 || b.height <= 1 {
        None
    } else {
        let rx = unit_position(p.x - b.x, b.width);
        let ry = unit_position(p.y - b.y, b.height);
        let dx: int = rx - HALF_RATIO;
        let dy: int = ry - HALF_RATIO;
        let adx = if dx < 0 { -dx } else { dx };
        let ady = if dy < 0 { -dy } else { dy };
        if adx < MOVE_CENTER_ZONE && ady < MOVE_CENTER_ZONE {
            Some(DropLayout::FullMove)
        } else if adx > ady {
            Some(DropLayout::Split { direction: SplitDirection::Horizontal, ratio: ratio_from_center(rx, dx < 0), new_is_first: dx < 0 })
        } else {
            Some(DropLayout::Split { direction: SplitDirection::Vertical, ratio: ratio_from_center(ry, dy < 0), new_is_first: dy < 0 })
        }
    }
}

/// The direction of the split that `action` makes; none for a move.
pub open spec fn action_direction(action: CornerAction) -> Option<SplitDirection> {
    match action {
        CornerAction::SplitHorizontal => Some(SplitDirection::Horizontal),
        CornerAction::SplitVertical => Some(SplitDirection::Vertical),
        CornerAction::Move => None,
    }
}

/// The ratio of a corner split of the area with rectangle `b` at pointer
/// position `p`: the pointer's position across the split axis, kept between
/// [`MIN_RATIO`] and [`MAX_RATIO`]; an even split for areas at most one pixel
/// across.
pub open spec fn corner_split_ratio(action: CornerAction, b: Rect, p: Point) -> u32 {
    match action {
        CornerAction::SplitHorizontal => if b.width > 1 {
            clamp_ratio_int(div_toward_zero((p.x - b.x) * RATIO_SCALE, b.width as int))
        } else {
            HALF_RATIO
        },
        CornerAction::SplitVertical => if b.height > 1 {
            clamp_ratio_int(div_toward_zero((p.y - b.y) * RATIO_SCALE, b.height as int))
        } else {
            HALF_RATIO
        },
        CornerAction::Move => HALF_RATIO,
    }
}

/// What a corner drag of the area `source` that started at `start` would do
/// with the pointer at `p`, in the layout `t` filling `window`. Over another
/// area with a drop layout, the source moves there; otherwise, once the
/// pointer has travelled more than [`CORNER_DRAG_THRESHOLD`] pixels up or to
/// the left, it splits the source across the axis of the longer travel.
pub open spec fn corner_update<C>(t: DockNode<C>, window: Rect, source: usize, start: Point, p: Point) -> CornerDragUpdate {
    let drop = match area_at(t, p, window) {
        Some(target) => if target != source {
            match t.path_of(target) {
                Some(path) => match drop_layout(bounds_along(t, path, window), p) {
                    Some(d) => Some((target, d)),
                    None => None,
                },
                None => None,
            }
        } else {
            None
        },
        None => None,
    };
    match drop {
        Some((target, DropLayout::FullMove)) => CornerDragUpdate {
            action: Some(CornerAction::Move), ratio: HALF_RATIO, target_area_id: Some(target), direction: None,
            new_is_first: false,
        },
        Some((target, DropLayout::Split { direction, ratio, new_is_first })) => CornerDragUpdate {
            action: Some(CornerAction::Move), ratio, target_area_id: Some(target), direction: Some(direction),
            new_is_first,
        },
        None => {
            let dx: int = p.x - start.x;
            let dy: int = p.y - start.y;
            if dx * dx + dy * dy <= CORNER_DRAG_THRESHOLD * CORNER_DRAG_THRESHOLD || (dx >= 0 && dy >= 0) {
                CornerDragUpdate::idle()
            } else {
                let adx = if dx < 0 { -dx } else { dx };
                let ady = if dy < 0 { -dy } else { dy };
                let action = if adx > ady { CornerAction::SplitHorizontal } else { CornerAction::SplitVertical };
                let ratio = match t.path_of(source) {
                    Some(path) => corner_split_ratio(action, bounds_along(t, path, window), p),
                    None => HALF_RATIO,
                };
                CornerDragUpdate {
                    action: Some(action), ratio, target_area_id: None, direction: action_direction(action), new_is_first: false,
                }
            }
        },
    }
}

/// The rectangle of the node that `path[start..]` leads to, when `node`
/// fills `r` (see [`bounds_along`]).
pub fn bounds_along_exec<C>(node: &DockNode<C>, path: &Vec<usize>, start: usize, r: Rect) -> (res: Rect)
    requires
        start <= path.len(),
        r.in_range(),
    ensures
        res == bounds_along(*node, path@.skip(start as int), r),
        res.in_range(),
    decreases path.len() - start,
{
    if start == path.len() {
        return r;
    }
    proof { assert(path@.skip(start as int).drop_first() =~= path@.skip(start + 1)); }
    match node {
        DockNode::Split { direction, ratio, first, second } => {
            let (a, b) = r.split(*direction, *ratio);
            if path[start] == 0 {
                bounds_along_exec(first, path, start + 1, a)
            } else {
                bounds_along_exec(second, path, start + 1, b)
            }
        },
        _ => r,
    }
}

/// The first area (depth-first) whose rectangle holds `pos`, when `node`
/// fills `bounds`.
pub fn find_area_at_point<C>(node: &DockNode<C>, pos: Point, bounds: Rect) -> (res: Option<usize>)
    requires
        bounds.in_range(),
    ensures
        res == area_at(*node, pos, bounds),
    decreases node,
{
    match node {
        DockNode::Leaf(area) => {
            if bounds.contains(pos) {
                Some(area.id)
            } else {
                None
            }
        },
        DockNode::Split { direction, ratio, first, second } => {
            let (a, b) = bounds.split(*direction, *ratio);
            match find_area_at_point(first, pos, a) {
                Some(id) => Some(id),
                None => find_area_at_point(second, pos, b),
            }
        },
        DockNode::Empty => None,
    }
}

/// `num / den` rounded towards zero.
fn div_toward_zero_exec(num: i64, den: u32) -> (res: i64)
    requires
        den > 0,
        num > i64::MIN,
    ensures
        res == div_toward_zero(num as int, den as int),
{
    if num >= 0 {
        num / (den as i64)
    } else {
        -((-num) / (den as i64))
    }
}

/// `v` kept between [`MIN_RATIO`] and [`MAX_RATIO`].
fn clamp_ratio_i64(v: i64) -> (res: u32)
    ensures
        res == clamp_ratio_int(v as int),
{
    if v < MIN_RATIO as i64 {
        MIN_RATIO
    } else if v > MAX_RATIO as i64 {
        MAX_RATIO
    } else {
        v as u32
    }
}

/// Where `offset` falls along `len` pixels, in ratio units (see
/// [`unit_position`]).
fn unit_position_exec(offset: i64, len: u32) -> (res: u32)
    requires
        len > 0,
        -0x2_0000_0000 <= offset <= 0x2_0000_0000,
    ensures
        res == unit_position(offset as int, len),
        res <= RATIO_SCALE,
{
    if offset <= 0 {
        0
    } else {
        assert(0 < offset * 10000 <= 0x2_0000_0000 * 10000) by (nonlinear_arith)
            requires 0 < offset <= 0x2_0000_0000;
        let v = offset * (RATIO_SCALE as i64) / (len as i64);
        if v > RATIO_SCALE as i64 {
            RATIO_SCALE
        } else {
            v as u32
        }
    }
}

/// The ratio of a docking split for a drop at `pos` (see
/// [`ratio_from_center`]).
pub fn ratio_from_center_exec(pos: u32, new_is_first: bool) -> (res: u32)
    ensures
        res == ratio_from_center(pos, new_is_first),
        MIN_RATIO <= res <= MAX_RATIO,
        new_is_first ==> res <= HALF_RATIO,
        !new_is_first ==> res >= HALF_RATIO,
{
    let boundary: u32 = HALF_RATIO - MOVE_CENTER_ZONE;
    if new_is_first {
        let t: u32 = if pos > boundary { boundary } else { pos };
        assert(t * 3500 <= 2800 * 3500) by (nonlinear_arith) requires t <= 2800;
        assert(t * 3500 / 2800 <= 3500) by (nonlinear_arith) requires t <= 2800;
        MIN_RATIO + t * (HALF_RATIO - MIN_RATIO) / boundary
    } else {
        let far: u32 = HALF_RATIO + MOVE_CENTER_ZONE;
        let t: u32 = if pos <= far { 0 } else if pos - far > RATIO_SCALE - far { RATIO_SCALE - far } else { pos - far };
        assert(t * 3500 <= 2800 * 3500) by (nonlinear_arith) requires t <= 2800;
        assert(t * 3500 / 2800 <= 3500) by (nonlinear_arith) requires t <= 2800;
        HALF_RATIO + t * (MAX_RATIO - HALF_RATIO) / (RATIO_SCALE - far)
    }
}

/// The layout of a drop at `p` onto an area with rectangle `b` (see
/// [`drop_layout`]).
pub fn drop_layout_exec(b: Rect, p: Point) -> (res: Option<DropLayout>)
    requires
        b.in_range(),
    ensures
        res == drop_layout(b, p),
{
    if b.width <= 1 || b.height <= 1 {
        return None;
    }
    let rx = unit_position_exec(p.x as i64 - b.x, b.width);
    let ry = unit_position_exec(p.y as i64 - b.y, b.height);
    let dx: i64 = rx as i64 - HALF_RATIO as i64;
    let dy: i64 = ry as i64 - HALF_RATIO as i64;
    let adx = if dx < 0 { -dx } else { dx };
    let ady = if dy < 0 { -dy } else { dy };
    if adx < MOVE_CENTER_ZONE as i64 && ady < MOVE_CENTER_ZONE as i64 {
        Some(DropLayout::FullMove)
    } else if adx > ady {
        Some(DropLayout::Split { direction: SplitDirection::Horizontal, ratio: ratio_from_center_exec(rx, dx < 0), new_is_first: dx < 0 })
    } else {
        Some(DropLayout::Split { direction: SplitDirection::Vertical, ratio: ratio_from_center_exec(ry, dy < 0), new_is_first: dy < 0 })
    }
}

/// The ratio of a corner split (see [`corner_split_ratio`]).
fn corner_split_ratio_exec(action: CornerAction, b: Rect, p: Point) -> (res: u32)
    requires
        b.in_range(),
    ensures
        res == corner_split_ratio(action, b, p),
{
    match action {
        CornerAction::SplitHorizontal => if b.width > 1 {
            div_ratio(p.x as i64 - b.x, b.width)
        } else {
            HALF_RATIO
        },
        CornerAction::SplitVertical => if b.height > 1 {
            div_ratio(p.y as i64 - b.y, b.height)
        } else {
            HALF_RATIO
        },
        CornerAction::Move => HALF_RATIO,
    }
}

/// `offset` as a share of `len`, in ratio units, kept between [`MIN_RATIO`]
/// and [`MAX_RATIO`].
fn div_ratio(offset: i64, len: u32) -> (res: u32)
    requires
        len > 0,
        -0x2_0000_0000 <= offset <= 0x2_0000_0000,
    ensures
        res == clamp_ratio_int(div_toward_zero(offset * RATIO_SCALE, len as int)),
{
    assert(-0x2_0000_0000 * 10000 <= offset * 10000 <= 0x2_0000_0000 * 10000) by (nonlinear_arith)
        requires -0x2_0000_0000 <= offset <= 0x2_0000_0000;
    let v = div_toward_zero_exec(offset * (RATIO_SCALE as i64), len);
    clamp_ratio_i64(v)
}

/// `t2` with next id `next2` is what splitting the area `id` of `t` (next id
/// `next`) gives: nothing changes when no area has that id; otherwise a new
/// area with id `next`, showing a copy of the area's content, joins it in a
/// split of `direction` and the clamped `ratio`, and the next id moves on.
pub open spec fn split_result<C: Clone>(
    t: DockNode<C>, next: usize, id: usize, direction: SplitDirection, ratio: u32, new_is_first: bool,
    t2: DockNode<C>, next2: usize,
) -> bool {
    &&& !t.has_area(id) ==> t2 == t && next2 == next
    &&& t.has_area(id) ==> next2 == next + 1 && exists|c: C| #[trigger] cloned(t.content_of(id).unwrap(), c)
        && t2 == t.split_leaf(id, Area { id: next, content: c }, direction, clamp_ratio(ratio), new_is_first)
}

/// `t2` with next id `next2` is what moving the area `source` of `t` (next
/// id `next`) next to the area `target` gives: nothing changes when the ids
/// are equal or the source is missing; otherwise a new area with id `next`,
/// showing a copy of the source's content, splits the target, the source is
/// joined into its sibling, the layout is tidied and the next id moves on.
pub open spec fn move_result<C: Clone>(
    t: DockNode<C>, next: usize, source: usize, target: usize, direction: SplitDirection, ratio: u32,
    new_is_first: bool, t2: DockNode<C>, next2: usize,
) -> bool {
    &&& (source == target || !t.has_area(source)) ==> t2 == t && next2 == next
    &&& (source != target && t.has_area(source)) ==> next2 == next + 1 && exists|c: C| #[trigger] cloned(t.content_of(source).unwrap(), c)
        && t2 == t.split_leaf(target, Area { id: next, content: c }, direction, clamp_ratio(ratio), new_is_first).joined(source).cleaned()
}

/// The ratio a resize drag gives the split at `path` of `t` filling
/// `window` (see [`resized_ratio`]), measured along `direction`.
pub open spec fn new_resize_ratio<C>(
    t: DockNode<C>, window: Rect, path: Seq<usize>, start: Point, current: Point, start_ratio: u32, direction: SplitDirection,
) -> u32 {
    let region = bounds_along(t, path, window);
    match direction {
        SplitDirection::Horizontal => resized_ratio(region.width, current.x - start.x, start_ratio),
        SplitDirection::Vertical => resized_ratio(region.height, current.y - start.y, start_ratio),
    }
}

/// `t2` with next id `next2` is what releasing the drag `drag` on `t` (next
/// id `next`) gives: a corner drag whose action is a move onto another area
/// moves the dragged area there (docking it in a split, or swapping the two
/// when no split direction was chosen); a corner drag whose action is a
/// split splits the dragged area, the new area second; anything else
/// changes nothing.
pub open spec fn corner_drag_end_result<C: Clone>(t: DockNode<C>, next: usize, drag: DragState, t2: DockNode<C>, next2: usize) -> bool {
    match drag {
        DragState::CornerDrag { area_id, update, .. } => match update.action {
            Some(CornerAction::Move) => match update.target_area_id {
                Some(target) => match update.direction {
                    Some(direction) => move_result(t, next, area_id, target, direction, update.ratio, update.new_is_first, t2, next2),
                    None => t2 == swapped_layout(t, area_id, target) && next2 == next,
                },
                None => t2 == t && next2 == next,
            },
            Some(action) => match action_direction(action) {
                Some(direction) => split_result(t, next, area_id, direction, update.ratio, false, t2, next2),
                None => t2 == t && next2 == next,
            },
            None => t2 == t && next2 == next,
        },
        _ => t2 == t && next2 == next,
    }
}

/// `t` is the system `s` after handling `message` at time `now` (in
/// milliseconds on the caller's clock).
pub open spec fn updated<C: Clone, M>(s: PanelSystem<C>, t: PanelSystem<C>, message: PanelSystemMessage<C, M>, now: u64) -> bool {
    match message {
        PanelSystemMessage::ChangeEditor(id, content) => {
            &&& t.layout() == s.layout().with_content(id, content)
            &&& t.next_id() == s.next_id()
            &&& t.menu() == menu_closing(s.menu(), now)
            &&& t.drag() == s.drag() && t.mouse() == s.mouse() && t.window() == s.window()
            &&& t.hovered_handle() == s.hovered_handle()
        },
        PanelSystemMessage::ToggleEditorMenu(id) => {
            &&& t.menu() == menu_toggled(s.menu(), id, now)
            &&& t.layout() == s.layout() && t.next_id() == s.next_id()
            &&& t.drag() == s.drag() && t.mouse() == s.mouse() && t.window() == s.window()
            &&& t.hovered_handle() == s.hovered_handle()
        },
        PanelSystemMessage::CloseEditorMenu => {
            &&& t.menu() == menu_closing(s.menu(), now)
            &&& t.layout() == s.layout() && t.next_id() == s.next_id()
            &&& t.drag() == s.drag() && t.mouse() == s.mouse() && t.window() == s.window()
            &&& t.hovered_handle() == s.hovered_handle()
        },
        PanelSystemMessage::AnimTick => {
            &&& t.menu() == menu_ticked(s.menu(), now)
            &&& t.layout() == s.layout() && t.next_id() == s.next_id()
            &&& t.drag() == s.drag() && t.mouse() == s.mouse() && t.window() == s.window()
            &&& t.hovered_handle() == s.hovered_handle()
        },
        PanelSystemMessage::CornerDragStart(id) => {
            &&& t.drag() == (DragState::CornerDrag { area_id: id, start_pos: s.mouse(), current_pos: s.mouse(), update: CornerDragUpdate::idle() })
            &&& t.layout() == s.layout() && t.next_id() == s.next_id()
            &&& t.mouse() == s.mouse() && t.window() == s.window()
            &&& t.hovered_handle() == s.hovered_handle() && t.menu() == s.menu()
        },
        PanelSystemMessage::MouseMove(pos) => {
            &&& t.mouse() == pos
            &&& t.next_id() == s.next_id() && t.window() == s.window()
            &&& t.hovered_handle() == s.hovered_handle() && t.menu() == s.menu()
            &&& match s.drag() {
                DragState::CornerDrag { area_id, start_pos, .. } => {
                    &&& t.drag() == (DragState::CornerDrag {
                        area_id,
                        start_pos,
                        current_pos: pos,
                        update: corner_update(s.layout(), s.window_rect(), area_id, start_pos, pos),
                    })
                    &&& t.layout() == s.layout()
                },
                DragState::Resizing { path, direction, start_pos, start_ratio, .. } => {
                    &&& t.layout() == s.layout().with_ratio_at(
                        path@,
                        new_resize_ratio(s.layout(), s.window_rect(), path@, start_pos, pos, start_ratio, direction),
                    )
                    &&& t.drag() == (DragState::Resizing { path, direction, start_pos, current_pos: pos, start_ratio })
                },
                DragState::Idle => t.drag() == s.drag() && t.layout() == s.layout(),
            }
        },
        PanelSystemMessage::CornerDragEnd => {
            &&& t.drag() is Idle
            &&& corner_drag_end_result(s.layout(), s.next_id(), s.drag(), t.layout(), t.next_id())
            &&& t.mouse() == s.mouse() && t.window() == s.window()
            &&& t.hovered_handle() == s.hovered_handle() && t.menu() == s.menu()
        },
        PanelSystemMessage::JoinArea(id) => {
            &&& t.layout() == s.layout().joined(id).cleaned()
            &&& t.next_id() == s.next_id()
            &&& t.menu() == menu_closing(s.menu(), now)
            &&& t.drag() == s.drag() && t.mouse() == s.mouse() && t.window() == s.window()
            &&& t.hovered_handle() == s.hovered_handle()
        },
        PanelSystemMessage::ResizeStart(path, direction) => {
            &&& match s.layout().ratio_at(path@) {
                Some(r) => t.drag() == (DragState::Resizing {
                    path, direction, start_pos: s.mouse(), current_pos: s.mouse(), start_ratio: r,
                }),
                None => t.drag() == s.drag(),
            }
            &&& t.layout() == s.layout() && t.next_id() == s.next_id()
            &&& t.mouse() == s.mouse() && t.window() == s.window()
            &&& t.hovered_handle() == s.hovered_handle() && t.menu() == s.menu()
        },
        PanelSystemMessage::ResizeEnd => {
            &&& t.drag() is Idle
            &&& t.layout() == s.layout() && t.next_id() == s.next_id()
            &&& t.mouse() == s.mouse() && t.window() == s.window()
            &&& t.hovered_handle() == s.hovered_handle() && t.menu() == s.menu()
        },
        PanelSystemMessage::ResizeHandleHover(handle) => {
            &&& t.hovered_handle() == (if s.drag() is Resizing { s.hovered_handle() } else { handle })
            &&& t.layout() == s.layout() && t.next_id() == s.next_id()
            &&& t.drag() == s.drag() && t.mouse() == s.mouse() && t.window() == s.window()
            &&& t.menu() == s.menu()
        },
        PanelSystemMessage::WindowResized(size) => {
            &&& t.window() == size
            &&& t.layout() == s.layout() && t.next_id() == s.next_id()
            &&& t.drag() == s.drag() && t.mouse() == s.mouse()
            &&& t.hovered_handle() == s.hovered_handle() && t.menu() == s.menu()
        },
        PanelSystemMessage::AppMessage(_) => {
            &&& t.layout() == s.layout() && t.next_id() == s.next_id()
            &&& t.same_interaction(&s)
        },
    }
}

/// What a corner drag would do if released now.
#[derive(Debug, Clone, Copy, PartialEq, Eq, Structural)]
pub struct CornerDragUpdate {
    /// What releasing would do: a split of the dragged area, or a move.
    pub action: Option<CornerAction>,
    /// Share of the first side of the new split.
    pub ratio: u32,
    /// The area that the dragged area would move onto.
    pub target_area_id: Option<usize>,
    /// Direction of the split that releasing would make; for a move, `None`
    /// means the two areas swap places.
    pub direction: Option<SplitDirection>,
    /// Whether the moved area would become the first side of the split.
    pub new_is_first: bool,
}

impl CornerDragUpdate {
    /// A drag that would do nothing.
    pub fn none() -> (res: Self)
        ensures
            res == CornerDragUpdate::idle(),
    {
        CornerDragUpdate { action: None, ratio: HALF_RATIO, target_area_id: None, direction: None, new_is_first: false }
    }

    /// The drag that would do nothing.
    pub open spec fn idle() -> Self {
        CornerDragUpdate { action: None, ratio: HALF_RATIO, target_area_id: None, direction: None, new_is_first: false }
    }
}

/// The drag in progress.
#[derive(Debug)]
pub enum DragState {
    /// Nothing is being dragged.
    Idle,
    /// A split handle is being dragged.
    Resizing {
        path: Vec<usize>,
        direction: SplitDirection,
        start_pos: Point,
        current_pos: Point,
        start_ratio: u32,
    },
    /// The corner of an area is being dragged.
    CornerDrag {
        area_id: usize,
        start_pos: Point,
        current_pos: Point,
        update: CornerDragUpdate,
    },
}

impl DragState {
    /// The split that releasing a corner drag would make: the dragged area,
    /// the split and its ratio.
    pub fn corner_preview(&self) -> (res: Option<(usize, CornerAction, u32)>)
        ensures
            res == (match self {
                DragState::CornerDrag { area_id, update, .. } => match update.action {
                    Some(action) => Some((*area_id, action, update.ratio)),
                    None => None,
                },
                _ => None,
            }),
    {
        match self {
            DragState::CornerDrag { area_id, update, .. } => match update.action {
                Some(action) => Some((*area_id, action, update.ratio)),
                None => None,
            },
            _ => None,
        }
    }
}

/// The preview that an area shows during a corner drag.
#[derive(Debug, Clone, Copy, PartialEq, Eq, Structural)]
pub enum AreaPreview {
    /// The dragged area would dock on this area, in a split of `direction`
    /// and `ratio`, as its first side when `new_is_first`.
    Dock { direction: SplitDirection, ratio: u32, new_is_first: bool },
    /// The dragged area and this one would swap places.
    FullMove,
    /// This area is the one being moved away.
    MoveSource,
    /// This area, the one dragged, would be split by `action` at `ratio`.
    Split { action: CornerAction, ratio: u32 },
}

/// The preview that the area `area_id` shows during the drag `drag`: the
/// target of a move shows where the moved area would go, the source of a
/// move shows that it moves away, the source of a split shows the split;
/// every other area, and every area outside a corner drag, shows none.
pub open spec fn area_preview_of(drag: DragState, area_id: usize) -> Option<AreaPreview> {
    match drag {
        DragState::CornerDrag { area_id: source, update, .. } => match update.action {
            Some(CornerAction::Move) => if update.target_area_id == Some(area_id) {
                match update.direction {
                    Some(direction) => Some(AreaPreview::Dock { direction, ratio: update.ratio, new_is_first: update.new_is_first }),
                    None => Some(AreaPreview::FullMove),
                }
            } else if source == area_id {
                Some(AreaPreview::MoveSource)
            } else {
                None
            },
            Some(action) => if source == area_id {
                Some(AreaPreview::Split { action, ratio: update.ratio })
            } else {
                None
            },
            None => None,
        },
        _ => None,
    }
}

impl DragState {
    /// The preview that the area `area_id` shows (see [`area_preview_of`]).
    pub fn area_preview(&self, area_id: usize) -> (res: Option<AreaPreview>)
        ensures
            res == area_preview_of(*self, area_id),
    {
        match self {
            DragState::CornerDrag { area_id: source, update, .. } => match update.action {
                Some(CornerAction::Move) => if update.target_area_id == Some(area_id) {
                    match update.direction {
                        Some(direction) => Some(AreaPreview::Dock {
                            direction,
                            ratio: update.ratio,
                            new_is_first: update.new_is_first,
                        }),
                        None => Some(AreaPreview::FullMove),
                    }
                } else if *source == area_id {
                    Some(AreaPreview::MoveSource)
                } else {
                    None
                },
                Some(action) => if *source == area_id {
                    Some(AreaPreview::Split { action, ratio: update.ratio })
                } else {
                    None
                },
                None => None,
            },
            _ => None,
        }
    }
}

/// Messages that drive the area system. `M` carries messages of the
/// application that the system passes by.
#[derive(Debug)]
pub enum PanelSystemMessage<C, M> {
    /// Show the editor kind `C` in the area.
    ChangeEditor(usize, C),
    /// Open or close the editor menu of the area.
    ToggleEditorMenu(usize),
    /// Close the editor menu.
    CloseEditorMenu,
    /// Advance the editor menu animation.
    AnimTick,
    /// Start dragging the corner of the area.
    CornerDragStart(usize),
    /// The pointer moved.
    MouseMove(Point),
    /// Release the corner drag.
    CornerDragEnd,
    /// Remove the area and give its place to its sibling.
    JoinArea(usize),
    /// Start dragging the handle of the split at the path.
    ResizeStart(Vec<usize>, SplitDirection),
    /// Release the split handle.
    ResizeEnd,
    /// The pointer entered or left a split handle.
    ResizeHandleHover(Option<(Vec<usize>, SplitDirection)>),
    /// The window got a new size.
    WindowResized(Size),
    /// A message of the application.
    AppMessage(M),
}

/// A split layout of editor areas and the interactions on it.
#[derive(Debug)]
pub struct PanelSystem<C> {
    root: DockNode<C>,
    next_area_id: usize,
    drag_state: DragState,
    last_mouse_pos: Point,
    window_size: Size,
    hover_resize_handle: Option<(Vec<usize>, SplitDirection)>,
    editor_menu: Option<EditorMenuState>,
}

impl<C> PanelSystem<C> {
    /// The layout.
    pub closed spec fn layout(&self) -> DockNode<C> {
        self.root
    }

    /// The id the next new area will get.
    pub closed spec fn next_id(&self) -> usize {
        self.next_area_id
    }

    /// The drag in progress.
    pub closed spec fn drag(&self) -> DragState {
        self.drag_state
    }

    /// Where the pointer was last seen.
    pub closed spec fn mouse(&self) -> Point {
        self.last_mouse_pos
    }

    /// The size of the window.
    pub closed spec fn window(&self) -> Size {
        self.window_size
    }

    /// The split handle under the pointer.
    pub closed spec fn hovered_handle(&self) -> Option<(Vec<usize>, SplitDirection)> {
        self.hover_resize_handle
    }

    /// The editor menu.
    pub closed spec fn menu(&self) -> Option<EditorMenuState> {
        self.editor_menu
    }

    /// The whole window as a rectangle.
    pub open spec fn window_rect(&self) -> Rect {
        Rect { x: 0, y: 0, width: self.window().width, height: self.window().height }
    }

    /// An empty layout in an 800 by 600 window, with nothing dragged and no
    /// menu open.
    pub fn new() -> (res: Self)
        ensures
            res.layout() is Empty,
            res.next_id() == 0,
            res.drag() == DragState::Idle,
            res.mouse() == (Point { x: 0, y: 0 }),
            res.window() == (Size { width: 800, height: 600 }),
            res.hovered_handle().is_none(),
            res.menu().is_none(),
    {
        PanelSystem {
            root: DockNode::Empty,
            next_area_id: 0,
            drag_state: DragState::Idle,
            last_mouse_pos: Point { x: 0, y: 0 },
            window_size: Size { width: 800, height: 600 },
            hover_resize_handle: None,
            editor_menu: None,
        }
    }

    /// The system with `layout` as its layout.
    pub fn with_layout(self, layout: DockNode<C>) -> (res: Self)
        ensures
            res.layout() == layout,
            res.next_id() == self.next_id(),
            res.drag() == self.drag(),
            res.mouse() == self.mouse(),
            res.window() == self.window(),
            res.hovered_handle() == self.hovered_handle(),
            res.menu() == self.menu(),
    {
        let mut s = self;
        s.root = layout;
        s
    }

    /// The system with `next_area_id` as the id of the next new area.
    pub fn with_ids(self, next_area_id: usize) -> (res: Self)
        ensures
            res.layout() == self.layout(),
            res.next_id() == next_area_id,
            res.drag() == self.drag(),
            res.mouse() == self.mouse(),
            res.window() == self.window(),
            res.hovered_handle() == self.hovered_handle(),
            res.menu() == self.menu(),
    {
        let mut s = self;
        s.next_area_id = next_area_id;
        s
    }

    /// The layout.
    pub fn root(&self) -> (res: &DockNode<C>)
        ensures
            *res == self.layout(),
    {
        &self.root
    }

    /// The layout, for editing in place.
    pub fn root_mut(&mut self) -> (res: &mut DockNode<C>)
        ensures
            *res == old(self).layout(),
            final(self).layout() == *final(res),
            final(self).next_id() == old(self).next_id(),
            final(self).same_interaction(old(self)),
    {
        &mut self.root
    }

    /// The drag in progress.
    pub fn drag_state(&self) -> (res: &DragState)
        ensures
            *res == self.drag(),
    {
        &self.drag_state
    }

    /// The id the next new area will get.
    pub fn next_area_id(&self) -> (res: usize)
        ensures
            res == self.next_id(),
    {
        self.next_area_id
    }

    /// The size of the window.
    pub fn window_size(&self) -> (res: Size)
        ensures
            res == self.window(),
    {
        self.window_size
    }

    /// Where the pointer was last seen.
    pub fn last_mouse_pos(&self) -> (res: Point)
        ensures
            res == self.mouse(),
    {
        self.last_mouse_pos
    }

    /// The split handle under the pointer.
    pub fn hover_resize_handle(&self) -> (res: &Option<(Vec<usize>, SplitDirection)>)
        ensures
            *res == self.hovered_handle(),
    {
        &self.hover_resize_handle
    }

    /// The editor menu.
    pub fn editor_menu(&self) -> (res: Option<EditorMenuState>)
        ensures
            res == self.menu(),
    {
        self.editor_menu
    }

    /// Toggles the editor menu of `area_id` at time `now`.
    fn open_editor_menu(&mut self, area_id: usize, now: u64)
        ensures
            final(self).menu() == menu_toggled(old(self).menu(), area_id, now),
            final(self).layout() == old(self).layout(),
            final(self).next_id() == old(self).next_id(),
            final(self).drag() == old(self).drag(),
            final(self).mouse() == old(self).mouse(),
            final(self).window() == old(self).window(),
            final(self).hovered_handle() == old(self).hovered_handle(),
    {
        if let Some(menu) = self.editor_menu {
            if menu.area_id == area_id {
                self.editor_menu = Some(EditorMenuState { opening: !menu.opening, last_tick_ms: now, ..menu });
                return;
            }
        }
        self.editor_menu = Some(EditorMenuState { area_id, progress: 0, opening: true, last_tick_ms: now });
    }

    /// Starts closing the editor menu at time `now`.
    fn close_editor_menu(&mut self, now: u64)
        ensures
            final(self).menu() == menu_closing(old(self).menu(), now),
            final(self).layout() == old(self).layout(),
            final(self).next_id() == old(self).next_id(),
            final(self).drag() == old(self).drag(),
            final(self).mouse() == old(self).mouse(),
            final(self).window() == old(self).window(),
            final(self).hovered_handle() == old(self).hovered_handle(),
    {
        if let Some(menu) = self.editor_menu {
            self.editor_menu = Some(EditorMenuState { opening: false, last_tick_ms: now, ..menu });
        }
    }

    /// Advances the editor menu animation to time `now`.
    fn tick_editor_menu(&mut self, now: u64)
        ensures
            final(self).menu() == menu_ticked(old(self).menu(), now),
            final(self).layout() == old(self).layout(),
            final(self).next_id() == old(self).next_id(),
            final(self).drag() == old(self).drag(),
            final(self).mouse() == old(self).mouse(),
            final(self).window() == old(self).window(),
            final(self).hovered_handle() == old(self).hovered_handle(),
    {
        let Some(menu) = self.editor_menu else {
            return;
        };
        let elapsed = if now >= menu.last_tick_ms { now - menu.last_tick_ms } else { 0 };
        let dt = if elapsed > EDITOR_MENU_MAX_STEP_MS { EDITOR_MENU_MAX_STEP_MS } else { elapsed };
        let step = dt * MENU_PROGRESS_FULL / EDITOR_MENU_ANIM_MS;
        assert(step == menu_step(elapsed));
        if menu.opening {
            let p = if menu.progress >= MENU_PROGRESS_FULL || MENU_PROGRESS_FULL - menu.progress < step {
                MENU_PROGRESS_FULL
            } else {
                menu.progress + step
            };
            self.editor_menu = Some(EditorMenuState { progress: p, last_tick_ms: now, ..menu });
        } else if menu.progress <= step {
            self.editor_menu = None;
        } else {
            self.editor_menu = Some(EditorMenuState { progress: menu.progress - step, last_tick_ms: now, ..menu });
        }
    }

    /// Area ids are unique and below the next id, and every split shows
    /// areas on both sides.
    pub open spec fn well_formed(&self) -> bool {
        &&& self.layout().ids_unique()
        &&& self.layout().is_compact()
        &&& forall|x: usize| #[trigger] self.layout().has_area(x) ==> x < self.next_id()
    }

    /// The two systems agree on everything but the layout and the next id.
    pub open spec fn same_interaction(&self, other: &Self) -> bool {
        &&& self.drag() == other.drag()
        &&& self.mouse() == other.mouse()
        &&& self.window() == other.window()
        &&& self.hovered_handle() == other.hovered_handle()
        &&& self.menu() == other.menu()
    }

    /// Takes the layout out, leaving an empty one behind.
    fn take_root(&mut self) -> (res: DockNode<C>)
        ensures
            res == old(self).layout(),
            final(self).layout() is Empty,
            final(self).next_id() == old(self).next_id(),
            final(self).same_interaction(old(self)),
    {
        let mut root = DockNode::Empty;
        std::mem::swap(&mut root, &mut self.root);
        root
    }

    /// Shows `content` in the first area with id `area_id`.
    fn set_area_content(&mut self, area_id: usize, content: C)
        ensures
            final(self).layout() == old(self).layout().with_content(area_id, content),
            final(self).next_id() == old(self).next_id(),
            final(self).same_interaction(old(self)),
    {
        let root = self.take_root();
        let (root, _) = set_content_recursive(root, area_id, content);
        self.root = root;
    }

    /// Whether the area with id `area_id` sits next to a sibling it can be
    /// joined into.
    pub fn area_has_sibling(&self, area_id: usize) -> (res: bool)
        ensures
            res == self.layout().can_join(area_id),
    {
        can_join_recursive(&self.root, area_id)
    }

    /// The route from the root to the area with id `area_id`.
    fn area_path(&self, area_id: usize) -> (res: Option<Vec<usize>>)
        ensures
            res is Some == self.layout().has_area(area_id),
            res matches Some(p) ==> p@ == self.layout().path_of(area_id).unwrap(),
    {
        let mut path = Vec::new();
        if find_area_path(&self.root, area_id, &mut path) {
            proof { assert(Seq::<usize>::empty() + self.layout().path_of(area_id).unwrap() =~= self.layout().path_of(area_id).unwrap()); }
            Some(path)
        } else {
            None
        }
    }

    /// The ratio of the split at `path`.
    fn get_ratio_at_path(&self, path: &Vec<usize>) -> (res: Option<u32>)
        ensures
            res == self.layout().ratio_at(path@),
    {
        proof { assert(path@.skip(0) =~= path@); }
        get_ratio_recursive(&self.root, path, 0)
    }

    /// Sets the ratio of the split at `path`.
    fn set_ratio_at_path(&mut self, path: &Vec<usize>, new_ratio: u32)
        ensures
            final(self).layout() == old(self).layout().with_ratio_at(path@, new_ratio),
            final(self).next_id() == old(self).next_id(),
            final(self).same_interaction(old(self)),
    {
        proof { assert(path@.skip(0) =~= path@); }
        let root = self.take_root();
        self.root = set_ratio_recursive(root, path, 0, new_ratio);
    }

    /// Removes the area with id `area_id`, giving its place to its sibling,
    /// and then tidies up splits left with one side showing nothing.
    fn join_area(&mut self, area_id: usize)
        ensures
            final(self).layout() == old(self).layout().joined(area_id).cleaned(),
            final(self).next_id() == old(self).next_id(),
            final(self).same_interaction(old(self)),
    {
        let root = self.take_root();
        let (root, _) = join_area_recursive(root, area_id);
        self.root = cleanup_recursive(root);
    }

    /// Exchanges the places of the areas with ids `a_id` and `b_id`; does
    /// nothing when the ids are equal or one of them is missing.
    fn swap_areas(&mut self, a_id: usize, b_id: usize)
        ensures
            final(self).layout() == swapped_layout(old(self).layout(), a_id, b_id),
            final(self).next_id() == old(self).next_id(),
            final(self).same_interaction(old(self)),
    {
        if a_id == b_id {
            return;
        }
        let Some(path_a) = self.area_path(a_id) else {
            return;
        };
        let Some(path_b) = self.area_path(b_id) else {
            return;
        };
        let ghost t = self.root;
        proof {
            assert(path_a@.skip(0) =~= path_a@);
            assert(path_b@.skip(0) =~= path_b@);
            lemma_paths_diverge(t, a_id, b_id);
            lemma_path_of_leads_to_leaf(t, a_id);
            lemma_path_of_leads_to_leaf(t, b_id);
        }
        let root = self.take_root();
        let (root, area_a) = exchange_at_path(root, &path_a, 0, DockNode::Empty);
        proof { lemma_subtree_after_replace(t, path_a@, path_b@, DockNode::Empty); }
        let (root, area_b) = exchange_at_path(root, &path_b, 0, area_a);
        let ghost t2 = root;
        let (root, _) = exchange_at_path(root, &path_a, 0, area_b);
        proof {
            lemma_replace_commutes(t.replace_at(path_a@, DockNode::Empty), path_a@, path_b@,
                t.subtree_at(path_b@).unwrap(), t.subtree_at(path_a@).unwrap());
            lemma_replace_twice(t, path_a@, DockNode::Empty, t.subtree_at(path_b@).unwrap());
        }
        self.root = root;
    }

    /// The rectangle of the node at `path`, with the layout filling the
    /// window.
    fn bounds_at_path(&self, path: &Vec<usize>) -> (res: Rect)
        ensures
            res == bounds_along(self.layout(), path@, self.window_rect()),
            res.in_range(),
    {
        proof { assert(path@.skip(0) =~= path@); }
        let window = Rect { x: 0, y: 0, width: self.window_size.width, height: self.window_size.height };
        bounds_along_exec(&self.root, path, 0, window)
    }

    /// The size of the node at `path`, with the layout filling the window.
    fn size_at_path(&self, path: &Vec<usize>) -> (res: Size)
        ensures
            res.width == bounds_along(self.layout(), path@, self.window_rect()).width,
            res.height == bounds_along(self.layout(), path@, self.window_rect()).height,
    {
        let b = self.bounds_at_path(path);
        Size { width: b.width, height: b.height }
    }

    /// The area under `pos`.
    fn area_at_point(&self, pos: Point) -> (res: Option<usize>)
        ensures
            res == area_at(self.layout(), pos, self.window_rect()),
    {
        let window = Rect { x: 0, y: 0, width: self.window_size.width, height: self.window_size.height };
        find_area_at_point(&self.root, pos, window)
    }

    /// How a drop at `pos` onto the area `target_id` would be laid out.
    fn drop_layout_at(&self, target_id: usize, pos: Point) -> (res: Option<DropLayout>)
        ensures
            res == (match self.layout().path_of(target_id) {
                Some(path) => drop_layout(bounds_along(self.layout(), path, self.window_rect()), pos),
                None => None,
            }),
    {
        proof { crate::layout::lemma_content_of_has_area(self.layout(), target_id); }
        let path = match self.area_path(target_id) {
            Some(p) => p,
            None => return None,
        };
        let bounds = self.bounds_at_path(&path);
        drop_layout_exec(bounds, pos)
    }

    /// The ratio a resize drag of the split at `path` gives it, for a drag
    /// from `start_pos` to `current_pos` that began at `start_ratio`.
    fn calculate_new_ratio(
        &self,
        path: &Vec<usize>,
        start_pos: Point,
        current_pos: Point,
        start_ratio: u32,
        direction: SplitDirection,
    ) -> (res: u32)
        ensures
            res == new_resize_ratio(self.layout(), self.window_rect(), path@, start_pos, current_pos, start_ratio, direction),
            MIN_RATIO <= res <= MAX_RATIO,
    {
        let region = self.size_at_path(path);
        let (extent, travel) = match direction {
            SplitDirection::Horizontal => (region.width, current_pos.x as i64 - start_pos.x as i64),
            SplitDirection::Vertical => (region.height, current_pos.y as i64 - start_pos.y as i64),
        };
        let size = if extent < MIN_RESIZE_EXTENT { MIN_RESIZE_EXTENT } else { extent };
        assert(-0x1_0000_0000 * 10000 <= travel * 10000 <= 0x1_0000_0000 * 10000) by (nonlinear_arith)
            requires -0x1_0000_0000 <= travel <= 0x1_0000_0000;
        let delta = div_toward_zero_exec(travel * (RATIO_SCALE as i64), size);
        assert(-0x1_0000_0000 * 10000 <= delta <= 0x1_0000_0000 * 10000) by (nonlinear_arith)
            requires -0x1_0000_0000 * 10000 <= travel * 10000 <= 0x1_0000_0000 * 10000,
                delta == div_toward_zero(travel * 10000, size as int), size >= 100;
        clamp_ratio_i64(start_ratio as i64 + delta)
    }

    /// What a corner drag of the area `source_id` that started at
    /// `start_pos` would do with the pointer at `pos`.
    fn corner_drag_update(&self, source_id: usize, start_pos: Point, pos: Point) -> (res: CornerDragUpdate)
        ensures
            res == corner_update(self.layout(), self.window_rect(), source_id, start_pos, pos),
    {
        if let Some(target_id) = self.area_at_point(pos) {
            if target_id != source_id {
                if let Some(drop) = self.drop_layout_at(target_id, pos) {
                    return match drop {
                        DropLayout::FullMove => CornerDragUpdate {
                            action: Some(CornerAction::Move),
                            ratio: HALF_RATIO,
                            target_area_id: Some(target_id),
                            direction: None,
                            new_is_first: false,
                        },
                        DropLayout::Split { direction, ratio, new_is_first } => CornerDragUpdate {
                            action: Some(CornerAction::Move),
                            ratio,
                            target_area_id: Some(target_id),
                            direction: Some(direction),
                            new_is_first,
                        },
                    };
                }
            }
        }
        let dx: i64 = pos.x as i64 - start_pos.x as i64;
        let dy: i64 = pos.y as i64 - start_pos.y as i64;
        let wx = dx as i128;
        let wy = dy as i128;
        assert(0 <= wx * wx <= 0x1_0000_0000 * 0x1_0000_0000) by (nonlinear_arith)
            requires -0x1_0000_0000 <= wx <= 0x1_0000_0000;
        assert(0 <= wy * wy <= 0x1_0000_0000 * 0x1_0000_0000) by (nonlinear_arith)
            requires -0x1_0000_0000 <= wy <= 0x1_0000_0000;
        let dist2: i128 = wx * wx + wy * wy;
        if dist2 <= (CORNER_DRAG_THRESHOLD * CORNER_DRAG_THRESHOLD) as i128 || (dx >= 0 && dy >= 0) {
            return CornerDragUpdate::none();
        }
        let adx = if dx < 0 { -dx } else { dx };
        let ady = if dy < 0 { -dy } else { dy };
        let action = if adx > ady { CornerAction::SplitHorizontal } else { CornerAction::SplitVertical };
        let direction = action.direction();
        let ratio = match self.area_path(source_id) {
            Some(path) => {
                let bounds = self.bounds_at_path(&path);
                corner_split_ratio_exec(action, bounds, pos)
            },
            None => HALF_RATIO,
        };
        proof { crate::layout::lemma_content_of_has_area(self.layout(), source_id); }
        CornerDragUpdate { action: Some(action), ratio, target_area_id: None, direction, new_is_first: false }
    }

    /// Whether the editor menu still has some way to go to fully open or to
    /// fully closed.
    pub fn is_editor_menu_animating(&self) -> (res: bool)
        ensures
            res == (match self.menu() {
                Some(m) => (m.opening && m.progress < MENU_PROGRESS_FULL) || (!m.opening && m.progress > 0),
                None => false,
            }),
    {
        match self.editor_menu {
            Some(m) => (m.opening && m.progress < MENU_PROGRESS_FULL) || (!m.opening && m.progress > 0),
            None => false,
        }
    }
}

impl<C: Clone> PanelSystem<C> {
    /// A copy of the content of the first area with id `area_id`.
    fn find_area_content(&self, area_id: usize) -> (res: Option<C>)
        ensures
            res is Some == self.layout().has_area(area_id),
            res matches Some(c) ==> cloned(self.layout().content_of(area_id).unwrap(), c),
    {
        proof { crate::layout::lemma_content_of_has_area(self.layout(), area_id); }
        find_content_recursive(&self.root, area_id)
    }

    /// Splits the area with id `area_id` into itself and a new area showing
    /// a copy of its content; the new area gets the next id and sits first
    /// when `new_is_first`. The ratio is kept between [`MIN_RATIO`] and
    /// [`MAX_RATIO`]. Does nothing when no area has that id.
    fn split_area(&mut self, area_id: usize, direction: SplitDirection, ratio: u32, new_is_first: bool)
        requires
            old(self).next_id() < usize::MAX,
        ensures
            split_result(old(self).layout(), old(self).next_id(), area_id, direction, ratio, new_is_first,
                final(self).layout(), final(self).next_id()),
            final(self).same_interaction(old(self)),
    {
        let Some(content) = self.find_area_content(area_id) else {
            return;
        };
        let new_id = self.next_area_id;
        self.next_area_id = self.next_area_id + 1;
        let new_area = Area::new(new_id, content);
        let ratio = clamp_ratio_exec(ratio);
        let root = self.take_root();
        let (root, _) = split_area_recursive(root, area_id, new_area, direction, ratio, new_is_first);
        self.root = root;
    }

    /// Handles `message` at time `now` (milliseconds on the caller's clock,
    /// used by the editor menu animation).
    pub fn update<M>(&mut self, message: PanelSystemMessage<C, M>, now: u64)
        requires
            message is CornerDragEnd ==> old(self).next_id() < usize::MAX,
        ensures
            updated(*old(self), *final(self), message, now),
    {
        match message {
            PanelSystemMessage::ChangeEditor(area_id, content) => {
                self.set_area_content(area_id, content);
                self.close_editor_menu(now);
            },
            PanelSystemMessage::ToggleEditorMenu(area_id) => {
                self.open_editor_menu(area_id, now);
            },
            PanelSystemMessage::CloseEditorMenu => {
                self.close_editor_menu(now);
            },
            PanelSystemMessage::AnimTick => {
                self.tick_editor_menu(now);
            },
            PanelSystemMessage::CornerDragStart(area_id) => {
                self.drag_state = DragState::CornerDrag {
                    area_id,
                    start_pos: self.last_mouse_pos,
                    current_pos: self.last_mouse_pos,
                    update: CornerDragUpdate::none(),
                };
            },
            PanelSystemMessage::MouseMove(pos) => {
                self.last_mouse_pos = pos;
                let mut drag = DragState::Idle;
                std::mem::swap(&mut drag, &mut self.drag_state);
                match drag {
                    DragState::CornerDrag { area_id, start_pos, .. } => {
                        let update = self.corner_drag_update(area_id, start_pos, pos);
                        self.drag_state = DragState::CornerDrag { area_id, start_pos, current_pos: pos, update };
                    },
                    DragState::Resizing { path, direction, start_pos, start_ratio, .. } => {
                        let new_ratio = self.calculate_new_ratio(&path, start_pos, pos, start_ratio, direction);
                        self.set_ratio_at_path(&path, new_ratio);
                        self.drag_state = DragState::Resizing { path, direction, start_pos, current_pos: pos, start_ratio };
                    },
                    DragState::Idle => {},
                }
            },
            PanelSystemMessage::CornerDragEnd => {
                let mut drag = DragState::Idle;
                std::mem::swap(&mut drag, &mut self.drag_state);
                if let DragState::CornerDrag { area_id, update, .. } = drag {
                    match update.action {
                        Some(CornerAction::Move) => {
                            if let Some(target) = update.target_area_id {
                                match update.direction {
                                    Some(direction) => {
                                        self.move_area_into(area_id, target, direction, update.ratio, update.new_is_first);
                                    },
                                    None => {
                                        self.swap_areas(area_id, target);
                                    },
                                }
                            }
                        },
                        Some(action) => {
                            if let Some(direction) = action.direction() {
                                self.split_area(area_id, direction, update.ratio, false);
                            }
                        },
                        None => {},
                    }
                }
            },
            PanelSystemMessage::JoinArea(area_id) => {
                self.close_editor_menu(now);
                self.join_area(area_id);
            },
            PanelSystemMessage::ResizeStart(path, direction) => {
                if let Some(ratio) = self.get_ratio_at_path(&path) {
                    self.drag_state = DragState::Resizing {
                        path,
                        direction,
                        start_pos: self.last_mouse_pos,
                        current_pos: self.last_mouse_pos,
                        start_ratio: ratio,
                    };
                }
            },
            PanelSystemMessage::ResizeEnd => {
                self.drag_state = DragState::Idle;
            },
            PanelSystemMessage::AppMessage(_) => {},
            PanelSystemMessage::ResizeHandleHover(handle) => {
                if !matches!(self.drag_state, DragState::Resizing { .. }) {
                    self.hover_resize_handle = handle;
                }
            },
            PanelSystemMessage::WindowResized(size) => {
                self.window_size = size;
            },
        }
    }

    /// Moves the area with id `source_id` next to the area with id
    /// `target_id`: a new area showing a copy of the source's content splits
    /// the target (sitting first when `new_is_first`, with the ratio kept
    /// between [`MIN_RATIO`] and [`MAX_RATIO`]), and the source is then
    /// joined into its sibling. Does nothing when the ids are equal or the
    /// source is missing.
    fn move_area_into(
        &mut self,
        source_id: usize,
        target_id: usize,
        direction: SplitDirection,
        ratio: u32,
        new_is_first: bool,
    )
        requires
            old(self).next_id() < usize::MAX,
        ensures
            move_result(old(self).layout(), old(self).next_id(), source_id, target_id, direction, ratio, new_is_first,
                final(self).layout(), final(self).next_id()),
            final(self).same_interaction(old(self)),
    {
        if source_id == target_id {
            return;
        }
        let Some(content) = self.find_area_content(source_id) else {
            return;
        };
        let new_id = self.next_area_id;
        self.next_area_id = self.next_area_id + 1;
        let new_area = Area::new(new_id, content);
        let ratio = clamp_ratio_exec(ratio);
        let root = self.take_root();
        let (root, _) = split_area_recursive(root, target_id, new_area, direction, ratio, new_is_first);
        self.root = root;
        self.join_area(source_id);
    }
}

impl<C> Default for PanelSystem<C> {
    fn default() -> (res: Self)
        ensures
            res.layout() is Empty,
            res.next_id() == 0,
            res.drag() == DragState::Idle,
            res.mouse() == (Point { x: 0, y: 0 }),
            res.window() == (Size { width: 800, height: 600 }),
            res.hovered_handle().is_none(),
            res.menu().is_none(),
    {
        PanelSystem::new()
    }
}

/// Builds layouts, numbering the areas it makes from zero upwards.
pub struct LayoutBuilder<C> {
    next_area_id: usize,
    _marker: std::marker::PhantomData<C>,
}

impl<C> LayoutBuilder<C> {
    /// The id the next area made will get.
    pub closed spec fn next_id(&self) -> usize {
        self.next_area_id
    }

    /// A builder whose first area gets id `0`.
    pub fn new() -> (res: Self)
        ensures
            res.next_id() == 0,
    {
        LayoutBuilder { next_area_id: 0, _marker: std::marker::PhantomData }
    }

    /// A single area showing `content`, under the next id.
    pub fn area(&mut self, content: C) -> (res: DockNode<C>)
        requires
            old(self).next_id() < usize::MAX,
        ensures
            res == DockNode::Leaf(Area { id: old(self).next_id(), content }),
            final(self).next_id() == old(self).next_id() + 1,
    {
        let id = self.next_area_id;
        self.next_area_id = self.next_area_id + 1;
        DockNode::Leaf(Area::new(id, content))
    }

    /// `first` to the left of `second`, `first` taking `ratio` of the width.
    pub fn hsplit(first: DockNode<C>, second: DockNode<C>, ratio: u32) -> (res: DockNode<C>)
        ensures
            res == (DockNode::Split { direction: SplitDirection::Horizontal, ratio, first: Box::new(first), second: Box::new(second) }),
    {
        DockNode::Split { direction: SplitDirection::Horizontal, ratio, first: Box::new(first), second: Box::new(second) }
    }

    /// `first` above `second`, `first` taking `ratio` of the height.
    pub fn vsplit(first: DockNode<C>, second: DockNode<C>, ratio: u32) -> (res: DockNode<C>)
        ensures
            res == (DockNode::Split { direction: SplitDirection::Vertical, ratio, first: Box::new(first), second: Box::new(second) }),
    {
        DockNode::Split { direction: SplitDirection::Vertical, ratio, first: Box::new(first), second: Box::new(second) }
    }

    /// The id the next area made will get.
    pub fn next_area_id(&self) -> (res: usize)
        ensures
            res == self.next_id(),
    {
        self.next_area_id
    }
}

impl<C> Default for LayoutBuilder<C> {
    fn default() -> (res: Self)
        ensures
            res.next_id() == 0,
    {
        LayoutBuilder::new()
    }
}

} // verus!
