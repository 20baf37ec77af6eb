use nade::dock::{Area, DockNode, SplitDirection, RATIO_SCALE};
use nade::layout::{
    cleanup_recursive, find_area_path, get_ratio_recursive, join_area_recursive, set_content_recursive,
    set_ratio_recursive, split_area_recursive,
};
use nade::system::LayoutBuilder;

fn ids(node: &DockNode<u8>, out: &mut Vec<usize>) {
    match node {
        DockNode::Empty => {}
        DockNode::Leaf(area) => out.push(area.id),
        DockNode::Split { first, second, .. } => {
            ids(first, out);
            ids(second, out);
        }
    }
}

fn sample() -> DockNode<u8> {
    let mut b: LayoutBuilder<u8> = LayoutBuilder::new();
    let left = b.area(10);
    let top = b.area(20);
    let bottom = b.area(30);
    LayoutBuilder::hsplit(left, LayoutBuilder::vsplit(top, bottom, 6000), 2500)
}

#[test]
fn builder_numbers_areas_in_order() {
    let mut b: LayoutBuilder<u8> = LayoutBuilder::new();
    assert_eq!(b.next_area_id(), 0);
    let _ = b.area(1);
    let _ = b.area(2);
    assert_eq!(b.next_area_id(), 2);
    let mut out = Vec::new();
    ids(&sample(), &mut out);
    assert_eq!(out, vec![0, 1, 2]);
}

#[test]
fn find_area_path_routes_to_the_area() {
    let t = sample();
    let mut path = Vec::new();
    assert!(find_area_path(&t, 2, &mut path));
    assert_eq!(path, vec![1, 1]);
    let mut missing = vec![7];
    assert!(!find_area_path(&t, 9, &mut missing));
    assert_eq!(missing, vec![7]);
}

#[test]
fn ratio_read_after_write() {
    let t = sample();
    assert_eq!(get_ratio_recursive(&t, &vec![], 0), Some(2500));
    assert_eq!(get_ratio_recursive(&t, &vec![1], 0), Some(6000));
    assert_eq!(get_ratio_recursive(&t, &vec![0], 0), None);
    let t = set_ratio_recursive(t, &vec![1], 0, 7000);
    assert_eq!(get_ratio_recursive(&t, &vec![1], 0), Some(7000));
    assert_eq!(get_ratio_recursive(&t, &vec![], 0), Some(2500));
    assert!(RATIO_SCALE == 10000);
}

#[test]
fn split_then_join_restores_layout() {
    let t = sample();
    let (split, back) = split_area_recursive(t, 1, Area::new(5, 99), SplitDirection::Horizontal, 5000, true);
    assert!(back.is_none());
    let mut out = Vec::new();
    ids(&split, &mut out);
    assert_eq!(out, vec![0, 5, 1, 2]);
    let (joined, done) = join_area_recursive(split, 5);
    assert!(done);
    let mut out = Vec::new();
    ids(&joined, &mut out);
    assert_eq!(out, vec![0, 1, 2]);
    assert_eq!(get_ratio_recursive(&joined, &vec![1], 0), Some(6000));
}

#[test]
fn content_is_set_on_the_named_area_only() {
    let t = sample();
    let (t, back) = set_content_recursive(t, 2, 77);
    assert!(back.is_none());
    let (_, back) = set_content_recursive(t, 42, 5);
    assert_eq!(back, Some(5));
}

#[test]
fn cleanup_removes_empty_sides() {
    let t: DockNode<u8> = DockNode::Split {
        direction: SplitDirection::Vertical,
        ratio: 5000,
        first: Box::new(DockNode::Empty),
        second: Box::new(DockNode::Leaf(Area::new(3, 1))),
    };
    let t = cleanup_recursive(t);
    match t {
        DockNode::Leaf(a) => assert_eq!(a.id, 3),
        _ => panic!("expected a leaf"),
    }
    let e: DockNode<u8> = DockNode::Split {
        direction: SplitDirection::Vertical,
        ratio: 5000,
        first: Box::new(DockNode::Empty),
        second: Box::new(DockNode::Empty),
    };
    assert!(cleanup_recursive(e).is_empty());
}
