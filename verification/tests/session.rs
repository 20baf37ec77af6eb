use nade::session::{Document, EditorSession, Graph, NodeState};
use nade::values::{NodeId, ParamValue};

#[test]
fn operators_get_increasing_ids() {
    let mut session = EditorSession::new();
    assert!(session.operator_ids().is_empty());
    let first = session.add_operator().unwrap();
    let second = session.add_operator().unwrap();
    assert_eq!(first.value(), 1);
    assert_eq!(second.value(), 2);
    assert_eq!(session.operator_ids(), &[NodeId::new(1), NodeId::new(2)]);
    let node = session.graph().node(first).unwrap();
    assert_eq!(node.operator.name(), "Value.Const");
    assert_eq!(node.state, NodeState::Empty);
}

#[test]
fn editing_a_missing_node_reports_it() {
    let mut session = EditorSession::new();
    session.add_operator().unwrap();
    let err = session.set_operator_parameter(NodeId::new(7), 0, ParamValue::U32(1)).unwrap_err();
    assert_eq!(err, "Node 7 not found");
    let err = session.cycle_operator_next(NodeId::new(42)).unwrap_err();
    assert_eq!(err, "Node 42 not found after modification");
    let err = session.cycle_operator_prev(NodeId::new(0)).unwrap_err();
    assert_eq!(err, "Node 0 not found after modification");
}

#[test]
fn editing_a_node_keeps_the_operators() {
    let mut session = EditorSession::new();
    let id = session.add_operator().unwrap();
    assert!(session.set_operator_parameter(id, 0, ParamValue::U32(3)).is_ok());
    assert!(session.cycle_operator_next(id).is_ok());
    assert!(session.cycle_operator_prev(id).is_ok());
    assert_eq!(session.operator_ids(), &[id]);
    assert_eq!(session.graph().node(id).unwrap().operator.name(), "Value.Const");
}

#[test]
fn graph_finds_nodes_by_id() {
    let mut graph = Graph::new();
    let op = nade::operators::create_operator("Value.Sin").unwrap();
    let a = graph.add_node(op);
    let b = graph.add_node(op);
    assert_eq!(graph.find_node(a), Some(0));
    assert_eq!(graph.find_node(b), Some(1));
    assert_eq!(graph.find_node(NodeId::new(99)), None);
    assert!(graph.reset_node_state(b));
    assert!(!graph.reset_node_state(NodeId::new(99)));
}

#[test]
fn documents_start_empty() {
    let doc = Document::new();
    assert_eq!(doc.graph().find_node(NodeId::new(1)), None);
    let session = EditorSession::default();
    assert!(session.operator_ids().is_empty());
}

#[test]
fn editing_drops_cached_outputs() {
    let mut session = EditorSession::new();
    let id = session.add_operator().unwrap();
    let mut graph = Graph::new();
    let op = nade::operators::create_operator("Value.Const").unwrap();
    let a = graph.add_node(op);
    graph.record_cached(a);
    graph.clear_cache();
    assert!(graph.reset_node_state(a));
    assert!(session.set_operator_parameter(id, 0, ParamValue::U32(1)).is_ok());
}

#[test]
fn new_operator_ids_are_fresh() {
    let mut session = EditorSession::new();
    let mut seen = Vec::new();
    for _ in 0..4 {
        let id = session.add_operator().unwrap();
        assert!(!seen.contains(&id));
        assert!(!session.operator_ids()[..seen.len()].contains(&id));
        seen.push(id);
    }
    assert_eq!(session.operator_ids(), seen.as_slice());
}
