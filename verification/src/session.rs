//! The editing session: a document holding the operator graph, and the
//! edits a user makes to it.

use vstd::prelude::*;
use crate::operators::{create_operator, default_operator, key_index, operator_definitions, operator_keys};
use crate::ops::OperatorNode;
use crate::text::{decimal, push_decimal};
use crate::hashing::Image;
use crate::values::{NodeId, ParamValue, Value};

verus! {

/// What an operator remembers between evaluations.
#[derive(Debug, Clone, PartialEq)]
#[allow(inconsistent_fields)]
pub enum NodeState {
    /// Nothing.
    Empty,
    /// The input and time (as an `f64` bit pattern) of the previous
    /// evaluation of a one-step value delay.
    DelayValue { previous: Option<Value>, previous_time: Option<u64> },
    /// The input and time (as an `f64` bit pattern) of the previous
    /// evaluation of a one-step image delay.
    DelayImage { previous: Option<Image>, previous_time: Option<u64> },
}

impl Default for NodeState {
    fn default() -> (res: Self)
        ensures
            res == NodeState::Empty,
    {
        NodeState::Empty
    }
}

/// A node of the graph: its id, its operator and its state.
#[derive(Debug, Clone, PartialEq)]
pub struct GraphNode {
    pub id: NodeId,
    pub operator: OperatorNode,
    pub state: NodeState,
}

/// The operator graph: its nodes in the order they were added, the id the
/// next node gets, and the nodes whose evaluated outputs are cached.
#[derive(Debug)]
pub struct Graph {
    nodes: Vec<GraphNode>,
    next_node_id: u64,
    cached: Vec<NodeId>,
}

impl Graph {
    /// The nodes, in the order they were added.
    pub closed spec fn nodes_view(&self) -> Seq<GraphNode> {
        self.nodes@
    }

    /// The id the next node gets.
    pub closed spec fn next_id(&self) -> u64 {
        self.next_node_id
    }

    /// The nodes whose evaluated outputs are cached.
    pub closed spec fn cache(&self) -> Seq<NodeId> {
        self.cached@
    }

    /// Whether the graph has a node with id `id`.
    pub open spec fn has_node(&self, id: NodeId) -> bool {
        exists|i: int| 0 <= i < self.nodes_view().len() && (#[trigger] self.nodes_view()[i]).id == id
    }

    /// Node ids are unique and below the next id.
    pub open spec fn well_formed(&self) -> bool {
        &&& forall|i: int, j: int| 0 <= i < j < self.nodes_view().len()
            ==> (#[trigger] self.nodes_view()[i]).id != (#[trigger] self.nodes_view()[j]).id
        &&& forall|i: int| 0 <= i < self.nodes_view().len() ==> (#[trigger] self.nodes_view()[i]).id.0 < self.next_id()
        &&& self.next_id() >= 1
    }

    /// An empty graph whose first node gets id `1`.
    pub fn new() -> (res: Self)
        ensures
            res.nodes_view() == Seq::<GraphNode>::empty(),
            res.next_id() == 1,
            res.cache() == Seq::<NodeId>::empty(),
            res.well_formed(),
    {
        Graph { nodes: Vec::new(), next_node_id: 1, cached: Vec::new() }
    }

    /// Adds a node running `operator`, with an empty state, under the next
    /// id, and returns that id.
    pub fn add_node(&mut self, operator: OperatorNode) -> (res: NodeId)
        requires
            old(self).next_id() < u64::MAX,
        ensures
            res == NodeId(old(self).next_id()),
            final(self).nodes_view() == old(self).nodes_view().push(GraphNode { id: res, operator, state: NodeState::Empty }),
            final(self).next_id() == old(self).next_id() + 1,
            final(self).cache() == old(self).cache(),
            old(self).well_formed() ==> final(self).well_formed(),
    {
        let id = NodeId::new(self.next_node_id);
        self.nodes.push(GraphNode { id, operator, state: NodeState::Empty });
        self.next_node_id = self.next_node_id + 1;
        id
    }

    /// The position of the first node with id `id`.
    pub fn find_node(&self, id: NodeId) -> (res: Option<usize>)
        ensures
            res is Some == self.has_node(id),
            res matches Some(i) ==> i < self.nodes_view().len() && self.nodes_view()[i as int].id == id
                && forall|j: int| 0 <= j < i ==> self.nodes_view()[j].id != id,
    {
        let mut i: usize = 0;
        while i < self.nodes.len()
            invariant
                i <= self.nodes@.len(),
                forall|j: int| 0 <= j < i ==> self.nodes@[j].id != id,
            decreases self.nodes.len() - i,
        {
            if self.nodes[i].id == id {
                return Some(i);
            }
            i = i + 1;
        }
        None
    }

    /// The first node with id `id`.
    pub fn node(&self, id: NodeId) -> (res: Option<&GraphNode>)
        ensures
            res is Some == self.has_node(id),
            res matches Some(n) ==> n.id == id && exists|i: int| #![trigger self.nodes_view()[i]]
                0 <= i < self.nodes_view().len() && self.nodes_view()[i] == *n
                && forall|j: int| 0 <= j < i ==> self.nodes_view()[j].id != id,
    {
        match self.find_node(id) {
            Some(i) => Some(&self.nodes[i]),
            None => None,
        }
    }

    /// Gives the first node with id `id` an empty state again; reports
    /// whether there is such a node.
    pub fn reset_node_state(&mut self, id: NodeId) -> (res: bool)
        ensures
            res == old(self).has_node(id),
            final(self).next_id() == old(self).next_id(),
            final(self).cache() == old(self).cache(),
            !res ==> final(self).nodes_view() == old(self).nodes_view(),
            res ==> exists|i: int| #![trigger old(self).nodes_view()[i]]
                0 <= i < old(self).nodes_view().len() && old(self).nodes_view()[i].id == id
                && (forall|j: int| 0 <= j < i ==> old(self).nodes_view()[j].id != id)
                && final(self).nodes_view() == old(self).nodes_view().update(
                    i, GraphNode { state: NodeState::Empty, ..old(self).nodes_view()[i] }),
            old(self).well_formed() ==> final(self).well_formed(),
    {
        match self.find_node(id) {
            Some(i) => {
                let ghost before = self.nodes@;
                let node = self.nodes.remove(i);
                self.nodes.insert(i, GraphNode { id: node.id, operator: node.operator, state: NodeState::Empty });
                assert(self.nodes@ =~= before.update(i as int, GraphNode { state: NodeState::Empty, ..before[i as int] }));
                true
            },
            None => false,
        }
    }

    /// Notes that the output of the node `id` is cached.
    pub fn record_cached(&mut self, id: NodeId)
        ensures
            final(self).cache() == old(self).cache().push(id),
            final(self).nodes_view() == old(self).nodes_view(),
            final(self).next_id() == old(self).next_id(),
    {
        self.cached.push(id);
    }

    /// Drops every cached output.
    pub fn clear_cache(&mut self)
        ensures
            final(self).cache() == Seq::<NodeId>::empty(),
            final(self).nodes_view() == old(self).nodes_view(),
            final(self).next_id() == old(self).next_id(),
    {
        self.cached = Vec::new();
    }
}

impl Default for Graph {
    fn default() -> (res: Self)
        ensures
            res.nodes_view() == Seq::<GraphNode>::empty(),
            res.next_id() == 1,
            res.cache() == Seq::<NodeId>::empty(),
    {
        Graph::new()
    }
}

/// A document: the operator graph being edited.
#[derive(Debug)]
pub struct Document {
    graph: Graph,
}

impl Document {
    /// The document's graph.
    pub closed spec fn spec_graph(&self) -> Graph {
        self.graph
    }

    /// A document with an empty graph.
    pub fn new() -> (res: Self)
        ensures
            res.spec_graph().nodes_view() == Seq::<GraphNode>::empty(),
            res.spec_graph().next_id() == 1,
            res.spec_graph().cache() == Seq::<NodeId>::empty(),
    {
        Document { graph: Graph::new() }
    }

    /// The document's graph.
    pub fn graph(&self) -> (res: &Graph)
        ensures
            *res == self.spec_graph(),
    {
        &self.graph
    }

    /// The document's graph, for editing.
    pub fn graph_mut(&mut self) -> (res: &mut Graph)
        ensures
            *res == old(self).spec_graph(),
            final(self).spec_graph() == *final(res),
    {
        &mut self.graph
    }
}

impl Default for Document {
    fn default() -> (res: Self)
        ensures
            res.spec_graph().nodes_view() == Seq::<GraphNode>::empty(),
            res.spec_graph().next_id() == 1,
            res.spec_graph().cache() == Seq::<NodeId>::empty(),
    {
        Document::new()
    }
}

/// `t` is the session `s` after the node `node_id` was marked as edited:
/// when the node exists, its state is emptied and the cached outputs are
/// dropped; otherwise nothing changes. The operators stay as they were.
pub open spec fn reset_result(s: EditorSession, t: EditorSession, node_id: NodeId) -> bool {
    &&& t.spec_operator_ids() == s.spec_operator_ids()
    &&& t.spec_graph().next_id() == s.spec_graph().next_id()
    &&& if s.spec_graph().has_node(node_id) {
        &&& t.spec_graph().cache() == Seq::<NodeId>::empty()
        &&& exists|i: int| #![trigger s.spec_graph().nodes_view()[i]]
            0 <= i < s.spec_graph().nodes_view().len() && s.spec_graph().nodes_view()[i].id == node_id
            && (forall|j: int| 0 <= j < i ==> s.spec_graph().nodes_view()[j].id != node_id)
            && t.spec_graph().nodes_view() == s.spec_graph().nodes_view().update(
                i, GraphNode { state: NodeState::Empty, ..s.spec_graph().nodes_view()[i] })
    } else {
        &&& t.spec_graph().cache() == s.spec_graph().cache()
        &&& t.spec_graph().nodes_view() == s.spec_graph().nodes_view()
    }
}

/// An editing session: a document and the ids of the operators added to it,
/// in order.
#[derive(Debug)]
pub struct EditorSession {
    document: Document,
    operator_ids: Vec<NodeId>,
}

/// The image a new operator's image input `j` reads: the `j`-th operator
/// of the session, or its first when there are fewer, or `fallback` when
/// there are none.
pub open spec fn input_target(image_nodes: Seq<NodeId>, j: int, fallback: NodeId) -> NodeId {
    if j < image_nodes.len() {
        image_nodes[j]
    } else if image_nodes.len() > 0 {
        image_nodes[0]
    } else {
        fallback
    }
}

/// `op` with its image inputs at positions below `n` bound to their targets.
pub open spec fn bound_inputs(op: OperatorNode, image_nodes: Seq<NodeId>, fallback: NodeId, n: int) -> OperatorNode
    decreases n,
{
    if n <= 0 {
        op
    } else if op.is_image_input(n - 1) {
        bound_inputs(op, image_nodes, fallback, n - 1).with_image_input(n - 1, input_target(image_nodes, n - 1, fallback))
    } else {
        bound_inputs(op, image_nodes, fallback, n - 1)
    }
}

/// An operator's image inputs come before its other parameters.
proof fn lemma_image_inputs_lead(op: OperatorNode, i: int, j: int)
    requires
        0 <= j <= i,
        op.is_image_input(i),
    ensures
        op.is_image_input(j),
{
}

/// Binding inputs keeps the operator's kind and its image-input positions.
proof fn lemma_bound_inputs_shape(op: OperatorNode, image_nodes: Seq<NodeId>, fallback: NodeId, n: int)
    ensures
        bound_inputs(op, image_nodes, fallback, n).key() == op.key(),
        forall|i: int| #[trigger] bound_inputs(op, image_nodes, fallback, n).is_image_input(i) == op.is_image_input(i),
        bound_inputs(op, image_nodes, fallback, n).param_count() == op.param_count(),
    decreases n,
{
    if n > 0 {
        lemma_bound_inputs_shape(op, image_nodes, fallback, n - 1);
    }
}

impl EditorSession {
    /// Every operator the session recorded is a node of its graph, with an
    /// id below the graph's next id.
    #[verifier::type_invariant]
    spec fn ids_recorded(self) -> bool {
        forall|i: int| 0 <= i < self.operator_ids@.len() ==> {
            &&& self.document.spec_graph().has_node(#[trigger] self.operator_ids@[i])
            &&& self.operator_ids@[i].0 < self.document.spec_graph().next_id()
        }
    }

    /// The session's document.
    pub closed spec fn spec_document(&self) -> Document {
        self.document
    }

    /// The ids of the operators added in this session, in order.
    pub closed spec fn spec_operator_ids(&self) -> Seq<NodeId> {
        self.operator_ids@
    }

    /// The graph of the session's document.
    pub open spec fn spec_graph(&self) -> Graph {
        self.spec_document().spec_graph()
    }

    /// A session on an empty document.
    pub fn new() -> (res: Self)
        ensures
            res.spec_graph().nodes_view() == Seq::<GraphNode>::empty(),
            res.spec_graph().next_id() == 1,
            res.spec_graph().cache() == Seq::<NodeId>::empty(),
            res.spec_operator_ids() == Seq::<NodeId>::empty(),
    {
        EditorSession { document: Document::new(), operator_ids: Vec::new() }
    }

    /// The session's document.
    pub fn document(&self) -> (res: &Document)
        ensures
            *res == self.spec_document(),
    {
        &self.document
    }

    /// The graph of the session's document.
    pub fn graph(&self) -> (res: &Graph)
        ensures
            *res == self.spec_graph(),
    {
        self.document.graph()
    }

    /// The ids of the operators added in this session, in order.
    pub fn operator_ids(&self) -> (res: &[NodeId])
        ensures
            res@ == self.spec_operator_ids(),
    {
        self.operator_ids.as_slice()
    }

    /// Adds an operator of the first kind of the catalogue (a constant) to
    /// the graph, records its id and drops the cached outputs.
    pub fn add_operator(&mut self) -> (res: Option<NodeId>)
        requires
            old(self).spec_graph().next_id() < u64::MAX,
        ensures
            res == Some(NodeId(old(self).spec_graph().next_id())),
            !old(self).spec_operator_ids().contains(res.unwrap()),
            final(self).spec_operator_ids() == old(self).spec_operator_ids().push(res.unwrap()),
            final(self).spec_graph().nodes_view() == old(self).spec_graph().nodes_view().push(
                GraphNode { id: res.unwrap(), operator: default_operator(0), state: NodeState::Empty }),
            final(self).spec_graph().next_id() == old(self).spec_graph().next_id() + 1,
            final(self).spec_graph().cache() == Seq::<NodeId>::empty(),
            old(self).spec_graph().well_formed() ==> final(self).spec_graph().well_formed(),
    {
        proof { use_type_invariant(&*self); }
        let definitions = operator_definitions();
        proof {
            crate::operators::lemma_keys_distinct();
            assert(operator_keys().contains(operator_keys()[0]));
            assert(key_index(operator_keys()[0]) == Some(0int));
            reveal_with_fuel(bound_inputs, 2);
        }
        let operator = self.make_operator(definitions[0].key, None)?;
        let mut taken = EditorSession::new();
        std::mem::swap(&mut taken, self);
        proof { use_type_invariant(&taken); }
        let EditorSession { mut document, mut operator_ids } = taken;
        let ghost before = document.spec_graph();
        let node_id = document.graph_mut().add_node(operator);
        operator_ids.push(node_id);
        document.graph_mut().clear_cache();
        proof {
            let after = document.spec_graph();
            assert forall|i: int| 0 <= i < operator_ids@.len() implies
                after.has_node(#[trigger] operator_ids@[i]) && operator_ids@[i].0 < after.next_id() by {
                if i < operator_ids@.len() - 1 {
                    let j = choose|j: int| 0 <= j < before.nodes_view().len() && (#[trigger] before.nodes_view()[j]).id == operator_ids@[i];
                    assert(after.nodes_view()[j] == before.nodes_view()[j]);
                } else {
                    assert(after.nodes_view()[before.nodes_view().len() as int].id == node_id);
                }
            }
        }
        *self = EditorSession { document, operator_ids };
        Some(node_id)
    }

    /// Gives the node `node_id` an empty state and drops the cached outputs
    /// when the graph has it; reports whether it has.
    fn reset_node(&mut self, node_id: NodeId) -> (found: bool)
        ensures
            reset_result(*old(self), *final(self), node_id),
            found == old(self).spec_graph().has_node(node_id),
    {
        let mut taken = EditorSession::new();
        std::mem::swap(&mut taken, self);
        proof { use_type_invariant(&taken); }
        let EditorSession { mut document, operator_ids } = taken;
        let ghost before = document.spec_graph();
        let found = document.graph_mut().reset_node_state(node_id);
        if found {
            document.graph_mut().clear_cache();
        }
        proof {
            let after = document.spec_graph();
            assert forall|i: int| 0 <= i < operator_ids@.len() implies
                after.has_node(#[trigger] operator_ids@[i]) && operator_ids@[i].0 < after.next_id() by {
                let j = choose|j: int| 0 <= j < before.nodes_view().len() && (#[trigger] before.nodes_view()[j]).id == operator_ids@[i];
                assert(after.nodes_view()[j].id == before.nodes_view()[j].id);
            }
        }
        *self = EditorSession { document, operator_ids };
        found
    }

    /// Gives the node `node_id` an empty state and drops the cached
    /// outputs, or reports that the node does not exist.
    fn cycle_operator(&mut self, node_id: NodeId, forward: bool) -> (res: Result<(), String>)
        ensures
            reset_result(*old(self), *final(self), node_id),
            res is Ok == old(self).spec_graph().has_node(node_id),
            res matches Err(e) ==> e@ == "Node "@ + decimal(node_id.0 as nat) + " not found after modification"@,
    {
        if !self.reset_node(node_id) {
            let mut message = String::from_str("Node ");
            push_decimal(&mut message, node_id.value() as u128);
            message.append(" not found after modification");
            return Err(message);
        }
        Ok(())
    }

    /// The edit behind the "previous operator" control: the node's operator
    /// is left as it is; the node `node_id` gets an empty state and the
    /// cached outputs are dropped, or the node is reported missing.
    pub fn cycle_operator_prev(&mut self, node_id: NodeId) -> (res: Result<(), String>)
        ensures
            reset_result(*old(self), *final(self), node_id),
            res is Ok == old(self).spec_graph().has_node(node_id),
            res matches Err(e) ==> e@ == "Node "@ + decimal(node_id.0 as nat) + " not found after modification"@,
    {
        self.cycle_operator(node_id, false)
    }

    /// The edit behind the "next operator" control: the node's operator is
    /// left as it is; the node `node_id` gets an empty state and the cached
    /// outputs are dropped, or the node is reported missing.
    pub fn cycle_operator_next(&mut self, node_id: NodeId) -> (res: Result<(), String>)
        ensures
            reset_result(*old(self), *final(self), node_id),
            res is Ok == old(self).spec_graph().has_node(node_id),
            res matches Err(e) ==> e@ == "Node "@ + decimal(node_id.0 as nat) + " not found after modification"@,
    {
        self.cycle_operator(node_id, true)
    }

    /// Marks the node `node_id` as edited: gives it an empty state and
    /// drops the cached outputs, or reports that the node does not exist.
    /// The parameter itself is left as it is.
    pub fn set_operator_parameter(&mut self, node_id: NodeId, index: usize, value: ParamValue) -> (res: Result<(), String>)
        ensures
            reset_result(*old(self), *final(self), node_id),
            res is Ok == old(self).spec_graph().has_node(node_id),
            res matches Err(e) ==> e@ == "Node "@ + decimal(node_id.0 as nat) + " not found"@,
    {
        if !self.reset_node(node_id) {
            let mut message = String::from_str("Node ");
            push_decimal(&mut message, node_id.value() as u128);
            message.append(" not found");
            return Err(message);
        }
        Ok(())
    }

    /// The nodes whose images new operators read from: every operator of
    /// the session, in order.
    fn image_node_ids(&self) -> (res: Vec<NodeId>)
        ensures
            res@ == self.spec_operator_ids(),
    {
        let mut res = Vec::new();
        let mut i: usize = 0;
        while i < self.operator_ids.len()
            invariant
                i <= self.operator_ids@.len(),
                res@ == self.operator_ids@.take(i as int),
            decreases self.operator_ids.len() - i,
        {
            proof { assert(self.operator_ids@.take(i + 1) =~= self.operator_ids@.take(i as int).push(self.operator_ids@[i as int])); }
            res.push(self.operator_ids[i]);
            i = i + 1;
        }
        proof { assert(self.operator_ids@.take(i as int) =~= self.operator_ids@); }
        res
    }

    /// Binds each image input of `operator`, in order, to the session's
    /// operators in order: the `j`-th input to the `j`-th operator, or to the
    /// first when there are fewer, or to `fallback` when there are none.
    fn bind_image_inputs(&self, operator: &mut OperatorNode, fallback: NodeId)
        ensures
            *final(operator) == bound_inputs(*old(operator), self.spec_operator_ids(), fallback, old(operator).param_count() as int),
    {
        let image_nodes = self.image_node_ids();
        let ghost unbound = *operator;
        let params = operator.parameters();
        let mut image_input_index: usize = 0;
        let mut index: usize = 0;
        while index < params.len()
            invariant
                index <= params@.len(),
                params@.len() == unbound.param_count(),
                forall|i: int| 0 <= i < params@.len() ==> (#[trigger] params@[i].kind is ImageInput) == unbound.is_image_input(i),
                image_nodes@ == self.spec_operator_ids(),
                *operator == bound_inputs(unbound, image_nodes@, fallback, index as int),
                image_input_index <= index,
                forall|i: int| 0 <= i < index ==> unbound.is_image_input(i) ==> i < image_input_index,
                image_input_index > 0 ==> unbound.is_image_input(image_input_index - 1),
                forall|i: int| 0 <= i < image_input_index ==> unbound.is_image_input(i),
            decreases params.len() - index,
        {
            if params[index].kind == crate::values::ParamKind::ImageInput {
                let target = if image_input_index < image_nodes.len() {
                    image_nodes[image_input_index]
                } else if image_nodes.len() > 0 {
                    image_nodes[0]
                } else {
                    fallback
                };
                proof {
                    lemma_bound_inputs_shape(unbound, image_nodes@, fallback, index as int);
                    if image_input_index < index {
                        lemma_image_inputs_lead(unbound, index as int, image_input_index as int);
                    }
                    assert(image_input_index == index);
                }
                operator.set_image_param(index, target);
                image_input_index = image_input_index + 1;
            }
            index = index + 1;
        }
    }

    /// A new operator of kind `key`, its image inputs bound to the
    /// session's operators (see `bind_image_inputs`), with `node_hint`, or
    /// else the session's last operator, or else node `1` as the fallback
    /// input; `None` when the catalogue has no such kind.
    fn make_operator(&self, key: &str, node_hint: Option<NodeId>) -> (res: Option<OperatorNode>)
        ensures
            res is Some == operator_keys().contains(key@),
            res matches Some(op) ==> op == bound_inputs(
                default_operator(key_index(key@).unwrap()),
                self.spec_operator_ids(),
                fallback_node(node_hint, self.spec_operator_ids()),
                default_operator(key_index(key@).unwrap()).param_count() as int,
            ),
    {
        let fallback = match node_hint {
            Some(n) => n,
            None => if self.operator_ids.len() > 0 {
                self.operator_ids[self.operator_ids.len() - 1]
            } else {
                NodeId::new(1)
            },
        };
        let mut operator = create_operator(key)?;
        self.bind_image_inputs(&mut operator, fallback);
        Some(operator)
    }
}

impl Default for EditorSession {
    fn default() -> (res: Self)
        ensures
            res.spec_graph().nodes_view() == Seq::<GraphNode>::empty(),
            res.spec_graph().next_id() == 1,
            res.spec_graph().cache() == Seq::<NodeId>::empty(),
            res.spec_operator_ids() == Seq::<NodeId>::empty(),
    {
        EditorSession::new()
    }
}

/// The input a new operator falls back to: the hint, or else the last
/// operator of the session, or else node `1`.
pub open spec fn fallback_node(node_hint: Option<NodeId>, operator_ids: Seq<NodeId>) -> NodeId {
    match node_hint {
        Some(n) => n,
        None => if operator_ids.len() > 0 { operator_ids.last() } else { NodeId(1) },
    }
}

} // verus!
