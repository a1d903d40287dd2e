//! Cross-references: which code addresses read, write or refer to which
//! classified locations.
//!
//! The references are kept in a directed graph whose nodes are triples of an
//! address, a reference kind and a reference action. An edge runs from the
//! referring code, always the node `(from, Code, Referrer)`, to the node that
//! names the target address together with how it is classified and used.

use petgraph::graphmap::GraphMap;
use petgraph::Directed;
use vstd::prelude::*;

verus! {

/// How a referenced location is classified.
#[derive(Debug, Hash, PartialEq, Eq, Copy, Clone, PartialOrd, Ord, Structural)]
pub enum RefType {
    Code,
    Data,
}

/// What the referring code does with the location.
#[derive(Debug, Hash, PartialEq, Eq, Copy, Clone, PartialOrd, Ord, Structural)]
pub enum RefAction {
    Read,
    Write,
    Referrer,
}

/// A node of the reference graph as the graph stores it: the address, the
/// code of the kind and the code of the action.
pub type Node = (u64, u8, u8);

/// The graph type that holds the references.
pub type XRefGraph = GraphMap<Node, (), Directed>;

/// `petgraph::graphmap::GraphMap`, taken as it is: what a graph holds is
/// known through `graph_edges` alone.
#[verifier::external_type_specification]
#[verifier::external_body]
#[verifier::reject_recursive_types(N)]
#[verifier::reject_recursive_types(E)]
#[verifier::reject_recursive_types(Ty)]
#[verifier::reject_recursive_types(S)]
pub struct ExGraphMap<N, E, Ty, S: std::hash::BuildHasher>(GraphMap<N, E, Ty, S>);

/// `petgraph::Directed`, the marker of graphs whose edges have a direction.
#[verifier::external_type_specification]
#[verifier::external_body]
pub struct ExDirected(Directed);

/// The directed edges that a reference graph holds, as pairs of source and
/// target node.
pub uninterp spec fn graph_edges(g: XRefGraph) -> Set<(Node, Node)>;

/// `GraphMap::new`: a graph without nodes and edges.
#[verifier::external_body]
fn graph_new() -> (g: XRefGraph)
    ensures
        graph_edges(g) == Set::<(Node, Node)>::empty(),
{
    GraphMap::new()
}

/// `GraphMap::add_edge`: afterwards the edge from `a` to `b` is in the graph,
/// once, and every other edge is as it was.
#[verifier::external_body]
fn graph_add_edge(g: &mut XRefGraph, a: Node, b: Node)
    ensures
        graph_edges(*final(g)) == graph_edges(*old(g)).insert((a, b)),
{
    g.add_edge(a, b, ());
}

/// `GraphMap::remove_edge`: afterwards the edge from `a` to `b` is not in the
/// graph, and every other edge is as it was.
#[verifier::external_body]
fn graph_remove_edge(g: &mut XRefGraph, a: Node, b: Node)
    ensures
        graph_edges(*final(g)) == graph_edges(*old(g)).remove((a, b)),
{
    g.remove_edge(a, b);
}

/// `GraphMap::neighbors_directed` with `Incoming`: the sources of the edges
/// that end in `n`, each once, in an order that is left open.
#[verifier::external_body]
fn graph_incoming(g: &XRefGraph, n: Node) -> (sources: Vec<Node>)
    ensures
        sources@.no_duplicates(),
        forall|m: Node| sources@.contains(m) <==> graph_edges(*g).contains((m, n)),
{
    g.neighbors_directed(n, petgraph::Direction::Incoming).collect()
}

/// `GraphMap::all_edges`: every edge of the graph, each once, in an order
/// that is left open.
#[verifier::external_body]
fn graph_all_edges(g: &XRefGraph) -> (edges: Vec<(Node, Node)>)
    ensures
        edges@.no_duplicates(),
        forall|e: (Node, Node)| edges@.contains(e) <==> graph_edges(*g).contains(e),
{
    g.all_edges().map(|(a, b, _)| (a, b)).collect()
}

/// The code under which the graph stores a reference kind.
pub open spec fn kind_code(kind: RefType) -> u8 {
    match kind {
        RefType::Code => 0,
        RefType::Data => 1,
    }
}

/// The code under which the graph stores a reference action.
pub open spec fn action_code(action: RefAction) -> u8 {
    match action {
        RefAction::Read => 0,
        RefAction::Write => 1,
        RefAction::Referrer => 2,
    }
}

/// One cross-reference: the code at `from` performs `action` against the
/// location `to`, classified as `kind`.
#[derive(Debug, PartialEq, Eq, Copy, Clone, Structural)]
pub struct XRef {
    pub from: u64,
    pub kind: RefType,
    pub action: RefAction,
    pub to: u64,
}

/// The node a reference starts from: the referring code.
pub open spec fn source_node(from: u64) -> Node {
    (from, kind_code(RefType::Code), action_code(RefAction::Referrer))
}

/// The node a reference ends in.
pub open spec fn target_node(kind: RefType, action: RefAction, to: u64) -> Node {
    (to, kind_code(kind), action_code(action))
}

/// The graph edge that stores a reference.
pub open spec fn edge_of(x: XRef) -> (Node, Node) {
    (source_node(x.from), target_node(x.kind, x.action, x.to))
}

/// The addresses whose code performs `action` against `to` as `kind`,
/// according to a set of references.
pub open spec fn referrers(refs: Set<XRef>, kind: RefType, action: RefAction, to: u64) -> Set<u64> {
    Set::new(|from: u64| refs.contains(XRef { from, kind, action, to }))
}

/// One change to a set of references: what one call of
/// `insert_from_code` or `delete_from_code` does.
pub enum XRefChange {
    Insert(XRef),
    Delete(XRef),
}

impl XRefChange {
    /// The reference that the change is about.
    pub open spec fn subject(self) -> XRef {
        match self {
            XRefChange::Insert(x) => x,
            XRefChange::Delete(x) => x,
        }
    }
}

/// The references after one change.
pub open spec fn changed(refs: Set<XRef>, change: XRefChange) -> Set<XRef> {
    match change {
        XRefChange::Insert(x) => refs.insert(x),
        XRefChange::Delete(x) => refs.remove(x),
    }
}

/// The references after a sequence of changes, made in order.
pub open spec fn changed_by_all(refs: Set<XRef>, changes: Seq<XRefChange>) -> Set<XRef>
    decreases changes.len(),
{
    if changes.len() == 0 {
        refs
    } else {
        changed(changed_by_all(refs, changes.drop_last()), changes.last())
    }
}

/// The insertion of each reference of a sequence, in order.
pub open spec fn insertions(refs: Seq<XRef>) -> Seq<XRefChange> {
    refs.map_values(|x: XRef| XRefChange::Insert(x))
}

/// The deletion of each reference of a sequence, in order.
pub open spec fn deletions(refs: Seq<XRef>) -> Seq<XRefChange> {
    refs.map_values(|x: XRef| XRefChange::Delete(x))
}

/// After a sequence of insertions the set holds what it held before and
/// what was inserted.
pub proof fn lemma_insertions(refs: Set<XRef>, inserted: Seq<XRef>)
    ensures
        forall|x: XRef|
            changed_by_all(refs, insertions(inserted)).contains(x) <==> refs.contains(x)
                || inserted.contains(x),
    decreases inserted.len(),
{
    if inserted.len() > 0 {
        let rest = inserted.drop_last();
        assert(insertions(inserted).drop_last() =~= insertions(rest));
        lemma_insertions(refs, rest);
        assert forall|x: XRef|
            changed_by_all(refs, insertions(inserted)).contains(x) <==> refs.contains(x)
                || inserted.contains(x) by {
            if inserted.contains(x) {
                let i = choose|i: int| 0 <= i < inserted.len() && inserted[i] == x;
                if i < rest.len() {
                    assert(rest[i] == x);
                }
            }
            if rest.contains(x) {
                let i = choose|i: int| 0 <= i < rest.len() && rest[i] == x;
                assert(inserted[i] == x);
            }
        }
    }
}

/// After a sequence of deletions the set holds what it held before and was
/// not deleted.
pub proof fn lemma_deletions(refs: Set<XRef>, deleted: Seq<XRef>)
    ensures
        forall|x: XRef|
            changed_by_all(refs, deletions(deleted)).contains(x) <==> refs.contains(x)
                && !deleted.contains(x),
    decreases deleted.len(),
{
    if deleted.len() > 0 {
        let rest = deleted.drop_last();
        assert(deletions(deleted).drop_last() =~= deletions(rest));
        lemma_deletions(refs, rest);
        assert forall|x: XRef|
            changed_by_all(refs, deletions(deleted)).contains(x) <==> refs.contains(x)
                && !deleted.contains(x) by {
            if deleted.contains(x) {
                let i = choose|i: int| 0 <= i < deleted.len() && deleted[i] == x;
                if i < rest.len() {
                    assert(rest[i] == x);
                }
            }
            if rest.contains(x) {
                let i = choose|i: int| 0 <= i < rest.len() && rest[i] == x;
                assert(deleted[i] == x);
            }
        }
    }
}

/// Changes made one after the other amount to the changes of the first
/// sequence followed by those of the second.
pub proof fn lemma_changed_by_all_concat(
    refs: Set<XRef>,
    first: Seq<XRefChange>,
    second: Seq<XRefChange>,
)
    ensures
        changed_by_all(refs, first + second) == changed_by_all(
            changed_by_all(refs, first),
            second,
        ),
    decreases second.len(),
{
    if second.len() == 0 {
        assert(first + second =~= first);
    } else {
        assert((first + second).drop_last() =~= first + second.drop_last());
        lemma_changed_by_all_concat(refs, first, second.drop_last());
    }
}

/// Round trip: after any insertions into an empty collection, followed by
/// any deletions, the referrers of a target are exactly the addresses whose
/// reference to it was inserted and not deleted afterwards.
pub proof fn lemma_referrers_after_insertions_and_deletions(
    inserted: Seq<XRef>,
    deleted: Seq<XRef>,
    kind: RefType,
    action: RefAction,
    to: u64,
)
    ensures
        referrers(
            changed_by_all(Set::empty(), insertions(inserted) + deletions(deleted)),
            kind,
            action,
            to,
        ) == Set::new(
            |from: u64|
                inserted.contains(XRef { from, kind, action, to }) && !deleted.contains(
                    XRef { from, kind, action, to },
                ),
        ),
{
    let after_insertions = changed_by_all(Set::empty(), insertions(inserted));
    lemma_changed_by_all_concat(Set::empty(), insertions(inserted), deletions(deleted));
    lemma_insertions(Set::empty(), inserted);
    lemma_deletions(after_insertions, deleted);
    assert(referrers(
        changed_by_all(Set::empty(), insertions(inserted) + deletions(deleted)),
        kind,
        action,
        to,
    ) =~= Set::new(
        |from: u64|
            inserted.contains(XRef { from, kind, action, to }) && !deleted.contains(
                XRef { from, kind, action, to },
            ),
    ));
}

/// Changes to different references can be made in either order.
pub proof fn lemma_changes_to_different_references_commute(
    refs: Set<XRef>,
    a: XRefChange,
    b: XRefChange,
)
    requires
        a.subject() != b.subject(),
    ensures
        changed(changed(refs, a), b) == changed(changed(refs, b), a),
{
    assert(changed(changed(refs, a), b) =~= changed(changed(refs, b), a));
}

fn encode_kind(kind: RefType) -> (code: u8)
    ensures
        code == kind_code(kind),
{
    match kind {
        RefType::Code => 0,
        RefType::Data => 1,
    }
}

fn encode_action(action: RefAction) -> (code: u8)
    ensures
        code == action_code(action),
{
    match action {
        RefAction::Read => 0,
        RefAction::Write => 1,
        RefAction::Referrer => 2,
    }
}

fn decode_kind(code: u8) -> (kind: Option<RefType>)
    ensures
        match kind {
            Some(k) => kind_code(k) == code,
            None => forall|k: RefType| kind_code(k) != code,
        },
{
    if code == 0 {
        Some(RefType::Code)
    } else if code == 1 {
        Some(RefType::Data)
    } else {
        None
    }
}

fn decode_action(code: u8) -> (action: Option<RefAction>)
    ensures
        match action {
            Some(a) => action_code(a) == code,
            None => forall|a: RefAction| action_code(a) != code,
        },
{
    if code == 0 {
        Some(RefAction::Read)
    } else if code == 1 {
        Some(RefAction::Write)
    } else if code == 2 {
        Some(RefAction::Referrer)
    } else {
        None
    }
}

/// The cross-references of one address space.
pub struct XRefCollection {
    xrefs: XRefGraph,
}

impl View for XRefCollection {
    type V = Set<XRef>;

    /// The references that the collection holds.
    closed spec fn view(&self) -> Set<XRef> {
        Set::new(|x: XRef| graph_edges(self.xrefs).contains(edge_of(x)))
    }
}

impl XRefCollection {
    /// Every edge of the graph stores a reference: it starts at a node of
    /// kind `Code` and action `Referrer` and ends in a node with a valid kind
    /// and action. Nothing but `insert_from_code` adds an edge, so this holds
    /// of every collection.
    #[verifier::type_invariant]
    spec fn wf(&self) -> bool {
        forall|e: (Node, Node)| #[trigger]
            graph_edges(self.xrefs).contains(e) ==> exists|x: XRef| edge_of(x) == e
    }

    /// The edges of the graph, each as its source and its target node.
    pub closed spec fn edges(&self) -> Set<(Node, Node)> {
        graph_edges(self.xrefs)
    }

    /// Every edge starts at the node of some referring code and is the edge
    /// of a reference in the view.
    proof fn lemma_edges_are_references(&self, e: (Node, Node))
        requires
            self.wf(),
            self.edges().contains(e),
        ensures
            e.0.1 == kind_code(RefType::Code),
            e.0.2 == action_code(RefAction::Referrer),
            exists|x: XRef| self@.contains(x) && edge_of(x) == e,
    {
        let x = choose|x: XRef| edge_of(x) == e;
        assert(self@.contains(x) && edge_of(x) == e);
    }

    /// An empty collection.
    pub fn new() -> (c: XRefCollection)
        ensures
            c@ == Set::<XRef>::empty(),
            c.edges() == Set::<(Node, Node)>::empty(),
    {
        let c = XRefCollection { xrefs: graph_new() };
        assert(c@ =~= Set::<XRef>::empty());
        c
    }

    /// Every reference of the collection, each once, in an order that callers
    /// must not rely on. The references account for the whole graph: it has
    /// no edge but those that store them, each from a node of kind `Code` and
    /// action `Referrer`.
    pub fn references(&self) -> (result: Vec<XRef>)
        ensures
            result@.no_duplicates(),
            result@.to_set() == self@,
            forall|e: (Node, Node)| #[trigger]
                self.edges().contains(e) ==> exists|x: XRef|
                    result@.contains(x) && edge_of(x) == e,
    {
        proof {
            use_type_invariant(self);
        }
        let edges = graph_all_edges(&self.xrefs);
        let mut result: Vec<XRef> = Vec::new();
        let mut i: usize = 0;
        while i < edges.len()
            invariant
                i <= edges.len(),
                self.wf(),
                edges@.no_duplicates(),
                forall|e: (Node, Node)| edges@.contains(e) <==> graph_edges(self.xrefs).contains(e),
                result@.len() == i,
                forall|j: int| 0 <= j < i ==> edge_of(#[trigger] result@[j]) == edges@[j],
            decreases edges.len() - i,
        {
            let (source, target) = edges[i];
            proof {
                assert(edges@.contains(edges@[i as int]));
                self.lemma_edges_are_references(edges@[i as int]);
            }
            let kind = decode_kind(target.1);
            let action = decode_action(target.2);
            match (kind, action) {
                (Some(kind), Some(action)) => {
                    result.push(XRef { from: source.0, kind, action, to: target.0 });
                },
                _ => {
                    // Every edge stores a reference, so its codes decode.
                    proof {
                        let x = choose|x: XRef| edge_of(x) == edges@[i as int];
                        assert(kind_code(x.kind) == target.1);
                        assert(action_code(x.action) == target.2);
                        assert(false);
                    }
                },
            }
            i += 1;
        }
        proof {
            assert forall|j: int, k: int|
                0 <= j < result@.len() && 0 <= k < result@.len() && j != k implies result@[j]
                != result@[k] by {
                assert(edge_of(result@[j]) == edges@[j]);
                assert(edge_of(result@[k]) == edges@[k]);
            }
            assert forall|x: XRef| result@.to_set().contains(x) == self@.contains(x) by {
                if result@.contains(x) {
                    let j = choose|j: int| 0 <= j < result@.len() && result@[j] == x;
                    assert(edge_of(result@[j]) == edges@[j]);
                    assert(edges@.contains(edges@[j]));
                }
                if self@.contains(x) {
                    assert(edges@.contains(edge_of(x)));
                    let j = choose|j: int| 0 <= j < edges@.len() && edges@[j] == edge_of(x);
                    assert(edge_of(result@[j]) == edge_of(x));
                    assert(result@[j] == x);
                }
            }
            assert(result@.to_set() =~= self@);
            assert forall|e: (Node, Node)| #[trigger] self.edges().contains(e) implies exists|
                x: XRef,
            |
                result@.contains(x) && edge_of(x) == e by {
                self.lemma_edges_are_references(e);
                let x = choose|x: XRef| self@.contains(x) && edge_of(x) == e;
                assert(result@.to_set().contains(x));
            }
        }
        result
    }

    /// Records that the code at `from` performs `action` against `to`,
    /// classified as `tpe`. Recording a reference twice changes nothing.
    pub fn insert_from_code(&mut self, tpe: RefType, action: RefAction, from: u64, to: u64)
        ensures
            final(self)@ == old(self)@.insert(XRef { from, kind: tpe, action, to }),
            final(self).edges() == old(self).edges().insert(
                edge_of(XRef { from, kind: tpe, action, to }),
            ),
    {
        proof {
            use_type_invariant(&*self);
        }
        let ghost x = XRef { from, kind: tpe, action, to };
        let source = (from, encode_kind(RefType::Code), encode_action(RefAction::Referrer));
        let target = (to, encode_kind(tpe), encode_action(action));
        let mut graph = graph_new();
        std::mem::swap(&mut graph, &mut self.xrefs);
        graph_add_edge(&mut graph, source, target);
        proof {
            assert((source, target) == edge_of(x));
            assert forall|e: (Node, Node)| #[trigger] graph_edges(graph).contains(e) implies exists|
                y: XRef,
            |
                edge_of(y) == e by {
                if e != (source, target) {
                    assert(graph_edges(old(self).xrefs).contains(e));
                }
            }
        }
        self.xrefs = graph;
        proof {
            assert forall|y: XRef| self@.contains(y) == old(self)@.insert(x).contains(y) by {
                if edge_of(y) == edge_of(x) {
                    assert(y == x);
                }
            }
            assert(self@ =~= old(self)@.insert(x));
        }
    }

    /// Forgets that the code at `from` performs `action` against `to`,
    /// classified as `tpe`. Nothing changes if no such reference is recorded.
    pub fn delete_from_code(&mut self, tpe: RefType, action: RefAction, from: u64, to: u64)
        ensures
            final(self)@ == old(self)@.remove(XRef { from, kind: tpe, action, to }),
            final(self).edges() == old(self).edges().remove(
                edge_of(XRef { from, kind: tpe, action, to }),
            ),
    {
        proof {
            use_type_invariant(&*self);
        }
        let ghost x = XRef { from, kind: tpe, action, to };
        let source = (from, encode_kind(RefType::Code), encode_action(RefAction::Referrer));
        let target = (to, encode_kind(tpe), encode_action(action));
        let mut graph = graph_new();
        std::mem::swap(&mut graph, &mut self.xrefs);
        graph_remove_edge(&mut graph, source, target);
        proof {
            assert((source, target) == edge_of(x));
            assert forall|e: (Node, Node)| #[trigger] graph_edges(graph).contains(e) implies exists|
                y: XRef,
            |
                edge_of(y) == e by {
                assert(graph_edges(old(self).xrefs).contains(e));
            }
        }
        self.xrefs = graph;
        proof {
            assert forall|y: XRef| self@.contains(y) == old(self)@.remove(x).contains(y) by {
                if edge_of(y) == edge_of(x) {
                    assert(y == x);
                }
            }
            assert(self@ =~= old(self)@.remove(x));
        }
    }

    /// The addresses whose code performs `action` against `to`, classified as
    /// `tpe`: each once, in an order that callers must not rely on.
    pub fn code_references_to(&self, tpe: RefType, action: RefAction, to: u64) -> (result: Vec<u64>)
        ensures
            result@.no_duplicates(),
            result@.to_set() == referrers(self@, tpe, action, to),
    {
        let target = (to, encode_kind(tpe), encode_action(action));
        let code = encode_kind(RefType::Code);
        let referrer = encode_action(RefAction::Referrer);
        let sources = graph_incoming(&self.xrefs, target);
        let mut result: Vec<u64> = Vec::new();
        let mut i: usize = 0;
        while i < sources.len()
            invariant
                i <= sources.len(),
                code == kind_code(RefType::Code),
                referrer == action_code(RefAction::Referrer),
                sources@.no_duplicates(),
                result@.no_duplicates(),
                forall|a: u64| #[trigger]
                    result@.contains(a) <==> exists|j: int|
                        0 <= j < i && sources@[j] == (a, code, referrer),
            decreases sources.len() - i,
        {
            let neighbor = sources[i];
            if neighbor.1 == code && neighbor.2 == referrer {
                let ghost before = result@;
                proof {
                    if before.contains(neighbor.0) {
                        let j = choose|j: int| 0 <= j < i && sources@[j] == (neighbor.0, code, referrer);
                        assert(sources@[j] == sources@[i as int]);
                    }
                }
                result.push(neighbor.0);
                proof {
                    assert forall|a: u64| #[trigger]
                        result@.contains(a) <==> exists|j: int|
                            0 <= j < i + 1 && sources@[j] == (a, code, referrer) by {
                        if result@.contains(a) {
                            let k = choose|k: int| 0 <= k < result@.len() && result@[k] == a;
                            if k < before.len() {
                                assert(before.contains(a));
                            } else {
                                assert(sources@[i as int] == (a, code, referrer));
                            }
                        }
                        if exists|j: int| 0 <= j < i + 1 && sources@[j] == (a, code, referrer) {
                            let j = choose|j: int| 0 <= j < i + 1 && sources@[j] == (a, code, referrer);
                            if j < i {
                                assert(before.contains(a));
                                let k = choose|k: int| 0 <= k < before.len() && before[k] == a;
                                assert(result@[k] == a);
                            } else {
                                assert(result@[before.len() as int] == a);
                            }
                        }
                    }
                }
            }
            i += 1;
        }
        proof {
            assert forall|a: u64| result@.to_set().contains(a) == referrers(self@, tpe, action, to).contains(a) by {
                let x = XRef { from: a, kind: tpe, action, to };
                assert(edge_of(x) == ((a, code, referrer), target));
                if result@.contains(a) {
                    let j = choose|j: int| 0 <= j < i && sources@[j] == (a, code, referrer);
                    assert(sources@.contains((a, code, referrer)));
                }
                if self@.contains(x) {
                    assert(sources@.contains((a, code, referrer)));
                    let j = choose|j: int| 0 <= j < sources@.len() && sources@[j] == (a, code, referrer);
                    assert(0 <= j < i && sources@[j] == (a, code, referrer));
                }
            }
            assert(result@.to_set() =~= referrers(self@, tpe, action, to));
        }
        result
    }
}

impl Default for XRefCollection {
    /// An empty collection.
    fn default() -> (c: XRefCollection)
        ensures
            c@ == Set::<XRef>::empty(),
            c.edges() == Set::<(Node, Node)>::empty(),
    {
        XRefCollection::new()
    }
}

} // verus!
