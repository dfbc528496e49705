//! The frozen entity graph that rendering consults.
//!
//! Nodes live in an arena and are named by their position in it. An edge
//! joins a callable to an entity that its signature refers to; the edges are
//! not directed.

use vstd::prelude::*;
use vstd::string::*;
use crate::entity::{PgExternEntity, PgExternReturnEntity, SqlGraphEntity};
use crate::error::{ErrorKind, SqlError};
use crate::text::{collect, lemma_collect_all, lemma_collect_fails, opt_view};

verus! {

/// Everything that rendering needs besides the entity itself.
#[derive(Clone, Debug)]
pub struct PgxSql {
    /// The namespace that needs no qualification.
    pub default_schema: String,
    /// What `AS` names as the file of the compiled functions.
    pub module_pathname: String,
    /// The identity of the type that stands for the database's untyped `internal`.
    pub internal_type: u64,
    pub nodes: Vec<SqlGraphEntity>,
    pub edges: Vec<(usize, usize)>,
}

/// Which kind of node a lookup accepts. A reference is looked up first among
/// the types, then among the enums, then among the built-in types.
#[derive(Clone, Copy, Debug, PartialEq, Eq, Structural)]
pub enum NodeKind {
    Type,
    Enum,
    BuiltinType,
}

/// The ends of the edges at `n`, in the order of the edges.
pub open spec fn neighbors_of(edges: Seq<(usize, usize)>, n: usize) -> Seq<usize>
    decreases edges.len(),
{
    if edges.len() == 0 {
        Seq::empty()
    } else {
        let e = edges.last();
        let before = neighbors_of(edges.drop_last(), n);
        if e.0 == n {
            before.push(e.1)
        } else if e.1 == n {
            before.push(e.0)
        } else {
            before
        }
    }
}

/// Whether `node` is of kind `kind` and is what `id` or `name` refers to:
/// a type or an enum by the identity, a built-in type by the name.
pub open spec fn node_matches(node: SqlGraphEntity, kind: NodeKind, id: u64, name: Seq<char>) -> bool {
    match node {
        SqlGraphEntity::Type(t) => kind == NodeKind::Type && t.spec_id_matches(id),
        SqlGraphEntity::Enum(e) => kind == NodeKind::Enum && e.spec_id_matches(id),
        SqlGraphEntity::BuiltinType(b) => kind == NodeKind::BuiltinType && b@ == name,
        _ => false,
    }
}

/// The first of `among` that names a node of `nodes` which matches.
pub open spec fn first_match(
    nodes: Seq<SqlGraphEntity>,
    among: Seq<usize>,
    kind: NodeKind,
    id: u64,
    name: Seq<char>,
) -> Option<usize>
    decreases among.len(),
{
    if among.len() == 0 {
        None
    } else if among[0] < nodes.len() && node_matches(nodes[among[0] as int], kind, id, name) {
        Some(among[0])
    } else {
        first_match(nodes, among.drop_first(), kind, id, name)
    }
}

/// The node among `among` that a type reference resolves to.
pub open spec fn resolve_among(
    nodes: Seq<SqlGraphEntity>,
    among: Seq<usize>,
    id: u64,
    name: Seq<char>,
) -> Option<usize> {
    if first_match(nodes, among, NodeKind::Type, id, name) is Some {
        first_match(nodes, among, NodeKind::Type, id, name)
    } else if first_match(nodes, among, NodeKind::Enum, id, name) is Some {
        first_match(nodes, among, NodeKind::Enum, id, name)
    } else {
        first_match(nodes, among, NodeKind::BuiltinType, id, name)
    }
}

/// The namespace that a node was declared in, if it was declared in one.
pub open spec fn declared_schema(node: SqlGraphEntity) -> Option<Seq<char>> {
    match node {
        SqlGraphEntity::Function(f) => opt_view(f.schema),
        SqlGraphEntity::Type(t) => opt_view(t.schema),
        SqlGraphEntity::Enum(e) => opt_view(e.schema),
        _ => None,
    }
}

/// What is written before the name of an entity declared in `schema`:
/// nothing in the default namespace, else the namespace and a dot.
pub open spec fn schema_prefix(schema: Option<Seq<char>>, default_schema: Seq<char>) -> Seq<char> {
    match schema {
        Some(s) => if s == default_schema {
            Seq::empty()
        } else {
            s + "."@
        },
        None => Seq::empty(),
    }
}

/// The identity of a callable: its path and the identities of its argument types.
pub open spec fn signature_key(f: PgExternEntity) -> (Seq<char>, Seq<u64>) {
    (f.metadata.path@, Seq::new(f.fn_args@.len(), |i: int| f.fn_args@[i].type_id))
}

/// The first node at or after `from` that holds a function with the signature of `f`.
pub open spec fn index_from(nodes: Seq<SqlGraphEntity>, f: PgExternEntity, from: int) -> Option<usize>
    decreases nodes.len() - from,
{
    if from < 0 || from >= nodes.len() {
        None
    } else if nodes[from] matches SqlGraphEntity::Function(g) && signature_key(g) == signature_key(f) {
        Some(from as usize)
    } else {
        index_from(nodes, f, from + 1)
    }
}

/// The names of the first `n` nodes.
pub open spec fn all_nodes(n: nat) -> Seq<usize> {
    Seq::new(n, |i: int| i as usize)
}

/// The types that a return shape refers to, each by identity and name.
pub open spec fn return_references(r: PgExternReturnEntity) -> Seq<(u64, Seq<char>)> {
    match r {
        PgExternReturnEntity::Type { ty } => seq![(ty.ty_id, ty.full_path@)],
        PgExternReturnEntity::SetOf { ty } => seq![(ty.ty_id, ty.full_path@)],
        PgExternReturnEntity::Iterated(items) => Seq::new(
            items@.len(),
            |i: int| (items@[i].ty.ty_id, items@[i].ty.full_path@),
        ),
        _ => Seq::empty(),
    }
}

/// The types that a function refers to: those of its arguments, then those
/// of its return shape.
pub open spec fn references(f: PgExternEntity) -> Seq<(u64, Seq<char>)> {
    Seq::new(f.fn_args@.len(), |i: int| (f.fn_args@[i].type_id, f.fn_args@[i].full_path@)) + return_references(
        f.fn_return,
    )
}

/// The edge from node `from` for one reference: to the node that the
/// reference resolves to among all the nodes.
pub open spec fn edge_attempt(nodes: Seq<SqlGraphEntity>, from: usize, reference: (u64, Seq<char>)) -> Result<
    Option<(usize, usize)>,
    ErrorKind,
> {
    match resolve_among(nodes, all_nodes(nodes.len()), reference.0, reference.1) {
        Some(to) => Ok(Some((from, to))),
        None => Err(ErrorKind::UnresolvedTypeReference),
    }
}

/// The edges from the function `f` at node `from`, one for each reference.
pub open spec fn function_edges(nodes: Seq<SqlGraphEntity>, from: usize, f: PgExternEntity) -> Result<
    Seq<(usize, usize)>,
    ErrorKind,
> {
    collect(Seq::new(references(f).len(), |k: int| edge_attempt(nodes, from, references(f)[k])))
}

/// The edges from the first `n` nodes, or the first node with a reference
/// that does not resolve.
pub open spec fn graph_edges(nodes: Seq<SqlGraphEntity>, n: nat) -> Result<Seq<(usize, usize)>, usize>
    decreases n,
{
    if n == 0 || n > nodes.len() {
        Ok(Seq::empty())
    } else {
        match graph_edges(nodes, (n - 1) as nat) {
            Err(at) => Err(at),
            Ok(edges) => match nodes[n - 1] {
                SqlGraphEntity::Function(f) => match function_edges(nodes, (n - 1) as usize, f) {
                    Ok(more) => Ok(edges + more),
                    Err(_) => Err((n - 1) as usize),
                },
                _ => Ok(edges),
            },
        }
    }
}

/// A node with a failing reference among the first `n` is the failure of every longer run.
pub proof fn lemma_graph_edges_fail(nodes: Seq<SqlGraphEntity>, n: nat, m: nat)
    requires
        n <= m <= nodes.len(),
        graph_edges(nodes, n) is Err,
    ensures
        graph_edges(nodes, m) == graph_edges(nodes, n),
    decreases m - n,
{
    if n < m {
        lemma_graph_edges_fail(nodes, n, (m - 1) as nat);
    }
}

/// The end of every edge at `n` is among the neighbours of `n`.
pub proof fn lemma_neighbors_hold_edges(edges: Seq<(usize, usize)>, n: usize, j: int)
    requires
        0 <= j < edges.len(),
        edges[j].0 == n,
    ensures
        neighbors_of(edges, n).contains(edges[j].1),
    decreases edges.len(),
{
    let before = neighbors_of(edges.drop_last(), n);
    if j == edges.len() - 1 {
        assert(before.push(edges[j].1)[before.len() as int] == edges[j].1);
    } else {
        lemma_neighbors_hold_edges(edges.drop_last(), n, j);
        let at = choose|at: int| 0 <= at < before.len() && before[at] == edges[j].1;
        let all = neighbors_of(edges, n);
        assert(all[at] == edges[j].1);
    }
}

/// The edges of the first `n` nodes are the first of the edges of every longer run.
pub proof fn lemma_graph_edges_grow(nodes: Seq<SqlGraphEntity>, n: nat, m: nat)
    requires
        n <= m <= nodes.len(),
        graph_edges(nodes, m) is Ok,
    ensures
        graph_edges(nodes, n) is Ok,
        graph_edges(nodes, n)->Ok_0.is_prefix_of(graph_edges(nodes, m)->Ok_0),
    decreases m - n,
{
    if n < m {
        lemma_graph_edges_grow(nodes, n, (m - 1) as nat);
    }
}

/// In a graph that was built, every type that a function refers to
/// resolves among the neighbours of the function.
pub proof fn lemma_built_graph_resolves(nodes: Seq<SqlGraphEntity>, at: usize, k: int)
    requires
        graph_edges(nodes, nodes.len()) is Ok,
        at < nodes.len(),
        nodes[at as int] is Function,
        0 <= k < references(nodes[at as int]->Function_0).len(),
    ensures
        resolve_among(
            nodes,
            neighbors_of(graph_edges(nodes, nodes.len())->Ok_0, at),
            references(nodes[at as int]->Function_0)[k].0,
            references(nodes[at as int]->Function_0)[k].1,
        ) is Some,
{
    let f = nodes[at as int]->Function_0;
    let refs = references(f);
    let edges = graph_edges(nodes, nodes.len())->Ok_0;
    let (id, name) = refs[k];
    lemma_graph_edges_grow(nodes, (at + 1) as nat, nodes.len());
    lemma_graph_edges_grow(nodes, at as nat, (at + 1) as nat);
    let before = graph_edges(nodes, at as nat)->Ok_0;
    let upto = graph_edges(nodes, (at + 1) as nat)->Ok_0;
    let attempts = Seq::new(refs.len(), |j: int| edge_attempt(nodes, at, refs[j]));
    assert(function_edges(nodes, at, f) is Ok);
    let more = function_edges(nodes, at, f)->Ok_0;
    assert(upto == before + more);
    if exists|j: int| 0 <= j < attempts.len() && !(#[trigger] attempts[j] matches Ok(Some(_))) {
        let j = choose|j: int| 0 <= j < attempts.len() && !(#[trigger] attempts[j] matches Ok(Some(_)));
        assert(attempts[j] == edge_attempt(nodes, at, refs[j]));
        assert(attempts[j] is Err);
        assert(attempts.take(j + 1).drop_last() == attempts.take(j));
        assert(attempts.take(j + 1).last() == attempts[j]);
        assert(collect(attempts.take(j + 1)) is Err);
        lemma_collect_fails(attempts, j + 1);
        assert(false);
    }
    lemma_collect_all(attempts);
    assert(attempts[k] == edge_attempt(nodes, at, refs[k]));
    let all = all_nodes(nodes.len());
    let to = resolve_among(nodes, all, id, name)->Some_0;
    assert(more[k] == (at, to));
    assert(upto[before.len() + k] == more[k]);
    assert(edges[before.len() + k] == (at, to));
    lemma_neighbors_hold_edges(edges, at, before.len() + k);
    let among = neighbors_of(edges, at);
    let j = choose|j: int| 0 <= j < among.len() && among[j] == to;
    lemma_resolved_is_a_node(nodes, all, id, name);
    lemma_first_match(nodes, among, NodeKind::Type, id, name);
    lemma_first_match(nodes, among, NodeKind::Enum, id, name);
    lemma_first_match(nodes, among, NodeKind::BuiltinType, id, name);
    assert(among[j] < nodes.len());
}

/// What a reference resolves to is one of `among`, a node of the graph, and
/// a type, an enum or a built-in type that the reference matches.
pub proof fn lemma_resolved_is_a_node(nodes: Seq<SqlGraphEntity>, among: Seq<usize>, id: u64, name: Seq<char>)
    ensures
        resolve_among(nodes, among, id, name) matches Some(n) ==> among.contains(n) && n < nodes.len() && (
        node_matches(nodes[n as int], NodeKind::Type, id, name) || node_matches(
            nodes[n as int],
            NodeKind::Enum,
            id,
            name,
        ) || node_matches(nodes[n as int], NodeKind::BuiltinType, id, name)),
{
    lemma_first_match(nodes, among, NodeKind::Type, id, name);
    lemma_first_match(nodes, among, NodeKind::Enum, id, name);
    lemma_first_match(nodes, among, NodeKind::BuiltinType, id, name);
}

/// What a lookup finds is the first of `among` that matches; it finds
/// nothing only if none matches.
pub proof fn lemma_first_match(
    nodes: Seq<SqlGraphEntity>,
    among: Seq<usize>,
    kind: NodeKind,
    id: u64,
    name: Seq<char>,
)
    ensures
        match first_match(nodes, among, kind, id, name) {
            Some(n) => among.contains(n) && n < nodes.len() && node_matches(nodes[n as int], kind, id, name),
            None => forall|k: int|
                0 <= k < among.len() ==> !(#[trigger] among[k] < nodes.len() && node_matches(
                    nodes[among[k] as int],
                    kind,
                    id,
                    name,
                )),
        },
    decreases among.len(),
{
    if among.len() > 0 {
        lemma_first_match(nodes, among.drop_first(), kind, id, name);
        if among[0] < nodes.len() && node_matches(nodes[among[0] as int], kind, id, name) {
        } else {
            match first_match(nodes, among.drop_first(), kind, id, name) {
                Some(n) => {
                    let k = choose|k: int| 0 <= k < among.drop_first().len() && among.drop_first()[k] == n;
                    assert(among[k + 1] == n);
                },
                None => {
                    assert forall|k: int| 0 <= k < among.len() implies !(#[trigger] among[k] < nodes.len()
                        && node_matches(nodes[among[k] as int], kind, id, name)) by {
                        if k > 0 {
                            assert(among.drop_first()[k - 1] == among[k]);
                        }
                    }
                },
            }
        }
    }
}

/// Writes the qualification for `schema`.
pub fn schema_prefix_of(schema: &Option<String>, default_schema: &String) -> (out: String)
    ensures
        out@ == schema_prefix(opt_view(*schema), default_schema@),
{
    match schema {
        Some(s) => {
            if *s == *default_schema {
                String::new()
            } else {
                let mut out = s.clone();
                out.append(".");
                out
            }
        },
        None => String::new(),
    }
}

/// Whether two callables have the same identity.
pub fn same_signature(f: &PgExternEntity, g: &PgExternEntity) -> (b: bool)
    ensures
        b == (signature_key(*f) == signature_key(*g)),
{
    if f.metadata.path != g.metadata.path {
        return false;
    }
    if f.fn_args.len() != g.fn_args.len() {
        proof {
            assert(signature_key(*f).1.len() != signature_key(*g).1.len());
        }
        return false;
    }
    let mut i: usize = 0;
    while i < f.fn_args.len()
        invariant
            i <= f.fn_args.len(),
            f.fn_args.len() == g.fn_args.len(),
            forall|k: int| 0 <= k < i ==> f.fn_args[k].type_id == g.fn_args[k].type_id,
        decreases f.fn_args.len() - i,
    {
        if f.fn_args[i].type_id != g.fn_args[i].type_id {
            proof {
                assert(signature_key(*f).1[i as int] != signature_key(*g).1[i as int]);
            }
            return false;
        }
        i = i + 1;
    }
    proof {
        assert(signature_key(*f).1 =~= signature_key(*g).1);
    }
    true
}

impl PgxSql {
    /// The nodes joined to node `n` by an edge.
    pub open spec fn spec_neighbors(self, n: usize) -> Seq<usize> {
        neighbors_of(self.edges@, n)
    }

    /// The nodes joined to the node of `f`; none where `f` is not in the graph.
    pub open spec fn spec_neighbors_of(self, f: PgExternEntity) -> Seq<usize> {
        match index_from(self.nodes@, f, 0) {
            Some(n) => self.spec_neighbors(n),
            None => Seq::empty(),
        }
    }

    /// The qualification of the node at `index`; empty where there is no such node.
    pub open spec fn spec_schema_prefix_for(self, index: usize) -> Seq<char> {
        if index < self.nodes.len() {
            schema_prefix(declared_schema(self.nodes[index as int]), self.default_schema@)
        } else {
            Seq::empty()
        }
    }

    pub fn get_module_pathname(&self) -> (out: String)
        ensures
            out@ == self.module_pathname@,
    {
        self.module_pathname.clone()
    }

    /// The node that holds a function with the signature of `f`.
    pub fn index_of(&self, f: &PgExternEntity) -> (r: Option<usize>)
        ensures
            r == index_from(self.nodes@, *f, 0),
    {
        let mut i: usize = 0;
        while i < self.nodes.len()
            invariant
                i <= self.nodes.len(),
                index_from(self.nodes@, *f, 0) == index_from(self.nodes@, *f, i as int),
            decreases self.nodes.len() - i,
        {
            match &self.nodes[i] {
                SqlGraphEntity::Function(g) => {
                    if same_signature(g, f) {
                        return Some(i);
                    }
                },
                _ => {},
            }
            i = i + 1;
        }
        None
    }

    /// The nodes joined to node `n` by an edge, in the order of the edges.
    pub fn neighbors_undirected(&self, n: usize) -> (out: Vec<usize>)
        ensures
            out@ == self.spec_neighbors(n),
    {
        let mut out: Vec<usize> = Vec::new();
        let mut i: usize = 0;
        while i < self.edges.len()
            invariant
                i <= self.edges.len(),
                out@ == neighbors_of(self.edges@.take(i as int), n),
            decreases self.edges.len() - i,
        {
            proof {
                assert(self.edges@.take(i + 1).drop_last() == self.edges@.take(i as int));
            }
            let e = self.edges[i];
            if e.0 == n {
                out.push(e.1);
            } else if e.1 == n {
                out.push(e.0);
            }
            i = i + 1;
        }
        proof {
            assert(self.edges@.take(self.edges.len() as int) == self.edges@);
        }
        out
    }

    /// The nodes joined to the node of `f`.
    pub fn neighbors_of_entity(&self, f: &PgExternEntity) -> (out: Vec<usize>)
        ensures
            out@ == self.spec_neighbors_of(*f),
    {
        match self.index_of(f) {
            Some(n) => self.neighbors_undirected(n),
            None => Vec::new(),
        }
    }

    /// Whether the node at `index` is of kind `kind` and is what `id` or `name` refers to.
    pub fn matches_at(&self, index: usize, kind: NodeKind, id: u64, name: &String) -> (b: bool)
        ensures
            b == (index < self.nodes.len() && node_matches(self.nodes[index as int], kind, id, name@)),
    {
        if index >= self.nodes.len() {
            return false;
        }
        match &self.nodes[index] {
            SqlGraphEntity::Type(t) => kind == NodeKind::Type && t.id_matches(id),
            SqlGraphEntity::Enum(e) => kind == NodeKind::Enum && e.id_matches(id),
            SqlGraphEntity::BuiltinType(b) => kind == NodeKind::BuiltinType && *b == *name,
            _ => false,
        }
    }

    /// The first of `among` that names a node of kind `kind` which matches.
    pub fn find_first(&self, among: &Vec<usize>, kind: NodeKind, id: u64, name: &String) -> (r: Option<usize>)
        ensures
            r == first_match(self.nodes@, among@, kind, id, name@),
            r matches Some(n) ==> n < self.nodes.len(),
    {
        let mut i: usize = 0;
        proof {
            assert(among@.skip(0) == among@);
        }
        while i < among.len()
            invariant
                i <= among.len(),
                first_match(self.nodes@, among@, kind, id, name@) == first_match(
                    self.nodes@,
                    among@.skip(i as int),
                    kind,
                    id,
                    name@,
                ),
            decreases among.len() - i,
        {
            proof {
                assert(among@.skip(i as int).drop_first() == among@.skip(i + 1));
            }
            if self.matches_at(among[i], kind, id, name) {
                return Some(among[i]);
            }
            i = i + 1;
        }
        None
    }

    /// Resolves a type reference among the nodes `among`: by identity among
    /// the types, then by identity among the enums, then by name among the
    /// built-in types.
    pub fn resolve(&self, among: &Vec<usize>, id: u64, name: &String) -> (r: Result<usize, ErrorKind>)
        ensures
            match resolve_among(self.nodes@, among@, id, name@) {
                Some(n) => r == Ok::<usize, ErrorKind>(n) && n < self.nodes.len(),
                None => r == Err::<usize, ErrorKind>(ErrorKind::UnresolvedTypeReference),
            },
    {
        match self.find_first(among, NodeKind::Type, id, name) {
            Some(n) => Ok(n),
            None => match self.find_first(among, NodeKind::Enum, id, name) {
                Some(n) => Ok(n),
                None => match self.find_first(among, NodeKind::BuiltinType, id, name) {
                    Some(n) => Ok(n),
                    None => Err(ErrorKind::UnresolvedTypeReference),
                },
            },
        }
    }

    /// Finds the edges from the function `f` at node `from`: one to the
    /// node of each type that `f` refers to.
    fn connect(&self, all: &Vec<usize>, from: usize, f: &PgExternEntity) -> (r: Result<
        Vec<(usize, usize)>,
        ErrorKind,
    >)
        requires
            all@ == all_nodes(self.nodes@.len()),
        ensures
            match function_edges(self.nodes@, from, *f) {
                Ok(edges) => r matches Ok(found) && found@ == edges,
                Err(e) => r matches Err(k) && k == e,
            },
    {
        let ghost refs = references(*f);
        let ghost attempts = Seq::new(refs.len(), |k: int| edge_attempt(self.nodes@, from, refs[k]));
        let mut edges: Vec<(usize, usize)> = Vec::new();
        let mut i: usize = 0;
        while i < f.fn_args.len()
            invariant
                i <= f.fn_args.len(),
                all@ == all_nodes(self.nodes@.len()),
                refs == references(*f),
                attempts == Seq::new(refs.len(), |k: int| edge_attempt(self.nodes@, from, refs[k])),
                collect(attempts.take(i as int)) matches Ok(found) && found == edges@,
            decreases f.fn_args.len() - i,
        {
            proof {
                assert(attempts.take(i + 1).drop_last() == attempts.take(i as int));
                assert(refs[i as int] == (f.fn_args@[i as int].type_id, f.fn_args@[i as int].full_path@));
            }
            match self.resolve(all, f.fn_args[i].type_id, &f.fn_args[i].full_path) {
                Ok(to) => {
                    edges.push((from, to));
                },
                Err(e) => {
                    proof {
                        lemma_collect_fails(attempts, i + 1);
                    }
                    return Err(e);
                },
            }
            i = i + 1;
        }
        let ghost n = f.fn_args@.len() as int;
        match &f.fn_return {
            PgExternReturnEntity::Type { ty } => {
                proof {
                    assert(attempts.take(n + 1).drop_last() == attempts.take(n));
                    assert(refs[n] == (ty.ty_id, ty.full_path@));
                    assert(attempts.take(n + 1) == attempts);
                }
                match self.resolve(all, ty.ty_id, &ty.full_path) {
                    Ok(to) => {
                        edges.push((from, to));
                    },
                    Err(e) => {
                        return Err(e);
                    },
                }
            },
            PgExternReturnEntity::SetOf { ty } => {
                proof {
                    assert(attempts.take(n + 1).drop_last() == attempts.take(n));
                    assert(refs[n] == (ty.ty_id, ty.full_path@));
                    assert(attempts.take(n + 1) == attempts);
                }
                match self.resolve(all, ty.ty_id, &ty.full_path) {
                    Ok(to) => {
                        edges.push((from, to));
                    },
                    Err(e) => {
                        return Err(e);
                    },
                }
            },
            PgExternReturnEntity::Iterated(items) => {
                let mut j: usize = 0;
                while j < items.len()
                    invariant
                        j <= items.len(),
                        n == f.fn_args@.len(),
                        f.fn_return == PgExternReturnEntity::Iterated(*items),
                        all@ == all_nodes(self.nodes@.len()),
                        refs == references(*f),
                        attempts == Seq::new(refs.len(), |k: int| edge_attempt(self.nodes@, from, refs[k])),
                        collect(attempts.take(n + j)) matches Ok(found) && found == edges@,
                    decreases items.len() - j,
                {
                    proof {
                        assert(attempts.take(n + j + 1).drop_last() == attempts.take(n + j));
                        assert(refs[n + j] == (items@[j as int].ty.ty_id, items@[j as int].ty.full_path@));
                    }
                    match self.resolve(all, items[j].ty.ty_id, &items[j].ty.full_path) {
                        Ok(to) => {
                            edges.push((from, to));
                        },
                        Err(e) => {
                            proof {
                                lemma_collect_fails(attempts, n + j + 1);
                            }
                            return Err(e);
                        },
                    }
                    j = j + 1;
                }
                proof {
                    assert(attempts.take(n + items@.len()) == attempts);
                }
            },
            _ => {
                proof {
                    assert(attempts.take(n) == attempts);
                }
            },
        }
        Ok(edges)
    }

    /// Builds the graph of `entities`: each is a node, and each function is
    /// joined to the node of every type that its arguments and its return
    /// shape refer to. A reference that resolves to no node fails the
    /// build, with the function that makes it.
    pub fn build(entities: Vec<SqlGraphEntity>, default_schema: String, module_pathname: String, internal_type: u64) -> (r:
        Result<PgxSql, SqlError>)
        ensures
            match graph_edges(entities@, entities@.len()) {
                Ok(edges) => r matches Ok(graph) && graph.nodes == entities && graph.edges@ == edges
                    && graph.default_schema == default_schema && graph.module_pathname == module_pathname
                    && graph.internal_type == internal_type,
                Err(at) => r matches Err(e) && e.kind == ErrorKind::UnresolvedTypeReference && at < entities@.len()
                    && (entities@[at as int] matches SqlGraphEntity::Function(f) && e.identifier@ == f.full_path@
                    && e.file@ == f.file@ && e.line == f.line),
            },
    {
        let mut graph = PgxSql { default_schema, module_pathname, internal_type, nodes: entities, edges: Vec::new() };
        let mut all: Vec<usize> = Vec::new();
        let mut k: usize = 0;
        while k < graph.nodes.len()
            invariant
                k <= graph.nodes.len(),
                all@ == all_nodes(k as nat),
            decreases graph.nodes.len() - k,
        {
            all.push(k);
            proof {
                assert(all@ =~= all_nodes((k + 1) as nat));
            }
            k = k + 1;
        }
        let mut edges: Vec<(usize, usize)> = Vec::new();
        let mut i: usize = 0;
        while i < graph.nodes.len()
            invariant
                i <= graph.nodes.len(),
                graph.nodes == entities,
                graph.default_schema == default_schema,
                graph.module_pathname == module_pathname,
                graph.internal_type == internal_type,
                all@ == all_nodes(graph.nodes@.len()),
                graph_edges(entities@, i as nat) matches Ok(found) && found == edges@,
            decreases graph.nodes.len() - i,
        {
            match &graph.nodes[i] {
                SqlGraphEntity::Function(f) => match graph.connect(&all, i, f) {
                    Ok(mut more) => {
                        edges.append(&mut more);
                    },
                    Err(_) => {
                        proof {
                            assert(entities@[i as int] == SqlGraphEntity::Function(*f));
                            assert(function_edges(entities@, i, *f) is Err);
                            assert(graph_edges(entities@, (i + 1) as nat) == Err::<Seq<(usize, usize)>, usize>(i));
                            lemma_graph_edges_fail(entities@, (i + 1) as nat, entities@.len());
                        }
                        return Err(f.error(ErrorKind::UnresolvedTypeReference));
                    },
                },
                _ => {},
            }
            i = i + 1;
        }
        graph.edges = edges;
        Ok(graph)
    }

    /// What is written before the name of the entity at node `index`.
    pub fn schema_prefix_for(&self, index: usize) -> (out: String)
        ensures
            out@ == self.spec_schema_prefix_for(index),
    {
        if index >= self.nodes.len() {
            return String::new();
        }
        match &self.nodes[index] {
            SqlGraphEntity::Function(f) => schema_prefix_of(&f.schema, &self.default_schema),
            SqlGraphEntity::Type(t) => schema_prefix_of(&t.schema, &self.default_schema),
            SqlGraphEntity::Enum(e) => schema_prefix_of(&e.schema, &self.default_schema),
            _ => String::new(),
        }
    }
}

} // verus!
