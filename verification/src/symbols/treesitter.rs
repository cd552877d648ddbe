//! The parts of tree-sitter the symbol extraction calls, and the plain values
//! its results are turned into.
use vstd::prelude::*;
use tree_sitter::{
    LanguageError, Parser, Query, QueryCursor, QueryError, StreamingIterator, Tree, TreeCursor,
};
use crate::symbols::queries::Grammar;

verus! {

/// `tree_sitter::Tree`, a parsed syntax tree, carried without being looked into.
#[verifier::external_type_specification]
#[verifier::external_body]
pub struct ExTree(tree_sitter::Tree);

/// `tree_sitter::Parser`.
#[verifier::external_type_specification]
#[verifier::external_body]
pub struct ExParser(tree_sitter::Parser);

/// `tree_sitter::Query`, a compiled query.
#[verifier::external_type_specification]
#[verifier::external_body]
pub struct ExQuery(tree_sitter::Query);

/// `tree_sitter::QueryCursor`, the state of running a query.
#[verifier::external_type_specification]
#[verifier::external_body]
pub struct ExQueryCursor(tree_sitter::QueryCursor);

/// `tree_sitter::TreeCursor`, a position in a syntax tree.
#[verifier::external_type_specification]
#[verifier::external_body]
pub struct ExTreeCursor<'a>(tree_sitter::TreeCursor<'a>);

/// `tree_sitter::LanguageError`, why a grammar could not be loaded.
#[verifier::external_type_specification]
#[verifier::external_body]
pub struct ExLanguageError(tree_sitter::LanguageError);

/// `tree_sitter::QueryError`, why a query did not compile.
#[verifier::external_type_specification]
#[verifier::external_body]
pub struct ExQueryError(tree_sitter::QueryError);

/// One captured node of a query match: the index of its capture name, and
/// where the node lies in the source (bytes, and zero-based rows).
#[derive(Clone, Copy, Debug, PartialEq, Eq, Structural)]
pub struct CaptureInfo {
    pub index: u32,
    pub start_byte: usize,
    pub end_byte: usize,
    pub start_row: usize,
    pub end_row: usize,
}

/// One match of a query: its captures in order.
#[derive(Debug)]
pub struct MatchInfo {
    pub captures: Vec<CaptureInfo>,
}

/// One node of a syntax tree: its kind, the kind of its parent, and where it lies.
#[derive(Debug)]
pub struct NodeInfo {
    pub kind: String,
    pub parent_kind: Option<String>,
    pub start_byte: usize,
    pub end_byte: usize,
}

/// The nodes of a syntax tree in preorder (a node, then its children from
/// first to last), each as a plain value. Descendant indices of the tree's
/// root count in this order, the root being index zero.
pub uninterp spec fn tree_nodes(t: Tree) -> Seq<NodeInfo>;

/// The nodes, in preorder, of the tree that the Vue grammar of
/// `tree_sitter_vue_updated` parses the text into.
pub uninterp spec fn vue_preorder(text: Seq<char>) -> Seq<NodeInfo>;

/// The text a tree was parsed from, when the Vue grammar of
/// `tree_sitter_vue_updated` parsed it; `None` for any other tree.
pub uninterp spec fn tree_vue_text(t: Tree) -> Option<Seq<char>>;

/// Whether the parser has the Vue grammar of `tree_sitter_vue_updated` as
/// its language.
pub uninterp spec fn parser_is_vue(p: Parser) -> bool;

/// Calls `Tree::clone`: `ts_tree_copy` makes a shallow copy that shares the
/// root of the original, so the copy has the same nodes.
#[verifier::external_body]
pub(crate) fn tree_clone(t: &Tree) -> (r: Tree)
    ensures
        tree_nodes(r) == tree_nodes(*t),
        tree_vue_text(r) == tree_vue_text(*t),
{
    t.clone()
}

/// Calls `Parser::new`.
#[verifier::external_body]
pub(crate) fn parser_new() -> Parser {
    Parser::new()
}

/// Calls `Parser::set_language` with the Vue grammar of
/// `tree_sitter_vue_updated::language`. That grammar is generated with ABI
/// version 14, inside the range 13 to 15 that this tree-sitter accepts, and
/// has a lexer, so the call succeeds and the parser then has that grammar.
#[verifier::external_body]
fn parser_set_vue_language(p: &mut Parser) -> (r: Result<(), LanguageError>)
    ensures
        r is Ok,
        parser_is_vue(*final(p)),
{
    p.set_language(&tree_sitter_vue_updated::language())
}

/// Loads the tree-sitter grammar of `g` into the parser.
pub(crate) fn parser_set_language(p: &mut Parser, g: Grammar) -> (r: Result<(), LanguageError>)
    ensures
        r is Ok,
        g == Grammar::Vue ==> parser_is_vue(*final(p)),
{
    match g {
        Grammar::Vue => parser_set_vue_language(p),
    }
}

/// Calls `Parser::parse` on the whole source, with no earlier tree. Its
/// documentation gives no tree only when the parser has no language; with
/// the Vue grammar the tree's nodes are those of `vue_preorder` of the
/// source, and it was parsed from the source. The parser keeps its language.
#[verifier::external_body]
pub(crate) fn parser_parse(p: &mut Parser, source: &str) -> (r: Option<Tree>)
    ensures
        parser_is_vue(*final(p)) == parser_is_vue(*old(p)),
        parser_is_vue(*old(p)) ==> (r matches Some(t) && tree_nodes(t) == vue_preorder(source@)
            && tree_vue_text(t) == Some(source@)),
{
    p.parse(source, None)
}

/// Whether a query source compiles against the Vue grammar of
/// `tree_sitter_vue_updated`: its syntax, node kinds, field names and
/// predicates all check out.
pub uninterp spec fn vue_query_compiles(source: Seq<char>) -> bool;

/// Whether a query source compiles against the grammar `g`.
pub open spec fn query_compiles(g: Grammar, source: Seq<char>) -> bool {
    match g {
        Grammar::Vue => vue_query_compiles(source),
    }
}

/// The source a query was compiled from, when it was compiled against the
/// Vue grammar of `tree_sitter_vue_updated`; `None` for any other query.
pub uninterp spec fn query_vue_source(q: Query) -> Option<Seq<char>>;

/// The capture names, in order, of a query source compiled against the Vue
/// grammar of `tree_sitter_vue_updated`.
pub uninterp spec fn vue_capture_names(source: Seq<char>) -> Seq<Seq<char>>;

/// The captures of every match of a query source, compiled against the Vue
/// grammar of `tree_sitter_vue_updated`, over the whole tree that grammar
/// parses the text into, in the order a cursor with default settings yields
/// the matches.
pub uninterp spec fn vue_query_matches(query: Seq<char>, text: Seq<char>) -> Seq<Seq<CaptureInfo>>;

/// Whether a query cursor has the settings `QueryCursor::new` gives it: no
/// byte or point range, no depth limit and the largest match limit.
pub uninterp spec fn cursor_is_default(c: QueryCursor) -> bool;

/// Calls `Query::new` with the Vue grammar of
/// `tree_sitter_vue_updated::language`. Whether the query compiles depends
/// on the query source and that fixed grammar alone; the contract names it
/// `vue_query_compiles` and does not restate the grammar. Nothing is stated
/// of the error beyond that.
#[verifier::external_body]
fn vue_query_new(source: &str) -> (r: Result<Query, QueryError>)
    ensures
        r is Ok <==> vue_query_compiles(source@),
        r matches Ok(q) ==> query_vue_source(q) == Some(source@),
{
    Query::new(&tree_sitter_vue_updated::language(), source)
}

/// Compiles a query for the tree-sitter grammar of `g`; it succeeds exactly
/// when the query source compiles against that grammar.
pub(crate) fn query_new(g: Grammar, source: &str) -> (r: Result<Query, QueryError>)
    ensures
        r is Ok <==> query_compiles(g, source@),
        g == Grammar::Vue ==> (r matches Ok(q) ==> query_vue_source(q) == Some(source@)),
{
    match g {
        Grammar::Vue => vue_query_new(source),
    }
}

/// Calls `Query::capture_names`, the names copied out in order; for a Vue
/// query they are `vue_capture_names` of its source.
#[verifier::external_body]
pub(crate) fn query_capture_names(q: &Query) -> (r: Vec<String>)
    ensures
        query_vue_source(*q) matches Some(src) ==> r@.map_values(|x: String| x@) == vue_capture_names(src),
{
    q.capture_names().iter().map(|s| s.to_string()).collect()
}

/// Calls `QueryCursor::new`, which gives a cursor with default settings.
#[verifier::external_body]
pub(crate) fn query_cursor_new() -> (r: QueryCursor)
    ensures
        cursor_is_default(r),
{
    QueryCursor::new()
}

/// Calls `QueryCursor::matches` on the whole tree and copies every match out
/// as plain values, in the order the cursor yields them. For a Vue query run
/// by a default cursor over the Vue tree of the very text given, these are
/// `vue_query_matches` of the query source and the text; the matches of
/// other queries and trees are not stated. The cursor keeps its settings.
#[verifier::external_body]
pub(crate) fn cursor_matches(c: &mut QueryCursor, q: &Query, tree: &Tree, source: &str) -> (r: Vec<MatchInfo>)
    ensures
        cursor_is_default(*final(c)) == cursor_is_default(*old(c)),
        cursor_is_default(*old(c)) && tree_vue_text(*tree) == Some(source@) ==> (query_vue_source(*q) matches Some(qs)
            ==> r@.map_values(|m: MatchInfo| m.captures@) == vue_query_matches(qs, source@)),
{
    let mut out = Vec::new();
    let mut it = c.matches(q, tree.root_node(), source.as_bytes());
    while let Some(m) = it.next() {
        let captures = m.captures().iter().map(|cap| CaptureInfo {
            index: cap.index,
            start_byte: cap.node.start_byte(),
            end_byte: cap.node.end_byte(),
            start_row: cap.node.start_position().row,
            end_row: cap.node.end_position().row,
        }).collect();
        out.push(MatchInfo { captures });
    }
    out
}

/// Calls `Node::descendant_count` on the root of the tree: the number of
/// its nodes, the root included.
#[verifier::external_body]
pub(crate) fn tree_node_count(tree: &Tree) -> (r: usize)
    ensures
        r == tree_nodes(*tree).len(),
{
    tree.root_node().descendant_count()
}

/// The nodes, in preorder, under the node a cursor was made on, that node
/// first.
pub uninterp spec fn cursor_nodes(c: TreeCursor) -> Seq<NodeInfo>;

/// The position, among `cursor_nodes`, of the node the cursor is on.
pub uninterp spec fn cursor_index(c: TreeCursor) -> int;

/// Calls `Tree::walk`: a cursor on the root of the tree.
#[verifier::external_body]
pub(crate) fn tree_walk(tree: &Tree) -> (r: TreeCursor<'_>)
    ensures
        cursor_nodes(r) == tree_nodes(*tree),
        cursor_index(r) == 0,
{
    tree.walk()
}

/// Calls `TreeCursor::goto_descendant`, which moves the cursor to the node
/// of the given descendant index (in preorder, zero being the node the
/// cursor was made on).
#[verifier::external_body]
pub(crate) fn cursor_goto(c: &mut TreeCursor, i: usize)
    requires
        i < cursor_nodes(*old(c)).len(),
    ensures
        cursor_nodes(*final(c)) == cursor_nodes(*old(c)),
        cursor_index(*final(c)) == i,
{
    c.goto_descendant(i)
}

/// Calls `TreeCursor::node` and copies the node out as a plain value: its
/// kind, the kind of its parent, and its byte range.
#[verifier::external_body]
pub(crate) fn cursor_node(c: &TreeCursor) -> (r: NodeInfo)
    requires
        0 <= cursor_index(*c) < cursor_nodes(*c).len(),
    ensures
        r == cursor_nodes(*c)[cursor_index(*c)],
{
    let n = c.node();
    NodeInfo {
        kind: n.kind().to_string(),
        parent_kind: n.parent().map(|p| p.kind().to_string()),
        start_byte: n.start_byte(),
        end_byte: n.end_byte(),
    }
}

/// Every node of the tree, in preorder.
pub fn tree_preorder(tree: &Tree) -> (r: Vec<NodeInfo>)
    ensures
        r@ == tree_nodes(*tree),
{
    let count = tree_node_count(tree);
    let mut cursor = tree_walk(tree);
    let mut out: Vec<NodeInfo> = Vec::new();
    let mut i: usize = 0;
    while i < count
        invariant
            count == tree_nodes(*tree).len(),
            cursor_nodes(cursor) == tree_nodes(*tree),
            i <= count,
            out@ == tree_nodes(*tree).take(i as int),
        decreases count - i,
    {
        cursor_goto(&mut cursor, i);
        let n = cursor_node(&cursor);
        out.push(n);
        proof {
            assert(out@ =~= tree_nodes(*tree).take(i + 1));
        }
        i = i + 1;
    }
    proof {
        assert(out@ =~= tree_nodes(*tree));
    }
    out
}

} // verus!
