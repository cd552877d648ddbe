//! Symbol extraction: running a language's queries over a parsed file and
//! turning the captures into symbols and identifier references.
use vstd::prelude::*;
use std::collections::HashSet;
use tree_sitter::{LanguageError, QueryError, Tree};
use crate::index::file_entry::Language;
use crate::server::state::{byte_len, ParseCache};
use crate::symbols::queries::{
    callers_query_of, get_language_config, has_language_config, symbols_query_of, Grammar,
};
use crate::symbols::store::{set_insert, set_new, string_set};
use crate::symbols::symbol::{opt_view, Symbol, SymbolKind, SymbolView};
use crate::symbols::treesitter::{
    cursor_matches, parser_new, parser_parse, parser_set_language, query_capture_names,
    query_cursor_new, query_new, tree_clone, tree_nodes, tree_preorder, vue_capture_names,
    vue_preorder, vue_query_compiles, vue_query_matches, CaptureInfo, MatchInfo, NodeInfo,
};
use crate::text::{byte_range_string, byte_range_text, first_line, first_line_of, str_eq};
use vstd::utf8::encode_utf8;

verus! {

broadcast use vstd::string::group_string_axioms;

/// Why symbols could not be extracted or a file could not be parsed.
#[derive(Debug)]
pub enum ExtractError {
    /// No grammar and queries for this language.
    NoConfig(Language),
    /// The grammar could not be loaded into the parser.
    Language(LanguageError),
    /// A query did not compile.
    Query(QueryError),
    /// The parser gave no tree for this file.
    ParseFailed(String),
    /// A match named a capture the query does not have, or a node on a row
    /// whose line number does not fit.
    MalformedMatch,
}

/// The kind a `*.name` capture (other than `method.name`) gives its symbol.
pub open spec fn name_label_kind(label: Seq<char>) -> Option<SymbolKind> {
    if label == "function.name"@ {
        Some(SymbolKind::Function)
    } else if label == "struct.name"@ {
        Some(SymbolKind::Struct)
    } else if label == "enum.name"@ {
        Some(SymbolKind::Enum)
    } else if label == "trait.name"@ {
        Some(SymbolKind::Trait)
    } else if label == "class.name"@ {
        Some(SymbolKind::Class)
    } else if label == "interface.name"@ {
        Some(SymbolKind::Interface)
    } else if label == "type.name"@ {
        Some(SymbolKind::Type)
    } else if label == "const.name"@ || label == "static.name"@ {
        Some(SymbolKind::Constant)
    } else if label == "mod.name"@ {
        Some(SymbolKind::Module)
    } else {
        None
    }
}

/// The capture names that mark the node a symbol spans.
pub open spec fn is_def_label(label: Seq<char>) -> bool {
    label == "function.def"@ || label == "method.def"@ || label == "struct.def"@ || label
        == "enum.def"@ || label == "trait.def"@ || label == "class.def"@ || label
        == "interface.def"@ || label == "type.def"@ || label == "const.def"@ || label
        == "static.def"@ || label == "mod.def"@
}

/// What the captures of one match have given so far, and the type of the
/// latest `impl` block, which carries over from match to match.
pub struct Gathered {
    pub name: Option<Seq<char>>,
    pub kind: Option<SymbolKind>,
    pub def: Option<CaptureInfo>,
    pub parent: Option<Seq<char>>,
    pub impl_type: Option<Seq<char>>,
}

/// Nothing gathered yet in a match, with the `impl` type carried over.
pub open spec fn fresh(impl_type: Option<Seq<char>>) -> Gathered {
    Gathered { name: None, kind: None, def: None, parent: None, impl_type }
}

/// One capture, under its capture name and with its text, taken into account.
pub open spec fn apply_capture(g: Gathered, label: Seq<char>, text: Seq<char>, c: CaptureInfo) -> Gathered {
    if label == "method.name"@ {
        Gathered { name: Some(text), kind: Some(SymbolKind::Method), parent: g.impl_type, ..g }
    } else if label == "impl.type"@ {
        Gathered { impl_type: Some(text), ..g }
    } else if name_label_kind(label) is Some {
        Gathered { name: Some(text), kind: name_label_kind(label), ..g }
    } else if is_def_label(label) {
        Gathered { def: Some(c), ..g }
    } else {
        g
    }
}

/// The captures of a match taken into account one after the other.
pub open spec fn gather(g: Gathered, caps: Seq<CaptureInfo>, labels: Seq<Seq<char>>, source: Seq<char>) -> Gathered
    decreases caps.len(),
{
    if caps.len() == 0 {
        g
    } else {
        let c = caps.last();
        apply_capture(
            gather(g, caps.drop_last(), labels, source),
            labels[c.index as int],
            byte_range_text(source, c.start_byte as int, c.end_byte as int),
            c,
        )
    }
}

/// The symbol a match that found a name, a kind and a node stands for.
pub open spec fn symbol_from(g: Gathered, file: Seq<char>, language: Language, source: Seq<char>) -> SymbolView {
    let d = g.def.unwrap();
    SymbolView {
        name: g.name.unwrap(),
        kind: g.kind.unwrap(),
        file,
        byte_range: (d.start_byte, d.end_byte),
        line_range: ((d.start_row + 1) as usize, (d.end_row + 1) as usize),
        language,
        signature: first_line(byte_range_text(source, d.start_byte as int, d.end_byte as int)),
        definition: None,
        parent: g.parent,
    }
}

/// The match found a name, a kind and a node.
pub open spec fn complete(g: Gathered) -> bool {
    g.name is Some && g.kind is Some && g.def is Some
}

/// The symbols the matches stand for, in match order, and the `impl` type
/// left over at the end.
pub open spec fn symbols_of(
    matches: Seq<Seq<CaptureInfo>>,
    labels: Seq<Seq<char>>,
    file: Seq<char>,
    language: Language,
    source: Seq<char>,
) -> (Seq<SymbolView>, Option<Seq<char>>)
    decreases matches.len(),
{
    if matches.len() == 0 {
        (Seq::empty(), None)
    } else {
        let (syms, ty) = symbols_of(matches.drop_last(), labels, file, language, source);
        let g = gather(fresh(ty), matches.last(), labels, source);
        (if complete(g) {
            syms.push(symbol_from(g, file, language, source))
        } else {
            syms
        }, g.impl_type)
    }
}

/// The captures of each match.
pub open spec fn captures_of(matches: Seq<MatchInfo>) -> Seq<Seq<CaptureInfo>> {
    matches.map_values(|m: MatchInfo| m.captures@)
}

/// The strings taken by their characters.
pub open spec fn views_of(v: Seq<String>) -> Seq<Seq<char>> {
    v.map_values(|s: String| s@)
}

/// Every capture names a capture of the query, and lies on a row whose
/// one-based line number fits in a `usize`.
pub open spec fn well_formed_matches(matches: Seq<MatchInfo>, n_labels: nat) -> bool {
    forall|i: int, j: int|
        0 <= i < matches.len() && 0 <= j < matches[i].captures@.len() ==> {
            let c = #[trigger] matches[i].captures@[j];
            &&& (c.index as nat) < n_labels
            &&& c.start_row < usize::MAX
            &&& c.end_row < usize::MAX
        }
}

/// Every capture names one of `n` capture names, and lies on a row whose
/// one-based line number fits in a `usize`.
pub open spec fn captures_fit(ms: Seq<Seq<CaptureInfo>>, n: nat) -> bool {
    forall|i: int, j: int|
        0 <= i < ms.len() && 0 <= j < ms[i].len() ==> {
            let c = #[trigger] ms[i][j];
            &&& (c.index as nat) < n
            &&& c.start_row < usize::MAX
            &&& c.end_row < usize::MAX
        }
}

proof fn lemma_captures_fit(matches: Seq<MatchInfo>, n: nat)
    ensures
        well_formed_matches(matches, n) == captures_fit(captures_of(matches), n),
{
    let ms = captures_of(matches);
    assert forall|i: int| 0 <= i < matches.len() implies #[trigger] ms[i] == matches[i].captures@ by {}
    if well_formed_matches(matches, n) {
        assert forall|i: int, j: int| 0 <= i < ms.len() && 0 <= j < ms[i].len() implies {
            let c = #[trigger] ms[i][j];
            &&& (c.index as nat) < n
            &&& c.start_row < usize::MAX
            &&& c.end_row < usize::MAX
        } by {
            assert(ms[i][j] == matches[i].captures@[j]);
        }
    }
    if captures_fit(ms, n) {
        assert forall|i: int, j: int| 0 <= i < matches.len() && 0 <= j < matches[i].captures@.len() implies {
            let c = #[trigger] matches[i].captures@[j];
            &&& (c.index as nat) < n
            &&& c.start_row < usize::MAX
            &&& c.end_row < usize::MAX
        } by {
            assert(ms[i][j] == matches[i].captures@[j]);
        }
    }
}

/// Whether every capture of every match names a capture of the query and
/// lies on a row whose line number fits.
pub fn matches_well_formed(matches: &Vec<MatchInfo>, n_labels: usize) -> (r: bool)
    ensures
        r == well_formed_matches(matches@, n_labels as nat),
{
    let mut i: usize = 0;
    while i < matches.len()
        invariant
            i <= matches@.len(),
            forall|a: int, b: int|
                0 <= a < i && 0 <= b < matches@[a].captures@.len() ==> {
                    let c = #[trigger] matches@[a].captures@[b];
                    &&& (c.index as nat) < n_labels
                    &&& c.start_row < usize::MAX
                    &&& c.end_row < usize::MAX
                },
        decreases matches@.len() - i,
    {
        let caps = &matches[i].captures;
        let mut j: usize = 0;
        while j < caps.len()
            invariant
                i < matches@.len(),
                caps@ == matches@[i as int].captures@,
                j <= caps@.len(),
                forall|b: int| 0 <= b < j ==> {
                    let c = #[trigger] caps@[b];
                    &&& (c.index as nat) < n_labels
                    &&& c.start_row < usize::MAX
                    &&& c.end_row < usize::MAX
                },
            decreases caps@.len() - j,
        {
            let c = caps[j];
            if !((c.index as usize) < n_labels && c.start_row < usize::MAX && c.end_row < usize::MAX) {
                assert(!well_formed_matches(matches@, n_labels as nat)) by {
                    assert(matches@[i as int].captures@[j as int] == c);
                }
                return false;
            }
            j = j + 1;
        }
        i = i + 1;
    }
    true
}

/// The kind a `*.name` capture name gives its symbol.
fn name_label_kind_of(label: &str) -> (r: Option<SymbolKind>)
    ensures
        r == name_label_kind(label@),
{
    if str_eq(label, "function.name") {
        Some(SymbolKind::Function)
    } else if str_eq(label, "struct.name") {
        Some(SymbolKind::Struct)
    } else if str_eq(label, "enum.name") {
        Some(SymbolKind::Enum)
    } else if str_eq(label, "trait.name") {
        Some(SymbolKind::Trait)
    } else if str_eq(label, "class.name") {
        Some(SymbolKind::Class)
    } else if str_eq(label, "interface.name") {
        Some(SymbolKind::Interface)
    } else if str_eq(label, "type.name") {
        Some(SymbolKind::Type)
    } else if str_eq(label, "const.name") || str_eq(label, "static.name") {
        Some(SymbolKind::Constant)
    } else if str_eq(label, "mod.name") {
        Some(SymbolKind::Module)
    } else {
        None
    }
}

/// Whether a capture name marks the node a symbol spans.
fn is_def_label_of(label: &str) -> (r: bool)
    ensures
        r == is_def_label(label@),
{
    str_eq(label, "function.def") || str_eq(label, "method.def") || str_eq(label, "struct.def")
        || str_eq(label, "enum.def") || str_eq(label, "trait.def") || str_eq(label, "class.def")
        || str_eq(label, "interface.def") || str_eq(label, "type.def") || str_eq(label, "const.def")
        || str_eq(label, "static.def") || str_eq(label, "mod.def")
}

/// A copy of an optional string, whose characters are what it holds.
fn copy_opt(s: &Option<String>) -> (r: Option<String>)
    ensures
        opt_view(r) == opt_view(*s),
{
    match s {
        Some(x) => Some(x.clone()),
        None => None,
    }
}

/// Turns the matches of a symbols query into symbols, in match order: each
/// match that captured a name and a definition node gives one symbol of this
/// file, spanning that node, with the first line of the node as signature.
pub fn symbols_from_matches(
    matches: &Vec<MatchInfo>,
    labels: &Vec<String>,
    rel_path: &str,
    language: Language,
    source: &str,
) -> (r: Vec<Symbol>)
    requires
        well_formed_matches(matches@, labels@.len()),
    ensures
        r@.map_values(|s: Symbol| s@) == symbols_of(
            captures_of(matches@),
            views_of(labels@),
            rel_path@,
            language,
            source@,
        ).0,
{
    let ghost lab = views_of(labels@);
    let ghost ms = captures_of(matches@);
    let mut symbols: Vec<Symbol> = Vec::new();
    let mut impl_type: Option<String> = None;
    let mut i: usize = 0;
    while i < matches.len()
        invariant
            well_formed_matches(matches@, labels@.len()),
            lab == views_of(labels@),
            ms == captures_of(matches@),
            i <= matches@.len(),
            symbols@.map_values(|s: Symbol| s@) == symbols_of(ms.take(i as int), lab, rel_path@, language, source@).0,
            opt_view(impl_type) == symbols_of(ms.take(i as int), lab, rel_path@, language, source@).1,
        decreases matches@.len() - i,
    {
        let caps = &matches[i].captures;
        let ghost start = fresh(opt_view(impl_type));
        let mut name: Option<String> = None;
        let mut kind: Option<SymbolKind> = None;
        let mut def: Option<CaptureInfo> = None;
        let mut parent: Option<String> = None;
        let mut j: usize = 0;
        while j < caps.len()
            invariant
                well_formed_matches(matches@, labels@.len()),
                lab == views_of(labels@),
                caps@ == matches@[i as int].captures@,
                i < matches@.len(),
                j <= caps@.len(),
                def matches Some(d) ==> d.start_row < usize::MAX && d.end_row < usize::MAX,
                ({
                    let g = gather(start, caps@.take(j as int), lab, source@);
                    &&& opt_view(name) == g.name
                    &&& kind == g.kind
                    &&& def == g.def
                    &&& opt_view(parent) == g.parent
                    &&& opt_view(impl_type) == g.impl_type
                }),
            decreases caps@.len() - j,
        {
            let c = caps[j];
            assert(matches@[i as int].captures@[j as int] == c);
            let label = labels[c.index as usize].as_str();
            let text = byte_range_string(source, c.start_byte, c.end_byte);
            let ghost before = gather(start, caps@.take(j as int), lab, source@);
            if str_eq(label, "method.name") {
                name = Some(text);
                kind = Some(SymbolKind::Method);
                parent = copy_opt(&impl_type);
            } else if str_eq(label, "impl.type") {
                impl_type = Some(text);
            } else {
                match name_label_kind_of(label) {
                    Some(k) => {
                        name = Some(text);
                        kind = Some(k);
                    },
                    None => {
                        if is_def_label_of(label) {
                            def = Some(c);
                        }
                    },
                }
            }
            proof {
                assert(caps@.take(j + 1).drop_last() =~= caps@.take(j as int));
                assert(lab[c.index as int] == labels@[c.index as int]@);
            }
            j = j + 1;
        }
        let ghost g = gather(start, caps@, lab, source@);
        proof {
            assert(caps@.take(caps@.len() as int) =~= caps@);
            assert(ms.take(i + 1).drop_last() =~= ms.take(i as int));
            assert(ms[i as int] == caps@);
        }
        let ghost before = symbols@;
        if name.is_some() && kind.is_some() && def.is_some() {
            let d = def.unwrap();
            let text = byte_range_string(source, d.start_byte, d.end_byte);
            let sym = Symbol {
                name: name.unwrap(),
                kind: kind.unwrap(),
                file: String::from_str(rel_path),
                byte_range: (d.start_byte, d.end_byte),
                line_range: (d.start_row + 1, d.end_row + 1),
                language,
                signature: first_line_of(text.as_str()),
                definition: None,
                parent: copy_opt(&parent),
            };
            symbols.push(sym);
            proof {
                assert(sym@ == symbol_from(g, rel_path@, language, source@));
                assert(symbols@.map_values(|s: Symbol| s@) =~= before.map_values(|s: Symbol| s@).push(sym@));
            }
        }
        i = i + 1;
    }
    proof {
        assert(ms.take(matches@.len() as int) =~= ms);
    }
    symbols
}

/// The identifier a capture contributes: its text, when it is a capture of
/// the `callee` name and not empty.
pub open spec fn cap_ref(c: CaptureInfo, callee: Option<usize>, source: Seq<char>) -> Option<Seq<char>> {
    let t = byte_range_text(source, c.start_byte as int, c.end_byte as int);
    if callee == Some(c.index as usize) && t.len() > 0 {
        Some(t)
    } else {
        None
    }
}

/// The identifiers the captures of one match contribute.
pub open spec fn refs_in(caps: Seq<CaptureInfo>, callee: Option<usize>, source: Seq<char>) -> Set<Seq<char>>
    decreases caps.len(),
{
    if caps.len() == 0 {
        Set::empty()
    } else {
        let rest = refs_in(caps.drop_last(), callee, source);
        match cap_ref(caps.last(), callee, source) {
            Some(t) => rest.insert(t),
            None => rest,
        }
    }
}

/// The identifiers the captures of all the matches contribute.
pub open spec fn refs_of(matches: Seq<Seq<CaptureInfo>>, callee: Option<usize>, source: Seq<char>) -> Set<Seq<char>>
    decreases matches.len(),
{
    if matches.len() == 0 {
        Set::empty()
    } else {
        refs_of(matches.drop_last(), callee, source).union(refs_in(matches.last(), callee, source))
    }
}

/// The position of the first capture name that is `callee`, if any.
pub open spec fn callee_position(labels: Seq<Seq<char>>) -> Option<usize> {
    if exists|i: int| 0 <= i < labels.len() && labels[i] == "callee"@ {
        Some(
            (choose|i: int|
                0 <= i < labels.len() && labels[i] == "callee"@ && forall|j: int|
                    0 <= j < i ==> labels[j] != "callee"@) as usize,
        )
    } else {
        None
    }
}

/// The position of the first capture name that is `callee`.
pub fn callee_index(labels: &Vec<String>) -> (r: Option<usize>)
    ensures
        match r {
            Some(i) => i < labels@.len() && labels@[i as int]@ == "callee"@ && forall|j: int|
                0 <= j < i ==> labels@[j]@ != "callee"@,
            None => forall|j: int| 0 <= j < labels@.len() ==> labels@[j]@ != "callee"@,
        },
        r == callee_position(views_of(labels@)),
{
    let mut i: usize = 0;
    while i < labels.len()
        invariant
            i <= labels@.len(),
            forall|j: int| 0 <= j < i ==> labels@[j]@ != "callee"@,
        decreases labels@.len() - i,
    {
        if str_eq(labels[i].as_str(), "callee") {
            proof {
                let vs = views_of(labels@);
                assert(vs[i as int] == "callee"@);
                let k = choose|k: int|
                    0 <= k < vs.len() && vs[k] == "callee"@ && forall|j: int| 0 <= j < k ==> vs[j] != "callee"@;
                if k < i {
                    assert(vs[k] == labels@[k]@);
                } else if k > i {
                    assert(vs[i as int] != "callee"@);
                }
            }
            return Some(i);
        }
        i = i + 1;
    }
    proof {
        let vs = views_of(labels@);
        assert forall|j: int| 0 <= j < vs.len() implies vs[j] != "callee"@ by {
            assert(vs[j] == labels@[j]@);
        }
    }
    None
}

/// The identifiers the matches of a callers query name: the non-empty texts
/// of the captures of the `callee` capture name.
pub fn refs_from_matches(matches: &Vec<MatchInfo>, callee: Option<usize>, source: &str) -> (r: HashSet<String>)
    ensures
        string_set(r) == refs_of(captures_of(matches@), callee, source@),
{
    let ghost ms = captures_of(matches@);
    let mut refs = set_new();
    let mut i: usize = 0;
    while i < matches.len()
        invariant
            ms == captures_of(matches@),
            i <= matches@.len(),
            string_set(refs) == refs_of(ms.take(i as int), callee, source@),
        decreases matches@.len() - i,
    {
        let caps = &matches[i].captures;
        let ghost outer = string_set(refs);
        let mut j: usize = 0;
        while j < caps.len()
            invariant
                i < matches@.len(),
                caps@ == matches@[i as int].captures@,
                j <= caps@.len(),
                string_set(refs) == outer.union(refs_in(caps@.take(j as int), callee, source@)),
            decreases caps@.len() - j,
        {
            let c = caps[j];
            proof {
                assert(caps@.take(j + 1).drop_last() =~= caps@.take(j as int));
                assert(caps@.take(j + 1).last() == c);
            }
            if callee == Some(c.index as usize) {
                let text = byte_range_string(source, c.start_byte, c.end_byte);
                if !text.as_str().is_empty() {
                    set_insert(&mut refs, text);
                }
            }
            proof {
                assert(string_set(refs) =~= outer.union(refs_in(caps@.take(j + 1), callee, source@)));
            }
            j = j + 1;
        }
        proof {
            assert(caps@.take(caps@.len() as int) =~= caps@);
            assert(ms.take(i + 1).drop_last() =~= ms.take(i as int));
            assert(ms[i as int] == caps@);
        }
        i = i + 1;
    }
    proof {
        assert(ms.take(matches@.len() as int) =~= ms);
    }
    refs
}

/// The node is the raw text of a `<script>` element.
pub open spec fn is_script_raw(n: NodeInfo) -> bool {
    n.kind@ == "raw_text"@ && opt_view(n.parent_kind) == Some("script_element"@)
}

/// The text of the first raw text of a `<script>` element among the nodes.
pub open spec fn script_text(nodes: Seq<NodeInfo>, source: Seq<char>) -> Option<Seq<char>>
    decreases nodes.len(),
{
    if nodes.len() == 0 {
        None
    } else if is_script_raw(nodes[0]) {
        Some(byte_range_text(source, nodes[0].start_byte as int, nodes[0].end_byte as int))
    } else {
        script_text(nodes.drop_first(), source)
    }
}

/// The text of the first node, in order, that is the raw text of a
/// `<script>` element.
pub fn find_script_raw(nodes: &Vec<NodeInfo>, source: &str) -> (r: Option<String>)
    ensures
        opt_view(r) == script_text(nodes@, source@),
{
    let mut i: usize = 0;
    assert(nodes@.skip(0) =~= nodes@);
    while i < nodes.len()
        invariant
            i <= nodes@.len(),
            script_text(nodes@, source@) == script_text(nodes@.skip(i as int), source@),
        decreases nodes@.len() - i,
    {
        let n = &nodes[i];
        proof {
            assert(nodes@.skip(i as int)[0] == nodes@[i as int]);
            assert(nodes@.skip(i as int).drop_first() =~= nodes@.skip(i + 1));
        }
        let is_script = match &n.parent_kind {
            Some(p) => str_eq(n.kind.as_str(), "raw_text") && str_eq(p.as_str(), "script_element"),
            None => false,
        };
        if is_script {
            return Some(byte_range_string(source, n.start_byte, n.end_byte));
        }
        i = i + 1;
    }
    proof {
        assert(nodes@.skip(i as int) =~= Seq::<NodeInfo>::empty());
    }
    None
}

/// What a Vue component's script is: the text of the first raw text of a
/// `<script>` element in the Vue parse of the source, or the whole source
/// when there is none.
pub open spec fn vue_script(source: Seq<char>) -> Seq<char> {
    match script_text(vue_preorder(source), source) {
        Some(t) => t,
        None => source,
    }
}

/// The content of the first `<script>` block of a Vue component, parsed with
/// the Vue grammar; the whole source when there is no such block.
pub fn extract_vue_script_content(source: &str) -> (r: Result<String, LanguageError>)
    ensures
        r matches Ok(s) && s@ == vue_script(source@),
{
    let mut parser = parser_new();
    match parser_set_language(&mut parser, Grammar::Vue) {
        Ok(()) => {},
        Err(e) => {
            return Err(e);
        },
    }
    let tree = match parser_parse(&mut parser, source) {
        Some(t) => t,
        None => {
            return Ok(String::from_str(source));
        },
    };
    let nodes = tree_preorder(&tree);
    match find_script_raw(&nodes, source) {
        Some(t) => Ok(t),
        None => Ok(String::from_str(source)),
    }
}

/// The language whose grammar and queries extraction uses: TypeScript for
/// the script of a Vue component, the file's own language otherwise.
pub open spec fn extraction_language(language: Language) -> Language {
    if language == Language::Vue {
        Language::TypeScript
    } else {
        language
    }
}

/// The text extraction parses: the script of a Vue component, the whole
/// source otherwise.
pub open spec fn extraction_text(source: Seq<char>, language: Language) -> Seq<char> {
    if language == Language::Vue {
        vue_script(source)
    } else {
        source
    }
}

/// Nothing is extracted: the language has no grammar and queries in this
/// build, or the file is a Vue component with an empty script.
pub open spec fn extracts_nothing(source: Seq<char>, language: Language) -> bool {
    !has_language_config(extraction_language(language)) || (language == Language::Vue
        && vue_script(source).len() == 0)
}

/// Extracts the symbols and the identifier references of one file from its
/// source. The script of a Vue component is read as TypeScript; a script
/// that is empty yields nothing, and so does a language without grammar and
/// queries in this build. Otherwise the text is parsed with the language's
/// grammar: every symbol comes from the matches of the symbols query as
/// `symbols_of` says, belongs to `rel_path` and carries the file's language;
/// the references come from the matches of the callers query as `refs_of`
/// says. A query that does not compile, or a match that names no capture of
/// its query, is an error.
pub fn extract_symbols_from_source(rel_path: &str, source: &str, language: Language) -> (r: Result<
    (Vec<Symbol>, HashSet<String>),
    ExtractError,
>)
    ensures
        extracts_nothing(source@, language) ==> (r matches Ok((syms, refs)) && syms@.len() == 0
            && string_set(refs) == Set::<Seq<char>>::empty()),
        !extracts_nothing(source@, language) ==> ({
            let text = extraction_text(source@, language);
            let sq = symbols_query_of(extraction_language(language));
            let cq = callers_query_of(extraction_language(language));
            let sm = vue_query_matches(sq, text);
            let labels = vue_capture_names(sq);
            if !vue_query_compiles(sq) {
                r matches Err(ExtractError::Query(_))
            } else if !captures_fit(sm, labels.len()) {
                r matches Err(ExtractError::MalformedMatch)
            } else if !vue_query_compiles(cq) {
                r matches Err(ExtractError::Query(_))
            } else {
                &&& r matches Ok((syms, refs))
                &&& syms@.map_values(|s: Symbol| s@) == symbols_of(sm, labels, rel_path@, language, text).0
                &&& string_set(refs) == refs_of(
                    vue_query_matches(cq, text),
                    callee_position(vue_capture_names(cq)),
                    text,
                )
            }
        }),
{
    let text: String = if language == Language::Vue {
        let script = match extract_vue_script_content(source) {
            Ok(s) => s,
            Err(e) => {
                return Err(ExtractError::Language(e));
            },
        };
        if script.as_str().is_empty() {
            return Ok((Vec::new(), set_new()));
        }
        script
    } else {
        String::from_str(source)
    };
    let effective = if language == Language::Vue {
        Language::TypeScript
    } else {
        language
    };
    let config = match get_language_config(effective) {
        Some(c) => c,
        None => {
            return Ok((Vec::new(), set_new()));
        },
    };
    let mut parser = parser_new();
    match parser_set_language(&mut parser, config.language) {
        Ok(()) => {},
        Err(e) => {
            return Err(ExtractError::Language(e));
        },
    }
    let tree = match parser_parse(&mut parser, text.as_str()) {
        Some(t) => t,
        None => {
            return Err(ExtractError::ParseFailed(String::from_str(rel_path)));
        },
    };
    let symbols_query = match query_new(config.language, config.symbols_query) {
        Ok(q) => q,
        Err(e) => {
            return Err(ExtractError::Query(e));
        },
    };
    let labels = query_capture_names(&symbols_query);
    let mut cursor = query_cursor_new();
    let matches = cursor_matches(&mut cursor, &symbols_query, &tree, text.as_str());
    proof {
        assert(captures_of(matches@) =~= vue_query_matches(config.symbols_query@, text@));
        assert(views_of(labels@) =~= vue_capture_names(config.symbols_query@));
        lemma_captures_fit(matches@, labels@.len());
    }
    if !matches_well_formed(&matches, labels.len()) {
        return Err(ExtractError::MalformedMatch);
    }
    let symbols = symbols_from_matches(&matches, &labels, rel_path, language, text.as_str());
    let callers_query = match query_new(config.language, config.callers_query) {
        Ok(q) => q,
        Err(e) => {
            return Err(ExtractError::Query(e));
        },
    };
    let call_labels = query_capture_names(&callers_query);
    let callee = callee_index(&call_labels);
    let mut call_cursor = query_cursor_new();
    let calls = cursor_matches(&mut call_cursor, &callers_query, &tree, text.as_str());
    proof {
        assert(captures_of(calls@) =~= vue_query_matches(config.callers_query@, text@));
        assert(views_of(call_labels@) =~= vue_capture_names(config.callers_query@));
    }
    let refs = refs_from_matches(&calls, callee, text.as_str());
    Ok((symbols, refs))
}

/// The parse tree of a file: the cached one when it was parsed from a source
/// of the same length, otherwise a fresh parse, which is then cached.
pub fn get_parse_tree(rel_path: &str, source: &str, language: Language, parse_cache: &mut ParseCache) -> (r: Result<
    Tree,
    ExtractError,
>)
    requires
        old(parse_cache).wf(),
    ensures
        final(parse_cache).wf(),
        final(parse_cache).max_entries == old(parse_cache).max_entries,
        old(parse_cache).trees@.contains_key(rel_path@) && old(parse_cache).trees@[rel_path@].1
            == byte_len(source@) ==> (r matches Ok(t) && tree_nodes(t) == tree_nodes(
            old(parse_cache).trees@[rel_path@].0) && final(parse_cache).trees@ == old(parse_cache).trees@),
        !(old(parse_cache).trees@.contains_key(rel_path@) && old(parse_cache).trees@[rel_path@].1
            == byte_len(source@)) && !has_language_config(language) ==> (r matches Err(
            ExtractError::NoConfig(l)) && l == language && final(parse_cache).trees@ == old(parse_cache).trees@),
        !(old(parse_cache).trees@.contains_key(rel_path@) && old(parse_cache).trees@[rel_path@].1
            == byte_len(source@)) && has_language_config(language) ==> ({
            &&& r matches Ok(t) && tree_nodes(t) == vue_preorder(source@)
            &&& final(parse_cache).trees@.contains_key(rel_path@)
            &&& final(parse_cache).trees@[rel_path@].1 == byte_len(source@)
            &&& tree_nodes(final(parse_cache).trees@[rel_path@].0) == vue_preorder(source@)
            &&& final(parse_cache).trees@ == if old(parse_cache).trees@.len() >= old(parse_cache).max_entries {
                Map::<Seq<char>, (Tree, usize)>::empty()
            } else {
                old(parse_cache).trees@
            }.insert(rel_path@, final(parse_cache).trees@[rel_path@])
        }),
{
    let len = source.len();
    match parse_cache.lookup(rel_path, len) {
        Some(t) => {
            return Ok(t);
        },
        None => {},
    }
    let config = match get_language_config(language) {
        Some(c) => c,
        None => {
            return Err(ExtractError::NoConfig(language));
        },
    };
    let mut parser = parser_new();
    match parser_set_language(&mut parser, config.language) {
        Ok(()) => {},
        Err(e) => {
            return Err(ExtractError::Language(e));
        },
    }
    let tree = match parser_parse(&mut parser, source) {
        Some(t) => t,
        None => {
            return Err(ExtractError::ParseFailed(String::from_str(rel_path)));
        },
    };
    let copy = tree_clone(&tree);
    parse_cache.insert(String::from_str(rel_path), copy, len);
    Ok(tree)
}

/// Every symbol extracted from the matches belongs to the given file, has
/// the given language, no agent definition, one-based lines, and a signature
/// of a single line.
pub proof fn law_symbols_of_file(
    matches: Seq<Seq<CaptureInfo>>,
    labels: Seq<Seq<char>>,
    file: Seq<char>,
    language: Language,
    source: Seq<char>,
    i: int,
)
    requires
        0 <= i < symbols_of(matches, labels, file, language, source).0.len(),
    ensures
        ({
            let s = symbols_of(matches, labels, file, language, source).0[i];
            &&& s.file == file
            &&& s.language == language
            &&& s.definition is None
            &&& !s.signature.contains('\n')
        }),
    decreases matches.len(),
{
    let prev = symbols_of(matches.drop_last(), labels, file, language, source);
    let g = gather(fresh(prev.1), matches.last(), labels, source);
    if i < prev.0.len() {
        law_symbols_of_file(matches.drop_last(), labels, file, language, source, i);
        if complete(g) {
            assert(symbols_of(matches, labels, file, language, source).0[i] == prev.0[i]);
        }
    } else {
        let d = g.def.unwrap();
        crate::text::lemma_first_line_single(byte_range_text(source, d.start_byte as int, d.end_byte as int));
    }
}

/// The node a match's symbol spans is one of the match's captures.
proof fn lemma_gather_def(g: Gathered, caps: Seq<CaptureInfo>, labels: Seq<Seq<char>>, source: Seq<char>)
    requires
        g.def is None,
    ensures
        gather(g, caps, labels, source).def matches Some(d) ==> exists|b: int|
            0 <= b < caps.len() && caps[b] == d,
    decreases caps.len(),
{
    if caps.len() > 0 {
        lemma_gather_def(g, caps.drop_last(), labels, source);
        let prev = gather(g, caps.drop_last(), labels, source);
        if prev.def is Some && gather(g, caps, labels, source).def == prev.def {
            let b = choose|b: int| 0 <= b < caps.drop_last().len() && caps.drop_last()[b] == prev.def.unwrap();
            assert(caps[b] == caps.drop_last()[b]);
        }
    }
}

/// When every capture lies inside the source, forward, on rows whose line
/// numbers fit, every extracted symbol spans a range inside the source, its
/// lines run forward from line one on, and its signature is where the text
/// of its range begins.
pub proof fn law_symbol_spans(
    matches: Seq<Seq<CaptureInfo>>,
    labels: Seq<Seq<char>>,
    file: Seq<char>,
    language: Language,
    source: Seq<char>,
    i: int,
)
    requires
        0 <= i < symbols_of(matches, labels, file, language, source).0.len(),
        forall|a: int, b: int|
            0 <= a < matches.len() && 0 <= b < matches[a].len() ==> {
                let c = #[trigger] matches[a][b];
                &&& c.start_byte <= c.end_byte <= encode_utf8(source).len()
                &&& c.start_row <= c.end_row < usize::MAX
            },
    ensures
        ({
            let s = symbols_of(matches, labels, file, language, source).0[i];
            &&& s.byte_range.0 <= s.byte_range.1 <= encode_utf8(source).len()
            &&& 1 <= s.line_range.0 <= s.line_range.1
            &&& s.signature.is_prefix_of(
                byte_range_text(source, s.byte_range.0 as int, s.byte_range.1 as int),
            )
        }),
    decreases matches.len(),
{
    let prev = symbols_of(matches.drop_last(), labels, file, language, source);
    let g = gather(fresh(prev.1), matches.last(), labels, source);
    if i < prev.0.len() {
        assert forall|a: int, b: int|
            0 <= a < matches.drop_last().len() && 0 <= b < matches.drop_last()[a].len() implies {
                let c = #[trigger] matches.drop_last()[a][b];
                &&& c.start_byte <= c.end_byte <= encode_utf8(source).len()
                &&& c.start_row <= c.end_row < usize::MAX
            } by {
            assert(matches.drop_last()[a] == matches[a]);
            assert(matches[a][b] == matches.drop_last()[a][b]);
        }
        law_symbol_spans(matches.drop_last(), labels, file, language, source, i);
        if complete(g) {
            assert(symbols_of(matches, labels, file, language, source).0[i] == prev.0[i]);
        }
    } else {
        let d = g.def.unwrap();
        lemma_gather_def(fresh(prev.1), matches.last(), labels, source);
        let b = choose|b: int| 0 <= b < matches.last().len() && matches.last()[b] == d;
        assert(matches[matches.len() - 1][b] == d);
        crate::text::lemma_first_line_prefix(byte_range_text(source, d.start_byte as int, d.end_byte as int));
    }
}

/// A match made of the node of a definition and a name gives exactly one
/// symbol: named by the text of the name capture, of the kind its capture
/// name stands for (`function.name` a function, `struct.name` a struct,
/// `enum.name` an enum, `trait.name` a trait, `class.name` a class,
/// `interface.name` an interface, `type.name` a type, `const.name` and
/// `static.name` a constant, `mod.name` a module, `method.name` a method),
/// spanning the node, with the node's first line as its signature, whichever
/// of the two captures comes first. The node's capture name is one of
/// `function.def`, `method.def`, `struct.def`, `enum.def`, `trait.def`,
/// `class.def`, `interface.def`, `type.def`, `const.def`, `static.def` and
/// `mod.def`.
pub proof fn law_name_and_node_give_symbol(
    d: CaptureInfo,
    n: CaptureInfo,
    def_first: bool,
    labels: Seq<Seq<char>>,
    file: Seq<char>,
    language: Language,
    source: Seq<char>,
    kind: SymbolKind,
)
    requires
        (d.index as int) < labels.len(),
        (n.index as int) < labels.len(),
        labels[d.index as int] == "function.def"@ || labels[d.index as int] == "method.def"@ || labels[d.index as int] == "struct.def"@ || labels[d.index as int] == "enum.def"@ || labels[d.index as int] == "trait.def"@ || labels[d.index as int] == "class.def"@ || labels[d.index as int] == "interface.def"@ || labels[d.index as int] == "type.def"@ || labels[d.index as int] == "const.def"@ || labels[d.index as int] == "static.def"@ || labels[d.index as int] == "mod.def"@,
        (labels[n.index as int] == "function.name"@ && kind == SymbolKind::Function) || (labels[n.index as int] == "struct.name"@ && kind == SymbolKind::Struct) || (labels[n.index as int] == "enum.name"@ && kind == SymbolKind::Enum) || (labels[n.index as int] == "trait.name"@ && kind == SymbolKind::Trait) || (labels[n.index as int] == "class.name"@ && kind == SymbolKind::Class) || (labels[n.index as int] == "interface.name"@ && kind == SymbolKind::Interface) || (labels[n.index as int] == "type.name"@ && kind == SymbolKind::Type) || (labels[n.index as int] == "const.name"@ && kind == SymbolKind::Constant) || (labels[n.index as int] == "static.name"@ && kind == SymbolKind::Constant) || (labels[n.index as int] == "mod.name"@ && kind == SymbolKind::Module) || (labels[n.index as int] == "method.name"@ && kind == SymbolKind::Method),
    ensures
        symbols_of(
            seq![if def_first { seq![d, n] } else { seq![n, d] }],
            labels,
            file,
            language,
            source,
        ).0 == seq![
            SymbolView {
                name: byte_range_text(source, n.start_byte as int, n.end_byte as int),
                kind,
                file,
                byte_range: (d.start_byte, d.end_byte),
                line_range: ((d.start_row + 1) as usize, (d.end_row + 1) as usize),
                language,
                signature: first_line(byte_range_text(source, d.start_byte as int, d.end_byte as int)),
                definition: None,
                parent: None,
            },
        ],
{
    let ld = labels[d.index as int];
    let ln = labels[n.index as int];
    reveal_strlit("function.def");
    reveal_strlit("method.def");
    reveal_strlit("struct.def");
    reveal_strlit("enum.def");
    reveal_strlit("trait.def");
    reveal_strlit("class.def");
    reveal_strlit("interface.def");
    reveal_strlit("type.def");
    reveal_strlit("const.def");
    reveal_strlit("static.def");
    reveal_strlit("mod.def");
    reveal_strlit("function.name");
    reveal_strlit("struct.name");
    reveal_strlit("enum.name");
    reveal_strlit("trait.name");
    reveal_strlit("class.name");
    reveal_strlit("interface.name");
    reveal_strlit("type.name");
    reveal_strlit("const.name");
    reveal_strlit("static.name");
    reveal_strlit("mod.name");
    reveal_strlit("method.name");
    reveal_strlit("impl.type");
    if ld == "function.def"@ {
        assert(ld.len() != "method.name"@.len());
        assert(ld.len() != "impl.type"@.len());
        assert(ld.len() != "function.name"@.len());
        assert(ld.len() != "struct.name"@.len());
        assert(ld.len() != "enum.name"@.len());
        assert(ld.len() != "trait.name"@.len());
        assert(ld.len() != "class.name"@.len());
        assert(ld.len() != "interface.name"@.len());
        assert(ld.len() != "type.name"@.len());
        assert(ld.len() != "const.name"@.len());
        assert(ld.len() != "static.name"@.len());
        assert(ld.len() != "mod.name"@.len());
    }
    if ld == "method.def"@ {
        assert(ld.len() != "method.name"@.len());
        assert(ld.len() != "impl.type"@.len());
        assert(ld.len() != "function.name"@.len());
        assert(ld.len() != "struct.name"@.len());
        assert(ld.len() != "enum.name"@.len());
        assert(ld[0] != "trait.name"@[0]);
        assert(ld[0] != "class.name"@[0]);
        assert(ld.len() != "interface.name"@.len());
        assert(ld.len() != "type.name"@.len());
        assert(ld[0] != "const.name"@[0]);
        assert(ld.len() != "static.name"@.len());
        assert(ld.len() != "mod.name"@.len());
        assert(ld.len() != "function.def"@.len());
    }
    if ld == "struct.def"@ {
        assert(ld.len() != "method.name"@.len());
        assert(ld.len() != "impl.type"@.len());
        assert(ld.len() != "function.name"@.len());
        assert(ld.len() != "struct.name"@.len());
        assert(ld.len() != "enum.name"@.len());
        assert(ld[0] != "trait.name"@[0]);
        assert(ld[0] != "class.name"@[0]);
        assert(ld.len() != "interface.name"@.len());
        assert(ld.len() != "type.name"@.len());
        assert(ld[0] != "const.name"@[0]);
        assert(ld.len() != "static.name"@.len());
        assert(ld.len() != "mod.name"@.len());
        assert(ld.len() != "function.def"@.len());
        assert(ld[0] != "method.def"@[0]);
    }
    if ld == "enum.def"@ {
        assert(ld.len() != "method.name"@.len());
        assert(ld.len() != "impl.type"@.len());
        assert(ld.len() != "function.name"@.len());
        assert(ld.len() != "struct.name"@.len());
        assert(ld.len() != "enum.name"@.len());
        assert(ld.len() != "trait.name"@.len());
        assert(ld.len() != "class.name"@.len());
        assert(ld.len() != "interface.name"@.len());
        assert(ld.len() != "type.name"@.len());
        assert(ld.len() != "const.name"@.len());
        assert(ld.len() != "static.name"@.len());
        assert(ld[0] != "mod.name"@[0]);
        assert(ld.len() != "function.def"@.len());
        assert(ld.len() != "method.def"@.len());
        assert(ld.len() != "struct.def"@.len());
    }
    if ld == "trait.def"@ {
        assert(ld.len() != "method.name"@.len());
        assert(ld[0] != "impl.type"@[0]);
        assert(ld.len() != "function.name"@.len());
        assert(ld.len() != "struct.name"@.len());
        assert(ld[0] != "enum.name"@[0]);
        assert(ld.len() != "trait.name"@.len());
        assert(ld.len() != "class.name"@.len());
        assert(ld.len() != "interface.name"@.len());
        assert(ld[1] != "type.name"@[1]);
        assert(ld.len() != "const.name"@.len());
        assert(ld.len() != "static.name"@.len());
        assert(ld.len() != "mod.name"@.len());
        assert(ld.len() != "function.def"@.len());
        assert(ld.len() != "method.def"@.len());
        assert(ld.len() != "struct.def"@.len());
        assert(ld.len() != "enum.def"@.len());
    }
    if ld == "class.def"@ {
        assert(ld.len() != "method.name"@.len());
        assert(ld[0] != "impl.type"@[0]);
        assert(ld.len() != "function.name"@.len());
        assert(ld.len() != "struct.name"@.len());
        assert(ld[0] != "enum.name"@[0]);
        assert(ld.len() != "trait.name"@.len());
        assert(ld.len() != "class.name"@.len());
        assert(ld.len() != "interface.name"@.len());
        assert(ld[0] != "type.name"@[0]);
        assert(ld.len() != "const.name"@.len());
        assert(ld.len() != "static.name"@.len());
        assert(ld.len() != "mod.name"@.len());
        assert(ld.len() != "function.def"@.len());
        assert(ld.len() != "method.def"@.len());
        assert(ld.len() != "struct.def"@.len());
        assert(ld.len() != "enum.def"@.len());
        assert(ld[0] != "trait.def"@[0]);
    }
    if ld == "interface.def"@ {
        assert(ld.len() != "method.name"@.len());
        assert(ld.len() != "impl.type"@.len());
        assert(ld[0] != "function.name"@[0]);
        assert(ld.len() != "struct.name"@.len());
        assert(ld.len() != "enum.name"@.len());
        assert(ld.len() != "trait.name"@.len());
        assert(ld.len() != "class.name"@.len());
        assert(ld.len() != "interface.name"@.len());
        assert(ld.len() != "type.name"@.len());
        assert(ld.len() != "const.name"@.len());
        assert(ld.len() != "static.name"@.len());
        assert(ld.len() != "mod.name"@.len());
        assert(ld.len() != "function.def"@.len());
        assert(ld.len() != "method.def"@.len());
        assert(ld.len() != "struct.def"@.len());
        assert(ld.len() != "enum.def"@.len());
        assert(ld.len() != "trait.def"@.len());
        assert(ld.len() != "class.def"@.len());
    }
    if ld == "type.def"@ {
        assert(ld.len() != "method.name"@.len());
        assert(ld.len() != "impl.type"@.len());
        assert(ld.len() != "function.name"@.len());
        assert(ld.len() != "struct.name"@.len());
        assert(ld.len() != "enum.name"@.len());
        assert(ld.len() != "trait.name"@.len());
        assert(ld.len() != "class.name"@.len());
        assert(ld.len() != "interface.name"@.len());
        assert(ld.len() != "type.name"@.len());
        assert(ld.len() != "const.name"@.len());
        assert(ld.len() != "static.name"@.len());
        assert(ld[0] != "mod.name"@[0]);
        assert(ld.len() != "function.def"@.len());
        assert(ld.len() != "method.def"@.len());
        assert(ld.len() != "struct.def"@.len());
        assert(ld[0] != "enum.def"@[0]);
        assert(ld.len() != "trait.def"@.len());
        assert(ld.len() != "class.def"@.len());
        assert(ld.len() != "interface.def"@.len());
    }
    if ld == "const.def"@ {
        assert(ld.len() != "method.name"@.len());
        assert(ld[0] != "impl.type"@[0]);
        assert(ld.len() != "function.name"@.len());
        assert(ld.len() != "struct.name"@.len());
        assert(ld[0] != "enum.name"@[0]);
        assert(ld.len() != "trait.name"@.len());
        assert(ld.len() != "class.name"@.len());
        assert(ld.len() != "interface.name"@.len());
        assert(ld[0] != "type.name"@[0]);
        assert(ld.len() != "const.name"@.len());
        assert(ld.len() != "static.name"@.len());
        assert(ld.len() != "mod.name"@.len());
        assert(ld.len() != "function.def"@.len());
        assert(ld.len() != "method.def"@.len());
        assert(ld.len() != "struct.def"@.len());
        assert(ld.len() != "enum.def"@.len());
        assert(ld[0] != "trait.def"@[0]);
        assert(ld[1] != "class.def"@[1]);
        assert(ld.len() != "interface.def"@.len());
        assert(ld.len() != "type.def"@.len());
    }
    if ld == "static.def"@ {
        assert(ld.len() != "method.name"@.len());
        assert(ld.len() != "impl.type"@.len());
        assert(ld.len() != "function.name"@.len());
        assert(ld.len() != "struct.name"@.len());
        assert(ld.len() != "enum.name"@.len());
        assert(ld[0] != "trait.name"@[0]);
        assert(ld[0] != "class.name"@[0]);
        assert(ld.len() != "interface.name"@.len());
        assert(ld.len() != "type.name"@.len());
        assert(ld[0] != "const.name"@[0]);
        assert(ld.len() != "static.name"@.len());
        assert(ld.len() != "mod.name"@.len());
        assert(ld.len() != "function.def"@.len());
        assert(ld[0] != "method.def"@[0]);
        assert(ld[2] != "struct.def"@[2]);
        assert(ld.len() != "enum.def"@.len());
        assert(ld.len() != "trait.def"@.len());
        assert(ld.len() != "class.def"@.len());
        assert(ld.len() != "interface.def"@.len());
        assert(ld.len() != "type.def"@.len());
        assert(ld.len() != "const.def"@.len());
    }
    if ld == "mod.def"@ {
        assert(ld.len() != "method.name"@.len());
        assert(ld.len() != "impl.type"@.len());
        assert(ld.len() != "function.name"@.len());
        assert(ld.len() != "struct.name"@.len());
        assert(ld.len() != "enum.name"@.len());
        assert(ld.len() != "trait.name"@.len());
        assert(ld.len() != "class.name"@.len());
        assert(ld.len() != "interface.name"@.len());
        assert(ld.len() != "type.name"@.len());
        assert(ld.len() != "const.name"@.len());
        assert(ld.len() != "static.name"@.len());
        assert(ld.len() != "mod.name"@.len());
        assert(ld.len() != "function.def"@.len());
        assert(ld.len() != "method.def"@.len());
        assert(ld.len() != "struct.def"@.len());
        assert(ld.len() != "enum.def"@.len());
        assert(ld.len() != "trait.def"@.len());
        assert(ld.len() != "class.def"@.len());
        assert(ld.len() != "interface.def"@.len());
        assert(ld.len() != "type.def"@.len());
        assert(ld.len() != "const.def"@.len());
        assert(ld.len() != "static.def"@.len());
    }
    if ln == "function.name"@ {
        assert(ln.len() != "method.name"@.len());
        assert(ln.len() != "impl.type"@.len());
    }
    if ln == "struct.name"@ {
        assert(ln[0] != "method.name"@[0]);
        assert(ln.len() != "impl.type"@.len());
        assert(ln.len() != "function.name"@.len());
    }
    if ln == "enum.name"@ {
        assert(ln.len() != "method.name"@.len());
        assert(ln[0] != "impl.type"@[0]);
        assert(ln.len() != "function.name"@.len());
        assert(ln.len() != "struct.name"@.len());
    }
    if ln == "trait.name"@ {
        assert(ln.len() != "method.name"@.len());
        assert(ln.len() != "impl.type"@.len());
        assert(ln.len() != "function.name"@.len());
        assert(ln.len() != "struct.name"@.len());
        assert(ln.len() != "enum.name"@.len());
    }
    if ln == "class.name"@ {
        assert(ln.len() != "method.name"@.len());
        assert(ln.len() != "impl.type"@.len());
        assert(ln.len() != "function.name"@.len());
        assert(ln.len() != "struct.name"@.len());
        assert(ln.len() != "enum.name"@.len());
        assert(ln[0] != "trait.name"@[0]);
    }
    if ln == "interface.name"@ {
        assert(ln.len() != "method.name"@.len());
        assert(ln.len() != "impl.type"@.len());
        assert(ln.len() != "function.name"@.len());
        assert(ln.len() != "struct.name"@.len());
        assert(ln.len() != "enum.name"@.len());
        assert(ln.len() != "trait.name"@.len());
        assert(ln.len() != "class.name"@.len());
    }
    if ln == "type.name"@ {
        assert(ln.len() != "method.name"@.len());
        assert(ln[0] != "impl.type"@[0]);
        assert(ln.len() != "function.name"@.len());
        assert(ln.len() != "struct.name"@.len());
        assert(ln[0] != "enum.name"@[0]);
        assert(ln.len() != "trait.name"@.len());
        assert(ln.len() != "class.name"@.len());
        assert(ln.len() != "interface.name"@.len());
    }
    if ln == "const.name"@ {
        assert(ln.len() != "method.name"@.len());
        assert(ln.len() != "impl.type"@.len());
        assert(ln.len() != "function.name"@.len());
        assert(ln.len() != "struct.name"@.len());
        assert(ln.len() != "enum.name"@.len());
        assert(ln[0] != "trait.name"@[0]);
        assert(ln[1] != "class.name"@[1]);
        assert(ln.len() != "interface.name"@.len());
        assert(ln.len() != "type.name"@.len());
    }
    if ln == "static.name"@ {
        assert(ln[0] != "method.name"@[0]);
        assert(ln.len() != "impl.type"@.len());
        assert(ln.len() != "function.name"@.len());
        assert(ln[2] != "struct.name"@[2]);
        assert(ln.len() != "enum.name"@.len());
        assert(ln.len() != "trait.name"@.len());
        assert(ln.len() != "class.name"@.len());
        assert(ln.len() != "interface.name"@.len());
        assert(ln.len() != "type.name"@.len());
        assert(ln.len() != "const.name"@.len());
    }
    if ln == "mod.name"@ {
        assert(ln.len() != "method.name"@.len());
        assert(ln.len() != "impl.type"@.len());
        assert(ln.len() != "function.name"@.len());
        assert(ln.len() != "struct.name"@.len());
        assert(ln.len() != "enum.name"@.len());
        assert(ln.len() != "trait.name"@.len());
        assert(ln.len() != "class.name"@.len());
        assert(ln.len() != "interface.name"@.len());
        assert(ln.len() != "type.name"@.len());
        assert(ln.len() != "const.name"@.len());
        assert(ln.len() != "static.name"@.len());
    }
    let caps = if def_first { seq![d, n] } else { seq![n, d] };
    let ms = seq![caps];
    assert(ms.drop_last() =~= Seq::<Seq<CaptureInfo>>::empty());
    assert(ms.last() == caps);
    assert(caps.drop_last().drop_last() =~= Seq::<CaptureInfo>::empty());
    if def_first {
        assert(caps.drop_last() =~= seq![d]);
    } else {
        assert(caps.drop_last() =~= seq![n]);
    }
    let prev = symbols_of(ms.drop_last(), labels, file, language, source);
    assert(prev.0 =~= Seq::<SymbolView>::empty());
    assert(prev.1 is None);
    let tn = byte_range_text(source, n.start_byte as int, n.end_byte as int);
    let td = byte_range_text(source, d.start_byte as int, d.end_byte as int);
    let first = caps[0];
    let g0 = fresh(None);
    let g1 = gather(g0, caps.drop_last(), labels, source);
    assert(gather(g0, caps.drop_last().drop_last(), labels, source) == g0);
    assert(caps.drop_last().last() == first);
    assert(g1 == apply_capture(g0, labels[first.index as int], byte_range_text(source, first.start_byte as int, first.end_byte as int), first));
    let g = gather(g0, caps, labels, source);
    assert(g == apply_capture(g1, labels[caps.last().index as int], byte_range_text(source, caps.last().start_byte as int, caps.last().end_byte as int), caps.last()));
    assert(name_label_kind(ld) is None);
    assert(is_def_label(ld));
    assert(ln == "method.name"@ || name_label_kind(ln) == Some(kind));
    assert(!is_def_label(ln) || ln == "method.name"@ || name_label_kind(ln) is Some);
    assert(g.name == Some(tn));
    assert(g.kind == Some(kind));
    assert(g.def == Some(d));
    assert(g.parent is None);
    assert(complete(g));
    assert(prev.0.push(symbol_from(gather(fresh(prev.1), caps, labels, source), file, language, source)) =~= seq![
        symbol_from(gather(fresh(prev.1), caps, labels, source), file, language, source)]);
}


/// The text of a capture.
pub open spec fn capture_text(c: CaptureInfo, source: Seq<char>) -> Seq<char> {
    byte_range_text(source, c.start_byte as int, c.end_byte as int)
}

proof fn lemma_refs_in(caps: Seq<CaptureInfo>, callee: Option<usize>, source: Seq<char>, t: Seq<char>)
    ensures
        refs_in(caps, callee, source).contains(t) <==> exists|j: int|
            0 <= j < caps.len() && callee == Some(caps[j].index as usize) && #[trigger] capture_text(caps[j], source)
                == t && t.len() > 0,
    decreases caps.len(),
{
    if caps.len() > 0 {
        let rest = caps.drop_last();
        lemma_refs_in(rest, callee, source, t);
        if refs_in(rest, callee, source).contains(t) {
            let j = choose|j: int|
                0 <= j < rest.len() && callee == Some(rest[j].index as usize) && #[trigger] capture_text(rest[j], source)
                    == t && t.len() > 0;
            assert(caps[j] == rest[j]);
        }
        if exists|j: int|
            0 <= j < caps.len() && callee == Some(caps[j].index as usize) && #[trigger] capture_text(caps[j], source)
                == t && t.len() > 0 {
            let j = choose|j: int|
                0 <= j < caps.len() && callee == Some(caps[j].index as usize) && #[trigger] capture_text(caps[j], source)
                    == t && t.len() > 0;
            if j < caps.len() - 1 {
                assert(rest[j] == caps[j]);
                assert(capture_text(rest[j], source) == t);
            } else {
                assert(cap_ref(caps.last(), callee, source) == Some(t));
            }
        }
        if refs_in(caps, callee, source).contains(t) && !refs_in(rest, callee, source).contains(t) {
            assert(cap_ref(caps.last(), callee, source) == Some(t));
            assert(capture_text(caps[caps.len() - 1], source) == t);
        }
    }
}

/// An identifier is among the references of the matches exactly when some
/// capture of the callee capture name has it, not empty, as its text.
pub proof fn law_refs_are_callee_texts(ms: Seq<Seq<CaptureInfo>>, callee: Option<usize>, source: Seq<char>, t: Seq<char>)
    ensures
        refs_of(ms, callee, source).contains(t) <==> exists|i: int, j: int|
            0 <= i < ms.len() && 0 <= j < ms[i].len() && callee == Some(ms[i][j].index as usize)
                && #[trigger] capture_text(ms[i][j], source) == t && t.len() > 0,
    decreases ms.len(),
{
    if ms.len() > 0 {
        let rest = ms.drop_last();
        law_refs_are_callee_texts(rest, callee, source, t);
        lemma_refs_in(ms.last(), callee, source, t);
        if refs_of(ms, callee, source).contains(t) {
            if refs_of(rest, callee, source).contains(t) {
                let (i, j) = choose|i: int, j: int|
                    0 <= i < rest.len() && 0 <= j < rest[i].len() && callee == Some(rest[i][j].index as usize)
                        && #[trigger] capture_text(rest[i][j], source) == t && t.len() > 0;
                assert(ms[i] == rest[i]);
                assert(capture_text(ms[i][j], source) == t);
            } else {
                let j = choose|j: int|
                    0 <= j < ms.last().len() && callee == Some(ms.last()[j].index as usize)
                        && #[trigger] capture_text(ms.last()[j], source) == t && t.len() > 0;
                assert(capture_text(ms[ms.len() - 1][j], source) == t);
            }
        }
        if exists|i: int, j: int|
            0 <= i < ms.len() && 0 <= j < ms[i].len() && callee == Some(ms[i][j].index as usize)
                && #[trigger] capture_text(ms[i][j], source) == t && t.len() > 0 {
            let (i, j) = choose|i: int, j: int|
                0 <= i < ms.len() && 0 <= j < ms[i].len() && callee == Some(ms[i][j].index as usize)
                    && #[trigger] capture_text(ms[i][j], source) == t && t.len() > 0;
            if i < ms.len() - 1 {
                assert(rest[i] == ms[i]);
                assert(capture_text(rest[i][j], source) == t);
            } else {
                assert(capture_text(ms.last()[j], source) == t);
            }
        }
    }
}

} // verus!
