use coderlm_server::config::{has_ignored_extension, should_ignore_extension};
use coderlm_server::index::file_entry::{FileEntry, FileMark, Language, Timestamp};
use coderlm_server::server::state::{FileCache, ParseCache};
use coderlm_server::symbols::parser::{
    callee_index, extract_symbols_from_source, extract_vue_script_content, find_script_raw,
    get_parse_tree, matches_well_formed, refs_from_matches, symbols_from_matches, ExtractError,
};
use coderlm_server::symbols::queries::{get_language_config, Grammar};
use coderlm_server::symbols::symbol::{Symbol, SymbolKind};
use coderlm_server::symbols::treesitter::{tree_preorder, CaptureInfo, MatchInfo, NodeInfo};
use coderlm_server::symbols::SymbolTable;
use coderlm_server::text::{byte_range_string, first_line_of, str_eq};

fn sym(name: &str, file: &str) -> Symbol {
    Symbol {
        name: name.to_string(),
        kind: SymbolKind::Function,
        file: file.to_string(),
        byte_range: (0, 1),
        line_range: (1, 1),
        language: Language::Rust,
        signature: format!("fn {}()", name),
        definition: None,
        parent: None,
    }
}

fn cap(index: u32, start_byte: usize, end_byte: usize, start_row: usize, end_row: usize) -> CaptureInfo {
    CaptureInfo { index, start_byte, end_byte, start_row, end_row }
}

#[test]
fn uppercase_extensions_are_lowercased_first() {
    assert_eq!(Language::from_extension("RS"), Language::Rust);
    assert_eq!(Language::from_extension("Py"), Language::Python);
    assert!(should_ignore_extension("IMAGE.PNG"));
    assert!(!has_ignored_extension("IMAGE.PNG"));
    assert!(has_ignored_extension("image.png"));
    assert_eq!(FileMark::from_name("DOCS"), Some(FileMark::Documentation));
    assert_eq!("FN".parse::<SymbolKind>().unwrap(), SymbolKind::Function);
}

#[test]
fn every_extension_alias_maps() {
    let cases = [
        ("jsx", Language::JavaScript), ("cjs", Language::JavaScript), ("sc", Language::Scala),
        ("h", Language::C), ("hh", Language::Cpp), ("cxx", Language::Cpp), ("rb", Language::Ruby),
        ("zsh", Language::Shell), ("mdx", Language::Markdown), ("jsonc", Language::Json),
        ("yml", Language::Yaml), ("toml", Language::Toml), ("htm", Language::Html),
        ("less", Language::Css),
    ];
    for (ext, lang) in cases {
        assert_eq!(Language::from_extension(ext), lang);
    }
}

#[test]
fn language_from_path_uses_the_last_extension() {
    assert_eq!(Language::from_path("src/main.rs"), Language::Rust);
    assert_eq!(Language::from_path("a/b/archive.tar.gz"), Language::Other);
    assert_eq!(Language::from_path("Makefile"), Language::Other);
    assert_eq!(Language::from_path(".bashrc"), Language::Other);
    assert_eq!(Language::from_path("web/App.VUE"), Language::Vue);
}

#[test]
fn file_entry_new_fills_defaults() {
    let e = FileEntry::new("src/lib.rs".to_string(), 100, Timestamp { secs: 5, nanos: 7 });
    assert_eq!(e.rel_path, "src/lib.rs");
    assert_eq!(e.size, 100);
    assert_eq!(e.modified, Timestamp { secs: 5, nanos: 7 });
    assert_eq!(e.language, Language::Rust);
    assert!(e.definition.is_none());
    assert!(e.marks.is_empty());
    assert!(!e.symbols_extracted);
}

#[test]
fn other_marks_and_kinds() {
    assert_eq!(FileMark::from_name("tests"), Some(FileMark::Test));
    assert_eq!(FileMark::from_name("configuration"), Some(FileMark::Config));
    assert_eq!(FileMark::from_name("gen"), Some(FileMark::Generated));
    assert_eq!("let".parse::<SymbolKind>().unwrap(), SymbolKind::Variable);
    assert_eq!("use".parse::<SymbolKind>().unwrap(), SymbolKind::Import);
    assert_eq!("type".parse::<SymbolKind>().unwrap(), SymbolKind::Type);
    assert_eq!("method".parse::<SymbolKind>().unwrap(), SymbolKind::Method);
    assert!(Language::Vue.has_tree_sitter_support());
    assert!(Language::Java.has_tree_sitter_support());
    assert!(!Language::C.has_tree_sitter_support());
}

#[test]
fn unknown_kind_message_quotes_the_input() {
    assert_eq!("Foobar".parse::<SymbolKind>().unwrap_err(), "Unknown symbol kind: 'Foobar'");
}

#[test]
fn make_key_joins_file_and_name() {
    assert_eq!(SymbolTable::make_key("src/a.rs", "run"), "src/a.rs::run");
}

#[test]
fn get_after_insert_gives_the_symbol() {
    let mut table = SymbolTable::new();
    let mut s = sym("run", "a.rs");
    s.parent = Some("Runner".to_string());
    table.insert(s.clone());
    let got = table.get("a.rs", "run").unwrap();
    assert_eq!(got.signature, "fn run()");
    assert_eq!(got.parent, Some("Runner".to_string()));
    assert!(table.get("b.rs", "run").is_none());
    assert!(!table.is_empty());
}

#[test]
fn insert_len_counts_new_keys_only() {
    let mut table = SymbolTable::new();
    assert!(table.is_empty());
    table.insert(sym("a", "x.rs"));
    table.insert(sym("a", "y.rs"));
    assert_eq!(table.len(), 2);
    table.insert(sym("a", "x.rs"));
    assert_eq!(table.len(), 2);
    assert_eq!(table.by_name.get("a").unwrap().len(), 2);
}

#[test]
fn remove_file_forgets_the_file_and_keeps_others() {
    let mut table = SymbolTable::new();
    table.insert(sym("foo", "lib.rs"));
    table.insert(sym("bar", "lib.rs"));
    table.insert(sym("foo", "main.rs"));
    table.insert_id_ref("foo".to_string(), "lib.rs".to_string());
    table.insert_id_ref("foo".to_string(), "main.rs".to_string());
    table.insert_id_ref("bar".to_string(), "lib.rs".to_string());
    table.remove_file("lib.rs");
    assert_eq!(table.len(), 1);
    assert!(table.get("main.rs", "foo").is_some());
    assert!(table.get("lib.rs", "foo").is_none());
    assert!(table.list_by_file("lib.rs").is_empty());
    assert!(table.by_file.get("lib.rs").is_none());
    assert!(table.by_name.get("bar").is_none());
    assert_eq!(table.by_name.get("foo").unwrap().len(), 1);
    assert!(table.file_to_ids.get("lib.rs").is_none());
    assert!(table.id_refs.get("bar").is_none());
    let refs = table.id_refs.get("foo").unwrap();
    assert_eq!(refs.len(), 1);
    assert!(refs.contains("main.rs"));
}

#[test]
fn id_refs_mirror_each_other() {
    let mut table = SymbolTable::new();
    table.insert_id_ref("connect".to_string(), "net.rs".to_string());
    assert!(table.file_to_ids.get("net.rs").unwrap().contains("connect"));
    assert!(table.id_refs.get("connect").unwrap().contains("net.rs"));
}

#[test]
fn list_by_file_lists_exactly_the_file() {
    let mut table = SymbolTable::new();
    table.insert(sym("foo", "lib.rs"));
    table.insert(sym("bar", "lib.rs"));
    table.insert(sym("baz", "main.rs"));
    let mut names: Vec<String> = table.list_by_file("lib.rs").into_iter().map(|s| s.name).collect();
    names.sort();
    assert_eq!(names, vec!["bar".to_string(), "foo".to_string()]);
    assert!(table.list_by_file("none.rs").is_empty());
    let mut all: Vec<String> = table.all_symbols().into_iter().map(|s| s.name).collect();
    all.sort();
    assert_eq!(all, vec!["bar".to_string(), "baz".to_string(), "foo".to_string()]);
}

#[test]
fn search_ranks_best_first_and_skips_non_matches() {
    let mut table = SymbolTable::new();
    table.insert(sym("xx_handle_yy", "a.rs"));
    table.insert(sym("handle", "b.rs"));
    table.insert(sym("connect", "c.rs"));
    let results = table.search("handle", 10);
    assert_eq!(results.len(), 2);
    assert_eq!(results[0].name, "handle");
    let top = table.search("handle", 1);
    assert_eq!(top.len(), 1);
    assert_eq!(top[0].name, "handle");
    assert!(table.search("zzz", 10).is_empty());
    assert!(table.search("handle", 0).is_empty());
}

#[test]
fn file_cache_reads_back_and_counts() {
    let mut cache = FileCache::new(10);
    assert!(cache.lookup("a").is_none());
    assert_eq!(cache.hits, 0);
    let c = cache.record_read("a", "hello".to_string());
    assert_eq!(c, "hello");
    assert_eq!(cache.misses, 1);
    assert_eq!(cache.total_bytes, 5);
    assert_eq!(cache.lookup("a"), Some("hello".to_string()));
    assert_eq!(cache.hits, 1);
    cache.record_read("a", "other".to_string());
    assert_eq!(cache.misses, 1);
    assert_eq!(cache.lookup("a"), Some("hello".to_string()));
}

#[test]
fn file_cache_clears_when_full_and_skips_large_files() {
    let mut cache = FileCache::new(10);
    cache.record_read("a", "12345".to_string());
    cache.record_read("b", "1234".to_string());
    assert_eq!(cache.total_bytes, 9);
    cache.record_read("c", "123".to_string());
    assert_eq!(cache.total_bytes, 3);
    assert!(cache.lookup("a").is_none());
    assert!(cache.lookup("b").is_none());
    assert_eq!(cache.lookup("c"), Some("123".to_string()));
    let big = cache.record_read("d", "0123456789ab".to_string());
    assert_eq!(big, "0123456789ab");
    assert!(cache.lookup("d").is_none());
    assert_eq!(cache.misses, 3);
    cache.record_read("e", "é".to_string());
    assert_eq!(cache.total_bytes, 5);
}

#[test]
fn file_cache_invalidate_drops_bytes() {
    let mut cache = FileCache::new(100);
    cache.record_read("a", "abc".to_string());
    cache.record_read("b", "de".to_string());
    cache.invalidate("a");
    assert_eq!(cache.total_bytes, 2);
    assert!(cache.lookup("a").is_none());
    cache.invalidate("zzz");
    assert_eq!(cache.total_bytes, 2);
}

#[test]
fn parse_cache_keeps_and_clears() {
    let source = "<template><div></div></template>";
    let mut cache = ParseCache::new(1);
    let tree = get_parse_tree("a.vue", source, Language::Vue, &mut cache).unwrap();
    assert_eq!(tree.root_node().kind(), "component");
    assert!(cache.lookup("a.vue", source.len()).is_some());
    assert!(cache.lookup("a.vue", source.len() + 1).is_none());
    get_parse_tree("b.vue", source, Language::Vue, &mut cache).unwrap();
    assert!(cache.lookup("a.vue", source.len()).is_none());
    assert!(cache.lookup("b.vue", source.len()).is_some());
    cache.invalidate("b.vue");
    assert!(cache.lookup("b.vue", source.len()).is_none());
}

#[test]
fn parse_tree_needs_a_language_config() {
    let mut cache = ParseCache::new(4);
    match get_parse_tree("a.rs", "fn main() {}", Language::Rust, &mut cache) {
        Err(ExtractError::NoConfig(l)) => assert_eq!(l, Language::Rust),
        _ => panic!("expected a missing configuration"),
    }
    assert!(get_language_config(Language::Vue).is_some());
    assert!(get_language_config(Language::Rust).is_none());
    assert_eq!(get_language_config(Language::Vue).unwrap().language, Grammar::Vue);
}

#[test]
fn symbols_from_matches_builds_symbols() {
    let source = "impl Foo {\n    fn run(&self) {\r\n    }\n}\n";
    let labels: Vec<String> = vec!["impl.type".to_string(), "method.name".to_string(), "method.def".to_string(), "function.name".to_string(), "function.def".to_string()];
    let matches = vec![
        MatchInfo { captures: vec![cap(0, 5, 8, 0, 0)] },
        MatchInfo { captures: vec![cap(2, 15, 40, 1, 2), cap(1, 18, 21, 1, 1)] },
        MatchInfo { captures: vec![cap(3, 18, 21, 1, 1)] },
    ];
    assert!(matches_well_formed(&matches, labels.len()));
    let syms = symbols_from_matches(&matches, &labels, "src/foo.rs", Language::Rust, source);
    assert_eq!(syms.len(), 1);
    let s = &syms[0];
    assert_eq!(s.name, "run");
    assert_eq!(s.kind, SymbolKind::Method);
    assert_eq!(s.parent, Some("Foo".to_string()));
    assert_eq!(s.file, "src/foo.rs");
    assert_eq!(s.byte_range, (15, 40));
    assert_eq!(s.line_range, (2, 3));
    assert_eq!(s.signature, "fn run(&self) {");
    assert_eq!(s.language, Language::Rust);
}

#[test]
fn malformed_matches_are_detected() {
    let matches = vec![MatchInfo { captures: vec![cap(3, 0, 1, 0, 0)] }];
    assert!(!matches_well_formed(&matches, 2));
    let rows = vec![MatchInfo { captures: vec![cap(0, 0, 1, 0, usize::MAX)] }];
    assert!(!matches_well_formed(&rows, 2));
}

#[test]
fn refs_collect_callee_texts() {
    let source = "foo(); bar.baz(); qux";
    let labels: Vec<String> = vec!["other".to_string(), "callee".to_string()];
    let callee = callee_index(&labels);
    assert_eq!(callee, Some(1));
    let matches = vec![
        MatchInfo { captures: vec![cap(1, 0, 3, 0, 0)] },
        MatchInfo { captures: vec![cap(0, 7, 10, 0, 0), cap(1, 11, 14, 0, 0)] },
        MatchInfo { captures: vec![cap(1, 3, 3, 0, 0)] },
        MatchInfo { captures: vec![cap(1, 0, 3, 0, 0)] },
    ];
    let refs = refs_from_matches(&matches, callee, source);
    assert_eq!(refs.len(), 2);
    assert!(refs.contains("foo"));
    assert!(refs.contains("baz"));
    assert_eq!(callee_index(&vec!["x".to_string()]), None);
}

#[test]
fn script_raw_text_is_found() {
    let source = "<script>let a = 1</script>";
    let nodes = vec![
        NodeInfo { kind: "component".to_string(), parent_kind: None, start_byte: 0, end_byte: 26 },
        NodeInfo { kind: "raw_text".to_string(), parent_kind: Some("style_element".to_string()), start_byte: 8, end_byte: 17 },
        NodeInfo { kind: "raw_text".to_string(), parent_kind: Some("script_element".to_string()), start_byte: 8, end_byte: 17 },
    ];
    assert_eq!(find_script_raw(&nodes, source), Some("let a = 1".to_string()));
    let mut first_two = nodes;
    first_two.truncate(2);
    assert_eq!(find_script_raw(&first_two, source), None);
}

#[test]
fn vue_script_content_is_extracted() {
    let source = "<template><div></div></template>\n<script>\nexport default {}\n</script>\n";
    assert_eq!(extract_vue_script_content(source).unwrap(), "export default {}\n");
    let no_script = "<template><div></div></template>\n";
    assert_eq!(extract_vue_script_content(no_script).unwrap(), no_script);
}

#[test]
fn extraction_without_config_yields_nothing() {
    let (syms, refs) = extract_symbols_from_source("main.rs", "fn main() { run(); }", Language::Rust).unwrap();
    assert!(syms.is_empty());
    assert!(refs.is_empty());
    let (syms, refs) = extract_symbols_from_source("App.vue", "<template></template>\n<script>\nfunction go() {}\n</script>\n", Language::Vue).unwrap();
    assert!(syms.is_empty());
    assert!(refs.is_empty());
    let (syms, _) = extract_symbols_from_source("App.vue", "<script></script>", Language::Vue).unwrap();
    assert!(syms.is_empty());
}

#[test]
fn text_helpers() {
    assert_eq!(byte_range_string("héllo", 1, 3), "é");
    assert_eq!(byte_range_string("héllo", 1, 2), "");
    assert_eq!(byte_range_string("abc", 2, 9), "");
    assert_eq!(byte_range_string("abc", 2, 1), "");
    assert_eq!(first_line_of("a\r\nb"), "a");
    assert_eq!(first_line_of("a\rb\nc"), "a\rb");
    assert_eq!(first_line_of("single"), "single");
    assert_eq!(first_line_of(""), "");
    assert!(str_eq("abc", "abc"));
    assert!(!str_eq("abc", "abd"));
}

#[test]
fn first_of_two_scripts_is_taken() {
    assert_eq!(extract_vue_script_content("<script>a()</script><script>b()</script>").unwrap(), "a()");
}

#[test]
fn preorder_starts_at_the_root() {
    let source = "<template><div></div></template>\n<script>\nlet x = 1\n</script>\n";
    let mut cache = ParseCache::new(4);
    let tree = get_parse_tree("c.vue", source, Language::Vue, &mut cache).unwrap();
    let nodes = tree_preorder(&tree);
    assert_eq!(nodes.len(), tree.root_node().descendant_count());
    assert_eq!(nodes[0].kind, "component");
    assert_eq!(nodes[0].parent_kind, None);
    assert_eq!(nodes[0].start_byte, 0);
    assert_eq!(nodes[0].end_byte, source.len());
    assert!(nodes[1..].iter().all(|n| n.parent_kind.is_some()));
    assert!(nodes.iter().any(|n| n.kind == "raw_text" && n.parent_kind.as_deref() == Some("script_element")));
}

#[test]
fn cached_tree_has_the_same_nodes() {
    let source = "<template><p></p></template>";
    let mut cache = ParseCache::new(4);
    let first = get_parse_tree("d.vue", source, Language::Vue, &mut cache).unwrap();
    let again = get_parse_tree("d.vue", source, Language::Vue, &mut cache).unwrap();
    let a = tree_preorder(&first);
    let b = tree_preorder(&again);
    assert_eq!(a.len(), b.len());
    for (x, y) in a.iter().zip(b.iter()) {
        assert_eq!(x.kind, y.kind);
        assert_eq!(x.parent_kind, y.parent_kind);
        assert_eq!((x.start_byte, x.end_byte), (y.start_byte, y.end_byte));
    }
}

#[test]
fn store_file_stores_symbols_and_refs() {
    let mut table = SymbolTable::new();
    let symbols = vec![sym("alpha", "lib.rs"), sym("beta", "lib.rs")];
    let mut refs = std::collections::HashSet::new();
    refs.insert("gamma".to_string());
    refs.insert("delta".to_string());
    assert_eq!(table.store_file("lib.rs", &symbols, &refs), 2);
    assert_eq!(table.len(), 2);
    assert!(table.get("lib.rs", "alpha").is_some());
    assert!(table.id_refs.get("gamma").unwrap().contains("lib.rs"));
    assert!(table.file_to_ids.get("lib.rs").unwrap().contains("delta"));
}

#[test]
fn removing_a_file_drops_its_count_and_name_entries() {
    let mut table = SymbolTable::new();
    table.insert(sym("one", "a.rs"));
    table.insert(sym("two", "a.rs"));
    table.insert(sym("one", "b.rs"));
    assert_eq!(table.len(), 3);
    table.remove_file("a.rs");
    assert_eq!(table.len(), 1);
    let named_one = table.by_name.get("one").unwrap();
    assert!(named_one.contains("b.rs::one"));
    assert!(!named_one.contains("a.rs::one"));
    drop(named_one);
    assert!(table.by_name.get("two").is_none());
    assert!(table.get("b.rs", "one").is_some());
}

#[test]
fn ascii_extensions_and_names_ignore_case() {
    assert_eq!(Language::from_extension("RS"), Language::Rust);
    assert_eq!(Language::from_path("web/App.Vue"), Language::Vue);
    assert_eq!(Language::from_path("dir.d/..rs"), Language::Rust);
    assert_eq!(Language::from_path("dir/.rs"), Language::Other);
    assert_eq!(FileMark::from_name("DOCS"), Some(FileMark::Documentation));
    assert_eq!("Struct".parse::<SymbolKind>(), Ok(SymbolKind::Struct));
    assert!(should_ignore_extension("IMAGE.PNG"));
}
