use coderlm_server::index::file_entry::Language;
use coderlm_server::symbols::symbol::{Symbol, SymbolKind};
use coderlm_server::symbols::SymbolTable;

fn make_test_symbol(name: &str, file: &str) -> Symbol {
    Symbol {
        name: name.to_string(),
        kind: SymbolKind::Function,
        file: file.to_string(),
        byte_range: (0, 1),
        line_range: (1, 1),
        language: Language::Rust,
        signature: format!("fn {}()", name),
        definition: None,
        parent: None,
    }
}

#[test]
fn test_insert_and_get() {
    let mut table = SymbolTable::new();
    table.insert(make_test_symbol("foo", "lib.rs"));
    let sym = table.get("lib.rs", "foo");
    assert!(sym.is_some());
    assert_eq!(sym.unwrap().name, "foo");
}

#[test]
fn test_get_nonexistent() {
    let table = SymbolTable::new();
    assert!(table.get("lib.rs", "nonexistent").is_none());
}

#[test]
fn test_insert_twice_overwrites() {
    let mut table = SymbolTable::new();
    table.insert(make_test_symbol("foo", "lib.rs"));
    let mut sym2 = make_test_symbol("foo", "lib.rs");
    sym2.signature = "fn foo(x: i32)".to_string();
    table.insert(sym2);
    let sym = table.get("lib.rs", "foo").unwrap();
    assert_eq!(sym.signature, "fn foo(x: i32)");
}

#[test]
fn test_list_by_file() {
    let mut table = SymbolTable::new();
    table.insert(make_test_symbol("foo", "lib.rs"));
    table.insert(make_test_symbol("bar", "lib.rs"));
    table.insert(make_test_symbol("baz", "main.rs"));

    let lib_syms = table.list_by_file("lib.rs");
    assert_eq!(lib_syms.len(), 2);

    let main_syms = table.list_by_file("main.rs");
    assert_eq!(main_syms.len(), 1);
}

#[test]
fn test_all_symbols() {
    let mut table = SymbolTable::new();
    table.insert(make_test_symbol("a", "a.rs"));
    table.insert(make_test_symbol("b", "b.rs"));
    assert_eq!(table.all_symbols().len(), 2);
}

#[test]
fn test_len() {
    let mut table = SymbolTable::new();
    assert_eq!(table.len(), 0);
    table.insert(make_test_symbol("foo", "lib.rs"));
    assert_eq!(table.len(), 1);
}

#[test]
fn test_remove_file() {
    let mut table = SymbolTable::new();
    table.insert(make_test_symbol("foo", "lib.rs"));
    table.insert(make_test_symbol("bar", "lib.rs"));
    assert_eq!(table.len(), 2);

    table.remove_file("lib.rs");
    assert_eq!(table.len(), 0);
}

#[test]
fn test_search() {
    let mut table = SymbolTable::new();
    table.insert(make_test_symbol("handle_request", "server.rs"));
    table.insert(make_test_symbol("handle_response", "server.rs"));
    table.insert(make_test_symbol("connect", "net.rs"));

    let results = table.search("handle", 10);
    assert_eq!(results.len(), 2);
}

#[test]
fn test_search_limit() {
    let mut table = SymbolTable::new();
    table.insert(make_test_symbol("foo1", "lib.rs"));
    table.insert(make_test_symbol("foo2", "lib.rs"));
    table.insert(make_test_symbol("foo3", "lib.rs"));

    let results = table.search("foo", 2);
    assert_eq!(results.len(), 2);
}

#[test]
fn test_id_refs() {
    let mut table = SymbolTable::new();
    table.insert_id_ref("handle_request".to_string(), "server.rs".to_string());
    table.insert_id_ref("handle_request".to_string(), "client.rs".to_string());

    let refs = table.id_refs.get("handle_request").unwrap();
    assert_eq!(refs.len(), 2);
    assert!(refs.contains("server.rs"));
    assert!(refs.contains("client.rs"));
}

#[test]
fn test_symbol_table_operations() {
    let mut table = SymbolTable::new();
    let sym = Symbol {
        name: "test_fn".to_string(),
        kind: SymbolKind::Function,
        file: "src/lib.rs".to_string(),
        byte_range: (0, 10),
        line_range: (1, 3),
        language: Language::Rust,
        signature: "fn test_fn()".to_string(),
        definition: None,
        parent: None,
    };
    table.insert(sym);
    assert_eq!(table.len(), 1);
}
