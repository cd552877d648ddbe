use std::str::FromStr;
use coderlm_server::index::file_entry::Language;
use coderlm_server::symbols::symbol::{Symbol, SymbolKind};

#[test]
fn test_symbol_kind_parse_function() {
    assert_eq!("function".parse::<SymbolKind>().unwrap(), SymbolKind::Function);
    assert_eq!("fn".parse::<SymbolKind>().unwrap(), SymbolKind::Function);
    assert_eq!("func".parse::<SymbolKind>().unwrap(), SymbolKind::Function);
}

#[test]
fn test_symbol_kind_parse_class() {
    assert_eq!("class".parse::<SymbolKind>().unwrap(), SymbolKind::Class);
    assert_eq!("struct".parse::<SymbolKind>().unwrap(), SymbolKind::Struct);
    assert_eq!("enum".parse::<SymbolKind>().unwrap(), SymbolKind::Enum);
    assert_eq!("trait".parse::<SymbolKind>().unwrap(), SymbolKind::Trait);
    assert_eq!("interface".parse::<SymbolKind>().unwrap(), SymbolKind::Interface);
}

#[test]
fn test_symbol_kind_parse_other() {
    assert_eq!("module".parse::<SymbolKind>().unwrap(), SymbolKind::Module);
    assert_eq!("mod".parse::<SymbolKind>().unwrap(), SymbolKind::Module);
    assert_eq!("constant".parse::<SymbolKind>().unwrap(), SymbolKind::Constant);
    assert_eq!("const".parse::<SymbolKind>().unwrap(), SymbolKind::Constant);
    assert_eq!("variable".parse::<SymbolKind>().unwrap(), SymbolKind::Variable);
}

#[test]
fn test_symbol_kind_parse_invalid() {
    assert!("foobar".parse::<SymbolKind>().is_err());
    assert!("".parse::<SymbolKind>().is_err());
}

#[test]
fn test_symbol_kind_fromstr_trait() {
    assert_eq!(SymbolKind::from_str("fn").unwrap(), SymbolKind::Function);
    assert!(SymbolKind::from_str("invalid").is_err());
}

#[test]
fn test_symbol_struct_fields() {
    let sym = Symbol {
        name: "foo".to_string(),
        kind: SymbolKind::Function,
        file: "lib.rs".to_string(),
        byte_range: (0, 10),
        line_range: (1, 3),
        language: Language::Rust,
        signature: "fn foo()".to_string(),
        definition: None,
        parent: None,
    };
    assert_eq!(sym.name, "foo");
    assert_eq!(sym.kind, SymbolKind::Function);
    assert_eq!(sym.file, "lib.rs");
    assert_eq!(sym.byte_range, (0, 10));
}
