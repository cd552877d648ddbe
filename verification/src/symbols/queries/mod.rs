//! Per-language tree-sitter queries for symbol extraction.
pub mod vue;

use vstd::prelude::*;
use crate::index::file_entry::Language;

verus! {

/// The tree-sitter grammars this build carries.
#[derive(Debug, Clone, Copy, PartialEq, Eq, Structural)]
pub enum Grammar {
    Vue,
}

/// How the tests of a language are recognized.
pub enum TestPattern {
    /// Match functions whose name starts with a prefix (e.g., "test_" in Python)
    FunctionPrefix(&'static str),
    /// Match functions with a specific attribute/decorator (e.g., #[test] in Rust)
    Attribute(&'static str),
    /// Match call expressions (e.g., it(), test(), describe() in JS/TS)
    CallExpression(&'static str),
}

/// The grammar and the queries used for one language.
pub struct LanguageConfig {
    pub language: Grammar,
    pub symbols_query: &'static str,
    /// Tree-sitter query for call expressions. Captures `@callee` for the called name.
    pub callers_query: &'static str,
    /// Tree-sitter query for local variable bindings. Captures `@var.name`.
    pub variables_query: &'static str,
    pub test_patterns: Vec<TestPattern>,
}

/// The languages this build has a grammar and queries for.
pub open spec fn has_language_config(lang: Language) -> bool {
    lang == Language::Vue
}

/// The symbols query of a language this build has a configuration for.
pub open spec fn symbols_query_of(lang: Language) -> Seq<char> {
    match lang {
        Language::Vue => vue::SYMBOLS_QUERY@,
        _ => Seq::empty(),
    }
}

/// The callers query of a language this build has a configuration for.
pub open spec fn callers_query_of(lang: Language) -> Seq<char> {
    match lang {
        Language::Vue => vue::CALLERS_QUERY@,
        _ => Seq::empty(),
    }
}

/// The tree-sitter grammar and queries for a language, if this build has them.
pub fn get_language_config(lang: Language) -> (r: Option<LanguageConfig>)
    ensures
        r is Some <==> has_language_config(lang),
        lang == Language::Vue ==> (r matches Some(c) && c.language == Grammar::Vue
            && c.symbols_query@ == vue::SYMBOLS_QUERY@ && c.callers_query@ == vue::CALLERS_QUERY@
            && c.variables_query@ == vue::VARIABLES_QUERY@),
{
    match lang {
        Language::Vue => Some(vue::config()),
        _ => None,
    }
}

} // verus!
