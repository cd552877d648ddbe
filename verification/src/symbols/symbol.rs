//! Symbols found in source files, and the kinds they come in.
use vstd::prelude::*;
use crate::index::file_entry::Language;
use crate::text::{ascii_lower, is_ascii_text, lowercase_of, str_eq, to_lowercase};

verus! {

broadcast use vstd::string::group_string_axioms;

/// What sort of definition a symbol is.
#[derive(Debug, Clone, Copy, PartialEq, Eq, Structural)]
pub enum SymbolKind {
    Function,
    Method,
    Class,
    Struct,
    Enum,
    Trait,
    Interface,
    Constant,
    Variable,
    Type,
    Module,
    Import,
    Other,
}

/// The kind that a name already in lowercase stands for.
pub open spec fn kind_of_lower_name(s: Seq<char>) -> Option<SymbolKind> {
    if s == "function"@ || s == "fn"@ || s == "func"@ {
        Some(SymbolKind::Function)
    } else if s == "method"@ {
        Some(SymbolKind::Method)
    } else if s == "class"@ {
        Some(SymbolKind::Class)
    } else if s == "struct"@ {
        Some(SymbolKind::Struct)
    } else if s == "enum"@ {
        Some(SymbolKind::Enum)
    } else if s == "trait"@ {
        Some(SymbolKind::Trait)
    } else if s == "interface"@ {
        Some(SymbolKind::Interface)
    } else if s == "constant"@ || s == "const"@ {
        Some(SymbolKind::Constant)
    } else if s == "variable"@ || s == "var"@ || s == "let"@ {
        Some(SymbolKind::Variable)
    } else if s == "type"@ {
        Some(SymbolKind::Type)
    } else if s == "module"@ || s == "mod"@ {
        Some(SymbolKind::Module)
    } else if s == "import"@ || s == "use"@ {
        Some(SymbolKind::Import)
    } else {
        None
    }
}

/// The message a name that is no symbol kind is refused with.
pub open spec fn unknown_kind_message(s: Seq<char>) -> Seq<char> {
    "Unknown symbol kind: '"@ + s + "'"@
}

/// What parsing an ASCII name as a symbol kind gives: the kind of its ASCII
/// lowercase form, or the message naming the original text.
pub open spec fn parse_kind_ascii(s: Seq<char>) -> Result<SymbolKind, Seq<char>> {
    match kind_of_lower_name(ascii_lower(s)) {
        Some(k) => Ok(k),
        None => Err(unknown_kind_message(s)),
    }
}

/// What parsing a name as a symbol kind gives: the kind of its lowercase
/// form, or the message naming the original text.
pub open spec fn parse_kind_spec(s: Seq<char>) -> Result<SymbolKind, Seq<char>> {
    match kind_of_lower_name(lowercase_of(s)) {
        Some(k) => Ok(k),
        None => Err(unknown_kind_message(s)),
    }
}

impl SymbolKind {
    /// The kind that a name already in lowercase stands for, if any.
    pub fn from_lowercase_name(s: &str) -> (r: Option<SymbolKind>)
        ensures
            r == kind_of_lower_name(s@),
    {
        if str_eq(s, "function") || str_eq(s, "fn") || str_eq(s, "func") {
            Some(SymbolKind::Function)
        } else if str_eq(s, "method") {
            Some(SymbolKind::Method)
        } else if str_eq(s, "class") {
            Some(SymbolKind::Class)
        } else if str_eq(s, "struct") {
            Some(SymbolKind::Struct)
        } else if str_eq(s, "enum") {
            Some(SymbolKind::Enum)
        } else if str_eq(s, "trait") {
            Some(SymbolKind::Trait)
        } else if str_eq(s, "interface") {
            Some(SymbolKind::Interface)
        } else if str_eq(s, "constant") || str_eq(s, "const") {
            Some(SymbolKind::Constant)
        } else if str_eq(s, "variable") || str_eq(s, "var") || str_eq(s, "let") {
            Some(SymbolKind::Variable)
        } else if str_eq(s, "type") {
            Some(SymbolKind::Type)
        } else if str_eq(s, "module") || str_eq(s, "mod") {
            Some(SymbolKind::Module)
        } else if str_eq(s, "import") || str_eq(s, "use") {
            Some(SymbolKind::Import)
        } else {
            None
        }
    }

    /// Parses a symbol kind whatever its case; an unknown name is refused
    /// with a message that quotes it.
    pub fn parse_name(s: &str) -> (r: Result<SymbolKind, String>)
        ensures
            match r {
                Ok(k) => parse_kind_spec(s@) == Ok::<SymbolKind, Seq<char>>(k),
                Err(m) => parse_kind_spec(s@) == Err::<SymbolKind, Seq<char>>(m@),
            },
            is_ascii_text(s@) ==> match r {
                Ok(k) => parse_kind_ascii(s@) == Ok::<SymbolKind, Seq<char>>(k),
                Err(m) => parse_kind_ascii(s@) == Err::<SymbolKind, Seq<char>>(m@),
            },
    {
        let lower = to_lowercase(s);
        match Self::from_lowercase_name(lower.as_str()) {
            Some(k) => Ok(k),
            None => {
                let mut m = String::from_str("Unknown symbol kind: '");
                m.append(s);
                m.append("'");
                Err(m)
            },
        }
    }
}

impl std::str::FromStr for SymbolKind {
    type Err = String;

    fn from_str(s: &str) -> (r: Result<SymbolKind, String>)
        ensures
            match r {
                Ok(k) => parse_kind_spec(s@) == Ok::<SymbolKind, Seq<char>>(k),
                Err(m) => parse_kind_spec(s@) == Err::<SymbolKind, Seq<char>>(m@),
            },
            is_ascii_text(s@) ==> match r {
                Ok(k) => parse_kind_ascii(s@) == Ok::<SymbolKind, Seq<char>>(k),
                Err(m) => parse_kind_ascii(s@) == Err::<SymbolKind, Seq<char>>(m@),
            },
    {
        Self::parse_name(s)
    }
}

/// A definition found in a source file.
#[derive(Debug)]
pub struct Symbol {
    pub name: String,
    pub kind: SymbolKind,
    pub file: String,
    pub byte_range: (usize, usize),
    pub line_range: (usize, usize),
    pub language: Language,
    /// First line of the symbol (e.g. function signature).
    pub signature: String,
    /// Agent-set human-readable description.
    pub definition: Option<String>,
    /// Parent symbol name (e.g. struct for a method).
    pub parent: Option<String>,
}

/// A symbol with its strings taken by their characters.
pub struct SymbolView {
    pub name: Seq<char>,
    pub kind: SymbolKind,
    pub file: Seq<char>,
    pub byte_range: (usize, usize),
    pub line_range: (usize, usize),
    pub language: Language,
    pub signature: Seq<char>,
    pub definition: Option<Seq<char>>,
    pub parent: Option<Seq<char>>,
}

/// An optional string taken by its characters.
pub open spec fn opt_view(s: Option<String>) -> Option<Seq<char>> {
    match s {
        Some(x) => Some(x@),
        None => None,
    }
}

impl View for Symbol {
    type V = SymbolView;

    open spec fn view(&self) -> SymbolView {
        SymbolView {
            name: self.name@,
            kind: self.kind,
            file: self.file@,
            byte_range: self.byte_range,
            line_range: self.line_range,
            language: self.language,
            signature: self.signature@,
            definition: opt_view(self.definition),
            parent: opt_view(self.parent),
        }
    }
}

/// A copy of an optional string.
pub fn clone_opt_string(s: &Option<String>) -> (r: Option<String>)
    ensures
        r == *s,
{
    match s {
        Some(x) => Some(x.clone()),
        None => None,
    }
}

impl Clone for Symbol {
    fn clone(&self) -> (r: Symbol)
        ensures
            r == *self,
    {
        Symbol {
            name: self.name.clone(),
            kind: self.kind,
            file: self.file.clone(),
            byte_range: self.byte_range,
            line_range: self.line_range,
            language: self.language,
            signature: self.signature.clone(),
            definition: clone_opt_string(&self.definition),
            parent: clone_opt_string(&self.parent),
        }
    }
}

/// Each lowercase kind name names its kind: `function`, `fn`, `func`; `method`;
/// `class`; `struct`; `enum`; `trait`; `interface`; `constant`, `const`;
/// `variable`, `var`, `let`; `type`; `module`, `mod`; `import`, `use`. Every
/// other name is no kind.
pub proof fn law_kind_names(s: Seq<char>)
    ensures
        (s == "function"@ || s == "fn"@ || s == "func"@) ==> kind_of_lower_name(s) == Some(SymbolKind::Function),
        (s == "method"@) ==> kind_of_lower_name(s) == Some(SymbolKind::Method),
        (s == "class"@) ==> kind_of_lower_name(s) == Some(SymbolKind::Class),
        (s == "struct"@) ==> kind_of_lower_name(s) == Some(SymbolKind::Struct),
        (s == "enum"@) ==> kind_of_lower_name(s) == Some(SymbolKind::Enum),
        (s == "trait"@) ==> kind_of_lower_name(s) == Some(SymbolKind::Trait),
        (s == "interface"@) ==> kind_of_lower_name(s) == Some(SymbolKind::Interface),
        (s == "constant"@ || s == "const"@) ==> kind_of_lower_name(s) == Some(SymbolKind::Constant),
        (s == "variable"@ || s == "var"@ || s == "let"@) ==> kind_of_lower_name(s) == Some(SymbolKind::Variable),
        (s == "type"@) ==> kind_of_lower_name(s) == Some(SymbolKind::Type),
        (s == "module"@ || s == "mod"@) ==> kind_of_lower_name(s) == Some(SymbolKind::Module),
        (s == "import"@ || s == "use"@) ==> kind_of_lower_name(s) == Some(SymbolKind::Import),
        kind_of_lower_name(s) is None <==> !(s == "function"@ || s == "fn"@ || s == "func"@ || s == "method"@ || s == "class"@ || s == "struct"@ || s == "enum"@ || s == "trait"@ || s == "interface"@ || s == "constant"@ || s == "const"@ || s == "variable"@ || s == "var"@ || s == "let"@ || s == "type"@ || s == "module"@ || s == "mod"@ || s == "import"@ || s == "use"@),
{
    reveal_strlit("function");
    reveal_strlit("fn");
    reveal_strlit("func");
    reveal_strlit("method");
    reveal_strlit("class");
    reveal_strlit("struct");
    reveal_strlit("enum");
    reveal_strlit("trait");
    reveal_strlit("interface");
    reveal_strlit("constant");
    reveal_strlit("const");
    reveal_strlit("variable");
    reveal_strlit("var");
    reveal_strlit("let");
    reveal_strlit("type");
    reveal_strlit("module");
    reveal_strlit("mod");
    reveal_strlit("import");
    reveal_strlit("use");
    if s == "function"@ {
    }
    if s == "fn"@ {
        assert(s.len() != "function"@.len());
    }
    if s == "func"@ {
        assert(s.len() != "function"@.len());
        assert(s.len() != "fn"@.len());
    }
    if s == "method"@ {
        assert(s.len() != "function"@.len());
        assert(s.len() != "fn"@.len());
        assert(s.len() != "func"@.len());
    }
    if s == "class"@ {
        assert(s.len() != "function"@.len());
        assert(s.len() != "fn"@.len());
        assert(s.len() != "func"@.len());
        assert(s.len() != "method"@.len());
    }
    if s == "struct"@ {
        assert(s.len() != "function"@.len());
        assert(s.len() != "fn"@.len());
        assert(s.len() != "func"@.len());
        assert(s[0] != "method"@[0]);
        assert(s.len() != "class"@.len());
    }
    if s == "enum"@ {
        assert(s.len() != "function"@.len());
        assert(s.len() != "fn"@.len());
        assert(s[0] != "func"@[0]);
        assert(s.len() != "method"@.len());
        assert(s.len() != "class"@.len());
        assert(s.len() != "struct"@.len());
    }
    if s == "trait"@ {
        assert(s.len() != "function"@.len());
        assert(s.len() != "fn"@.len());
        assert(s.len() != "func"@.len());
        assert(s.len() != "method"@.len());
        assert(s[0] != "class"@[0]);
        assert(s.len() != "struct"@.len());
        assert(s.len() != "enum"@.len());
    }
    if s == "interface"@ {
        assert(s.len() != "function"@.len());
        assert(s.len() != "fn"@.len());
        assert(s.len() != "func"@.len());
        assert(s.len() != "method"@.len());
        assert(s.len() != "class"@.len());
        assert(s.len() != "struct"@.len());
        assert(s.len() != "enum"@.len());
        assert(s.len() != "trait"@.len());
    }
    if s == "constant"@ {
        assert(s[0] != "function"@[0]);
        assert(s.len() != "fn"@.len());
        assert(s.len() != "func"@.len());
        assert(s.len() != "method"@.len());
        assert(s.len() != "class"@.len());
        assert(s.len() != "struct"@.len());
        assert(s.len() != "enum"@.len());
        assert(s.len() != "trait"@.len());
        assert(s.len() != "interface"@.len());
    }
    if s == "const"@ {
        assert(s.len() != "function"@.len());
        assert(s.len() != "fn"@.len());
        assert(s.len() != "func"@.len());
        assert(s.len() != "method"@.len());
        assert(s[1] != "class"@[1]);
        assert(s.len() != "struct"@.len());
        assert(s.len() != "enum"@.len());
        assert(s[0] != "trait"@[0]);
        assert(s.len() != "interface"@.len());
        assert(s.len() != "constant"@.len());
    }
    if s == "variable"@ {
        assert(s[0] != "function"@[0]);
        assert(s.len() != "fn"@.len());
        assert(s.len() != "func"@.len());
        assert(s.len() != "method"@.len());
        assert(s.len() != "class"@.len());
        assert(s.len() != "struct"@.len());
        assert(s.len() != "enum"@.len());
        assert(s.len() != "trait"@.len());
        assert(s.len() != "interface"@.len());
        assert(s[0] != "constant"@[0]);
        assert(s.len() != "const"@.len());
    }
    if s == "var"@ {
        assert(s.len() != "function"@.len());
        assert(s.len() != "fn"@.len());
        assert(s.len() != "func"@.len());
        assert(s.len() != "method"@.len());
        assert(s.len() != "class"@.len());
        assert(s.len() != "struct"@.len());
        assert(s.len() != "enum"@.len());
        assert(s.len() != "trait"@.len());
        assert(s.len() != "interface"@.len());
        assert(s.len() != "constant"@.len());
        assert(s.len() != "const"@.len());
        assert(s.len() != "variable"@.len());
    }
    if s == "let"@ {
        assert(s.len() != "function"@.len());
        assert(s.len() != "fn"@.len());
        assert(s.len() != "func"@.len());
        assert(s.len() != "method"@.len());
        assert(s.len() != "class"@.len());
        assert(s.len() != "struct"@.len());
        assert(s.len() != "enum"@.len());
        assert(s.len() != "trait"@.len());
        assert(s.len() != "interface"@.len());
        assert(s.len() != "constant"@.len());
        assert(s.len() != "const"@.len());
        assert(s.len() != "variable"@.len());
        assert(s[0] != "var"@[0]);
    }
    if s == "type"@ {
        assert(s.len() != "function"@.len());
        assert(s.len() != "fn"@.len());
        assert(s[0] != "func"@[0]);
        assert(s.len() != "method"@.len());
        assert(s.len() != "class"@.len());
        assert(s.len() != "struct"@.len());
        assert(s[0] != "enum"@[0]);
        assert(s.len() != "trait"@.len());
        assert(s.len() != "interface"@.len());
        assert(s.len() != "constant"@.len());
        assert(s.len() != "const"@.len());
        assert(s.len() != "variable"@.len());
        assert(s.len() != "var"@.len());
        assert(s.len() != "let"@.len());
    }
    if s == "module"@ {
        assert(s.len() != "function"@.len());
        assert(s.len() != "fn"@.len());
        assert(s.len() != "func"@.len());
        assert(s[1] != "method"@[1]);
        assert(s.len() != "class"@.len());
        assert(s[0] != "struct"@[0]);
        assert(s.len() != "enum"@.len());
        assert(s.len() != "trait"@.len());
        assert(s.len() != "interface"@.len());
        assert(s.len() != "constant"@.len());
        assert(s.len() != "const"@.len());
        assert(s.len() != "variable"@.len());
        assert(s.len() != "var"@.len());
        assert(s.len() != "let"@.len());
        assert(s.len() != "type"@.len());
    }
    if s == "mod"@ {
        assert(s.len() != "function"@.len());
        assert(s.len() != "fn"@.len());
        assert(s.len() != "func"@.len());
        assert(s.len() != "method"@.len());
        assert(s.len() != "class"@.len());
        assert(s.len() != "struct"@.len());
        assert(s.len() != "enum"@.len());
        assert(s.len() != "trait"@.len());
        assert(s.len() != "interface"@.len());
        assert(s.len() != "constant"@.len());
        assert(s.len() != "const"@.len());
        assert(s.len() != "variable"@.len());
        assert(s[0] != "var"@[0]);
        assert(s[0] != "let"@[0]);
        assert(s.len() != "type"@.len());
        assert(s.len() != "module"@.len());
    }
    if s == "import"@ {
        assert(s.len() != "function"@.len());
        assert(s.len() != "fn"@.len());
        assert(s.len() != "func"@.len());
        assert(s[0] != "method"@[0]);
        assert(s.len() != "class"@.len());
        assert(s[0] != "struct"@[0]);
        assert(s.len() != "enum"@.len());
        assert(s.len() != "trait"@.len());
        assert(s.len() != "interface"@.len());
        assert(s.len() != "constant"@.len());
        assert(s.len() != "const"@.len());
        assert(s.len() != "variable"@.len());
        assert(s.len() != "var"@.len());
        assert(s.len() != "let"@.len());
        assert(s.len() != "type"@.len());
        assert(s[0] != "module"@[0]);
        assert(s.len() != "mod"@.len());
    }
    if s == "use"@ {
        assert(s.len() != "function"@.len());
        assert(s.len() != "fn"@.len());
        assert(s.len() != "func"@.len());
        assert(s.len() != "method"@.len());
        assert(s.len() != "class"@.len());
        assert(s.len() != "struct"@.len());
        assert(s.len() != "enum"@.len());
        assert(s.len() != "trait"@.len());
        assert(s.len() != "interface"@.len());
        assert(s.len() != "constant"@.len());
        assert(s.len() != "const"@.len());
        assert(s.len() != "variable"@.len());
        assert(s[0] != "var"@[0]);
        assert(s[0] != "let"@[0]);
        assert(s.len() != "type"@.len());
        assert(s.len() != "module"@.len());
        assert(s[0] != "mod"@[0]);
        assert(s.len() != "import"@.len());
    }
}

} // verus!
