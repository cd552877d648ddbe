//! What the index knows of one file: its language, the marks an agent set on
//! it, and the metadata gathered when the project was scanned.
use vstd::prelude::*;
use crate::text::{ascii_lower, is_ascii_text, lowercase_of, str_eq, to_lowercase};

verus! {

broadcast use vstd::string::group_string_axioms;

/// A point in time in UTC: whole seconds since the Unix epoch and the
/// nanoseconds past that second.
#[derive(Debug, Clone, Copy, PartialEq, Eq, Structural)]
pub struct Timestamp {
    pub secs: i64,
    pub nanos: u32,
}

/// The source languages the index tells apart.
#[derive(Debug, Clone, Copy, PartialEq, Eq, Hash, Structural)]
pub enum Language {
    Rust,
    Python,
    TypeScript,
    JavaScript,
    Go,
    Java,
    Scala,
    C,
    Cpp,
    Ruby,
    Shell,
    Markdown,
    Json,
    Yaml,
    Toml,
    Html,
    Css,
    Sql,
    Vue,
    Other,
}

/// The language of an extension that is already in lowercase.
pub open spec fn language_of_lower_ext(e: Seq<char>) -> Language {
    if e == "rs"@ {
        Language::Rust
    } else if e == "py"@ || e == "pyi"@ {
        Language::Python
    } else if e == "ts"@ || e == "tsx"@ {
        Language::TypeScript
    } else if e == "js"@ || e == "jsx"@ || e == "mjs"@ || e == "cjs"@ {
        Language::JavaScript
    } else if e == "go"@ {
        Language::Go
    } else if e == "java"@ {
        Language::Java
    } else if e == "scala"@ || e == "sc"@ {
        Language::Scala
    } else if e == "c"@ || e == "h"@ {
        Language::C
    } else if e == "cpp"@ || e == "cc"@ || e == "cxx"@ || e == "hpp"@ || e == "hxx"@ || e
        == "hh"@ {
        Language::Cpp
    } else if e == "rb"@ {
        Language::Ruby
    } else if e == "sh"@ || e == "bash"@ || e == "zsh"@ || e == "fish"@ {
        Language::Shell
    } else if e == "md"@ || e == "mdx"@ {
        Language::Markdown
    } else if e == "json"@ || e == "jsonc"@ {
        Language::Json
    } else if e == "yml"@ || e == "yaml"@ {
        Language::Yaml
    } else if e == "toml"@ {
        Language::Toml
    } else if e == "html"@ || e == "htm"@ {
        Language::Html
    } else if e == "css"@ || e == "scss"@ || e == "less"@ {
        Language::Css
    } else if e == "sql"@ {
        Language::Sql
    } else if e == "vue"@ {
        Language::Vue
    } else {
        Language::Other
    }
}

/// The extension that `std::path::Path::extension` finds in a path: the part
/// of the file name after its last `.`, when there is one.
pub uninterp spec fn path_extension_of(path: Seq<char>) -> Option<Seq<char>>;

/// The path ends in a file name that has a dot after its first character,
/// and `ext`, not empty, is what follows the last dot.
pub open spec fn ends_in_extension(path: Seq<char>, ext: Seq<char>) -> bool {
    exists|base: Seq<char>|
        #![trigger base + seq!['.'] + ext]
        path == base + seq!['.'] + ext && base.len() > 0 && base.last() != '/' && ext.len() > 0
            && !ext.contains('.') && !ext.contains('/')
}

/// Calls `std::path::Path::extension` on the path. The contract ties the
/// result to the path through `path_extension_of`, and states the documented
/// case of a path ending in a file name that has a dot after its first
/// character: the extension is what follows the last dot. How the standard
/// library splits other paths into components is not restated.
#[verifier::external_body]
fn path_extension(path: &str) -> (r: Option<String>)
    ensures
        match r {
            Some(e) => path_extension_of(path@) == Some(e@),
            None => path_extension_of(path@) is None,
        },
        match r {
            Some(e) => forall|ext: Seq<char>| #[trigger] ends_in_extension(path@, ext) ==> e@ == ext,
            None => forall|ext: Seq<char>| !#[trigger] ends_in_extension(path@, ext),
        },
{
    std::path::Path::new(path).extension().and_then(|e| e.to_str()).map(|e| e.to_string())
}

/// The language of a path, from its extension.
pub open spec fn language_of_path(path: Seq<char>) -> Language {
    match path_extension_of(path) {
        Some(e) => language_of_lower_ext(lowercase_of(e)),
        None => Language::Other,
    }
}

impl Language {
    /// The language of an extension already in lowercase.
    pub fn from_lowercase_extension(e: &str) -> (r: Language)
        ensures
            r == language_of_lower_ext(e@),
    {
        if str_eq(e, "rs") {
            Language::Rust
        } else if str_eq(e, "py") || str_eq(e, "pyi") {
            Language::Python
        } else if str_eq(e, "ts") || str_eq(e, "tsx") {
            Language::TypeScript
        } else if str_eq(e, "js") || str_eq(e, "jsx") || str_eq(e, "mjs") || str_eq(e, "cjs") {
            Language::JavaScript
        } else if str_eq(e, "go") {
            Language::Go
        } else if str_eq(e, "java") {
            Language::Java
        } else if str_eq(e, "scala") || str_eq(e, "sc") {
            Language::Scala
        } else if str_eq(e, "c") || str_eq(e, "h") {
            Language::C
        } else if str_eq(e, "cpp") || str_eq(e, "cc") || str_eq(e, "cxx") || str_eq(e, "hpp")
            || str_eq(e, "hxx") || str_eq(e, "hh") {
            Language::Cpp
        } else if str_eq(e, "rb") {
            Language::Ruby
        } else if str_eq(e, "sh") || str_eq(e, "bash") || str_eq(e, "zsh") || str_eq(e, "fish") {
            Language::Shell
        } else if str_eq(e, "md") || str_eq(e, "mdx") {
            Language::Markdown
        } else if str_eq(e, "json") || str_eq(e, "jsonc") {
            Language::Json
        } else if str_eq(e, "yml") || str_eq(e, "yaml") {
            Language::Yaml
        } else if str_eq(e, "toml") {
            Language::Toml
        } else if str_eq(e, "html") || str_eq(e, "htm") {
            Language::Html
        } else if str_eq(e, "css") || str_eq(e, "scss") || str_eq(e, "less") {
            Language::Css
        } else if str_eq(e, "sql") {
            Language::Sql
        } else if str_eq(e, "vue") {
            Language::Vue
        } else {
            Language::Other
        }
    }

    /// The language of a file extension, whatever its case.
    pub fn from_extension(ext: &str) -> (r: Language)
        ensures
            r == language_of_lower_ext(lowercase_of(ext@)),
            is_ascii_text(ext@) ==> r == language_of_lower_ext(ascii_lower(ext@)),
    {
        let lower = to_lowercase(ext);
        Self::from_lowercase_extension(lower.as_str())
    }

    /// The language of a file, from the extension of its path; `Other` when
    /// the path has none.
    pub fn from_path(path: &str) -> (r: Language)
        ensures
            r == language_of_path(path@),
            forall|ext: Seq<char>|
                #[trigger] ends_in_extension(path@, ext) && is_ascii_text(ext) ==> r == language_of_lower_ext(
                    ascii_lower(ext),
                ),
    {
        match path_extension(path) {
            Some(e) => Self::from_extension(e.as_str()),
            None => Language::Other,
        }
    }

    /// Whether this language supports tree-sitter symbol extraction.
    pub fn has_tree_sitter_support(&self) -> (r: bool)
        ensures
            r == (*self == Language::Rust || *self == Language::Python || *self
                == Language::TypeScript || *self == Language::JavaScript || *self == Language::Go
                || *self == Language::Java || *self == Language::Scala || *self == Language::Vue),
    {
        match self {
            Language::Rust | Language::Python | Language::TypeScript | Language::JavaScript
            | Language::Go | Language::Java | Language::Scala | Language::Vue => true,
            _ => false,
        }
    }
}

/// Marks an agent can put on a file to categorize it.
#[derive(Debug, Clone, Copy, PartialEq, Eq, Structural)]
pub enum FileMark {
    Documentation,
    Ignore,
    Test,
    Config,
    Generated,
    Custom,
}

/// The mark that a name already in lowercase stands for.
pub open spec fn mark_of_lower_name(s: Seq<char>) -> Option<FileMark> {
    if s == "documentation"@ || s == "doc"@ || s == "docs"@ {
        Some(FileMark::Documentation)
    } else if s == "ignore"@ {
        Some(FileMark::Ignore)
    } else if s == "test"@ || s == "tests"@ {
        Some(FileMark::Test)
    } else if s == "config"@ || s == "configuration"@ {
        Some(FileMark::Config)
    } else if s == "generated"@ || s == "gen"@ {
        Some(FileMark::Generated)
    } else if s == "custom"@ {
        Some(FileMark::Custom)
    } else {
        None
    }
}

impl FileMark {
    /// The mark that a name already in lowercase stands for, if any.
    pub fn from_lowercase_name(s: &str) -> (r: Option<FileMark>)
        ensures
            r == mark_of_lower_name(s@),
    {
        if str_eq(s, "documentation") || str_eq(s, "doc") || str_eq(s, "docs") {
            Some(FileMark::Documentation)
        } else if str_eq(s, "ignore") {
            Some(FileMark::Ignore)
        } else if str_eq(s, "test") || str_eq(s, "tests") {
            Some(FileMark::Test)
        } else if str_eq(s, "config") || str_eq(s, "configuration") {
            Some(FileMark::Config)
        } else if str_eq(s, "generated") || str_eq(s, "gen") {
            Some(FileMark::Generated)
        } else if str_eq(s, "custom") {
            Some(FileMark::Custom)
        } else {
            None
        }
    }

    /// The mark a name stands for, whatever its case; `None` for an unknown name.
    pub fn from_name(s: &str) -> (r: Option<FileMark>)
        ensures
            r == mark_of_lower_name(lowercase_of(s@)),
            is_ascii_text(s@) ==> r == mark_of_lower_name(ascii_lower(s@)),
    {
        let lower = to_lowercase(s);
        Self::from_lowercase_name(lower.as_str())
    }
}

/// One file of a project as the index holds it.
#[derive(Debug, Clone)]
pub struct FileEntry {
    pub rel_path: String,
    pub size: u64,
    pub modified: Timestamp,
    pub language: Language,
    /// Agent-set human-readable definition of what this file does.
    pub definition: Option<String>,
    /// Agent-set marks for categorization.
    pub marks: Vec<FileMark>,
    /// Whether symbols have been extracted from this file.
    pub symbols_extracted: bool,
}

impl FileEntry {
    /// A freshly scanned file: its language comes from its path, and it has
    /// no definition, no marks and no symbols extracted yet.
    pub fn new(rel_path: String, size: u64, modified: Timestamp) -> (r: FileEntry)
        ensures
            r.rel_path@ == rel_path@,
            r.size == size,
            r.modified == modified,
            r.language == language_of_path(rel_path@),
            r.definition is None,
            r.marks@.len() == 0,
            !r.symbols_extracted,
    {
        let language = Language::from_path(rel_path.as_str());
        FileEntry {
            rel_path,
            size,
            modified,
            language,
            definition: None,
            marks: Vec::new(),
            symbols_extracted: false,
        }
    }
}


/// Each lowercase extension names its language: `rs` Rust; `py`, `pyi` Python;
/// `ts`, `tsx` TypeScript; `js`, `jsx`, `mjs`, `cjs` JavaScript; `go` Go; `java`
/// Java; `scala`, `sc` Scala; `c`, `h` C; `cpp`, `cc`, `cxx`, `hpp`, `hxx`, `hh`
/// C++; `rb` Ruby; `sh`, `bash`, `zsh`, `fish` shell; `md`, `mdx` Markdown;
/// `json`, `jsonc` JSON; `yml`, `yaml` YAML; `toml` TOML; `html`, `htm` HTML;
/// `css`, `scss`, `less` CSS; `sql` SQL; `vue` Vue. Every other extension is
/// `Other`.
pub proof fn law_extension_languages(e: Seq<char>)
    ensures
        (e == "rs"@) ==> language_of_lower_ext(e) == Language::Rust,
        (e == "py"@ || e == "pyi"@) ==> language_of_lower_ext(e) == Language::Python,
        (e == "ts"@ || e == "tsx"@) ==> language_of_lower_ext(e) == Language::TypeScript,
        (e == "js"@ || e == "jsx"@ || e == "mjs"@ || e == "cjs"@) ==> language_of_lower_ext(e) == Language::JavaScript,
        (e == "go"@) ==> language_of_lower_ext(e) == Language::Go,
        (e == "java"@) ==> language_of_lower_ext(e) == Language::Java,
        (e == "scala"@ || e == "sc"@) ==> language_of_lower_ext(e) == Language::Scala,
        (e == "c"@ || e == "h"@) ==> language_of_lower_ext(e) == Language::C,
        (e == "cpp"@ || e == "cc"@ || e == "cxx"@ || e == "hpp"@ || e == "hxx"@ || e == "hh"@) ==> language_of_lower_ext(e) == Language::Cpp,
        (e == "rb"@) ==> language_of_lower_ext(e) == Language::Ruby,
        (e == "sh"@ || e == "bash"@ || e == "zsh"@ || e == "fish"@) ==> language_of_lower_ext(e) == Language::Shell,
        (e == "md"@ || e == "mdx"@) ==> language_of_lower_ext(e) == Language::Markdown,
        (e == "json"@ || e == "jsonc"@) ==> language_of_lower_ext(e) == Language::Json,
        (e == "yml"@ || e == "yaml"@) ==> language_of_lower_ext(e) == Language::Yaml,
        (e == "toml"@) ==> language_of_lower_ext(e) == Language::Toml,
        (e == "html"@ || e == "htm"@) ==> language_of_lower_ext(e) == Language::Html,
        (e == "css"@ || e == "scss"@ || e == "less"@) ==> language_of_lower_ext(e) == Language::Css,
        (e == "sql"@) ==> language_of_lower_ext(e) == Language::Sql,
        (e == "vue"@) ==> language_of_lower_ext(e) == Language::Vue,
        language_of_lower_ext(e) == Language::Other <==> !(e == "rs"@ || e == "py"@ || e == "pyi"@ || e == "ts"@ || e == "tsx"@ || e == "js"@ || e == "jsx"@ || e == "mjs"@ || e == "cjs"@ || e == "go"@ || e == "java"@ || e == "scala"@ || e == "sc"@ || e == "c"@ || e == "h"@ || e == "cpp"@ || e == "cc"@ || e == "cxx"@ || e == "hpp"@ || e == "hxx"@ || e == "hh"@ || e == "rb"@ || e == "sh"@ || e == "bash"@ || e == "zsh"@ || e == "fish"@ || e == "md"@ || e == "mdx"@ || e == "json"@ || e == "jsonc"@ || e == "yml"@ || e == "yaml"@ || e == "toml"@ || e == "html"@ || e == "htm"@ || e == "css"@ || e == "scss"@ || e == "less"@ || e == "sql"@ || e == "vue"@),
{
    reveal_strlit("rs");
    reveal_strlit("py");
    reveal_strlit("pyi");
    reveal_strlit("ts");
    reveal_strlit("tsx");
    reveal_strlit("js");
    reveal_strlit("jsx");
    reveal_strlit("mjs");
    reveal_strlit("cjs");
    reveal_strlit("go");
    reveal_strlit("java");
    reveal_strlit("scala");
    reveal_strlit("sc");
    reveal_strlit("c");
    reveal_strlit("h");
    reveal_strlit("cpp");
    reveal_strlit("cc");
    reveal_strlit("cxx");
    reveal_strlit("hpp");
    reveal_strlit("hxx");
    reveal_strlit("hh");
    reveal_strlit("rb");
    reveal_strlit("sh");
    reveal_strlit("bash");
    reveal_strlit("zsh");
    reveal_strlit("fish");
    reveal_strlit("md");
    reveal_strlit("mdx");
    reveal_strlit("json");
    reveal_strlit("jsonc");
    reveal_strlit("yml");
    reveal_strlit("yaml");
    reveal_strlit("toml");
    reveal_strlit("html");
    reveal_strlit("htm");
    reveal_strlit("css");
    reveal_strlit("scss");
    reveal_strlit("less");
    reveal_strlit("sql");
    reveal_strlit("vue");
    if e == "rs"@ {
    }
    if e == "py"@ {
        assert(e[0] != "rs"@[0]);
    }
    if e == "pyi"@ {
        assert(e.len() != "rs"@.len());
        assert(e.len() != "py"@.len());
    }
    if e == "ts"@ {
        assert(e[0] != "rs"@[0]);
        assert(e[0] != "py"@[0]);
        assert(e.len() != "pyi"@.len());
    }
    if e == "tsx"@ {
        assert(e.len() != "rs"@.len());
        assert(e.len() != "py"@.len());
        assert(e[0] != "pyi"@[0]);
        assert(e.len() != "ts"@.len());
    }
    if e == "js"@ {
        assert(e[0] != "rs"@[0]);
        assert(e[0] != "py"@[0]);
        assert(e.len() != "pyi"@.len());
        assert(e[0] != "ts"@[0]);
        assert(e.len() != "tsx"@.len());
    }
    if e == "jsx"@ {
        assert(e.len() != "rs"@.len());
        assert(e.len() != "py"@.len());
        assert(e[0] != "pyi"@[0]);
        assert(e.len() != "ts"@.len());
        assert(e[0] != "tsx"@[0]);
        assert(e.len() != "js"@.len());
    }
    if e == "mjs"@ {
        assert(e.len() != "rs"@.len());
        assert(e.len() != "py"@.len());
        assert(e[0] != "pyi"@[0]);
        assert(e.len() != "ts"@.len());
        assert(e[0] != "tsx"@[0]);
        assert(e.len() != "js"@.len());
        assert(e[0] != "jsx"@[0]);
    }
    if e == "cjs"@ {
        assert(e.len() != "rs"@.len());
        assert(e.len() != "py"@.len());
        assert(e[0] != "pyi"@[0]);
        assert(e.len() != "ts"@.len());
        assert(e[0] != "tsx"@[0]);
        assert(e.len() != "js"@.len());
        assert(e[0] != "jsx"@[0]);
        assert(e[0] != "mjs"@[0]);
    }
    if e == "go"@ {
        assert(e[0] != "rs"@[0]);
        assert(e[0] != "py"@[0]);
        assert(e.len() != "pyi"@.len());
        assert(e[0] != "ts"@[0]);
        assert(e.len() != "tsx"@.len());
        assert(e[0] != "js"@[0]);
        assert(e.len() != "jsx"@.len());
        assert(e.len() != "mjs"@.len());
        assert(e.len() != "cjs"@.len());
    }
    if e == "java"@ {
        assert(e.len() != "rs"@.len());
        assert(e.len() != "py"@.len());
        assert(e.len() != "pyi"@.len());
        assert(e.len() != "ts"@.len());
        assert(e.len() != "tsx"@.len());
        assert(e.len() != "js"@.len());
        assert(e.len() != "jsx"@.len());
        assert(e.len() != "mjs"@.len());
        assert(e.len() != "cjs"@.len());
        assert(e.len() != "go"@.len());
    }
    if e == "scala"@ {
        assert(e.len() != "rs"@.len());
        assert(e.len() != "py"@.len());
        assert(e.len() != "pyi"@.len());
        assert(e.len() != "ts"@.len());
        assert(e.len() != "tsx"@.len());
        assert(e.len() != "js"@.len());
        assert(e.len() != "jsx"@.len());
        assert(e.len() != "mjs"@.len());
        assert(e.len() != "cjs"@.len());
        assert(e.len() != "go"@.len());
        assert(e.len() != "java"@.len());
    }
    if e == "sc"@ {
        assert(e[0] != "rs"@[0]);
        assert(e[0] != "py"@[0]);
        assert(e.len() != "pyi"@.len());
        assert(e[0] != "ts"@[0]);
        assert(e.len() != "tsx"@.len());
        assert(e[0] != "js"@[0]);
        assert(e.len() != "jsx"@.len());
        assert(e.len() != "mjs"@.len());
        assert(e.len() != "cjs"@.len());
        assert(e[0] != "go"@[0]);
        assert(e.len() != "java"@.len());
        assert(e.len() != "scala"@.len());
    }
    if e == "c"@ {
        assert(e.len() != "rs"@.len());
        assert(e.len() != "py"@.len());
        assert(e.len() != "pyi"@.len());
        assert(e.len() != "ts"@.len());
        assert(e.len() != "tsx"@.len());
        assert(e.len() != "js"@.len());
        assert(e.len() != "jsx"@.len());
        assert(e.len() != "mjs"@.len());
        assert(e.len() != "cjs"@.len());
        assert(e.len() != "go"@.len());
        assert(e.len() != "java"@.len());
        assert(e.len() != "scala"@.len());
        assert(e.len() != "sc"@.len());
    }
    if e == "h"@ {
        assert(e.len() != "rs"@.len());
        assert(e.len() != "py"@.len());
        assert(e.len() != "pyi"@.len());
        assert(e.len() != "ts"@.len());
        assert(e.len() != "tsx"@.len());
        assert(e.len() != "js"@.len());
        assert(e.len() != "jsx"@.len());
        assert(e.len() != "mjs"@.len());
        assert(e.len() != "cjs"@.len());
        assert(e.len() != "go"@.len());
        assert(e.len() != "java"@.len());
        assert(e.len() != "scala"@.len());
        assert(e.len() != "sc"@.len());
        assert(e[0] != "c"@[0]);
    }
    if e == "cpp"@ {
        assert(e.len() != "rs"@.len());
        assert(e.len() != "py"@.len());
        assert(e[0] != "pyi"@[0]);
        assert(e.len() != "ts"@.len());
        assert(e[0] != "tsx"@[0]);
        assert(e.len() != "js"@.len());
        assert(e[0] != "jsx"@[0]);
        assert(e[0] != "mjs"@[0]);
        assert(e[1] != "cjs"@[1]);
        assert(e.len() != "go"@.len());
        assert(e.len() != "java"@.len());
        assert(e.len() != "scala"@.len());
        assert(e.len() != "sc"@.len());
        assert(e.len() != "c"@.len());
        assert(e.len() != "h"@.len());
    }
    if e == "cc"@ {
        assert(e[0] != "rs"@[0]);
        assert(e[0] != "py"@[0]);
        assert(e.len() != "pyi"@.len());
        assert(e[0] != "ts"@[0]);
        assert(e.len() != "tsx"@.len());
        assert(e[0] != "js"@[0]);
        assert(e.len() != "jsx"@.len());
        assert(e.len() != "mjs"@.len());
        assert(e.len() != "cjs"@.len());
        assert(e[0] != "go"@[0]);
        assert(e.len() != "java"@.len());
        assert(e.len() != "scala"@.len());
        assert(e[0] != "sc"@[0]);
        assert(e.len() != "c"@.len());
        assert(e.len() != "h"@.len());
        assert(e.len() != "cpp"@.len());
    }
    if e == "cxx"@ {
        assert(e.len() != "rs"@.len());
        assert(e.len() != "py"@.len());
        assert(e[0] != "pyi"@[0]);
        assert(e.len() != "ts"@.len());
        assert(e[0] != "tsx"@[0]);
        assert(e.len() != "js"@.len());
        assert(e[0] != "jsx"@[0]);
        assert(e[0] != "mjs"@[0]);
        assert(e[1] != "cjs"@[1]);
        assert(e.len() != "go"@.len());
        assert(e.len() != "java"@.len());
        assert(e.len() != "scala"@.len());
        assert(e.len() != "sc"@.len());
        assert(e.len() != "c"@.len());
        assert(e.len() != "h"@.len());
        assert(e[1] != "cpp"@[1]);
        assert(e.len() != "cc"@.len());
    }
    if e == "hpp"@ {
        assert(e.len() != "rs"@.len());
        assert(e.len() != "py"@.len());
        assert(e[0] != "pyi"@[0]);
        assert(e.len() != "ts"@.len());
        assert(e[0] != "tsx"@[0]);
        assert(e.len() != "js"@.len());
        assert(e[0] != "jsx"@[0]);
        assert(e[0] != "mjs"@[0]);
        assert(e[0] != "cjs"@[0]);
        assert(e.len() != "go"@.len());
        assert(e.len() != "java"@.len());
        assert(e.len() != "scala"@.len());
        assert(e.len() != "sc"@.len());
        assert(e.len() != "c"@.len());
        assert(e.len() != "h"@.len());
        assert(e[0] != "cpp"@[0]);
        assert(e.len() != "cc"@.len());
        assert(e[0] != "cxx"@[0]);
    }
    if e == "hxx"@ {
        assert(e.len() != "rs"@.len());
        assert(e.len() != "py"@.len());
        assert(e[0] != "pyi"@[0]);
        assert(e.len() != "ts"@.len());
        assert(e[0] != "tsx"@[0]);
        assert(e.len() != "js"@.len());
        assert(e[0] != "jsx"@[0]);
        assert(e[0] != "mjs"@[0]);
        assert(e[0] != "cjs"@[0]);
        assert(e.len() != "go"@.len());
        assert(e.len() != "java"@.len());
        assert(e.len() != "scala"@.len());
        assert(e.len() != "sc"@.len());
        assert(e.len() != "c"@.len());
        assert(e.len() != "h"@.len());
        assert(e[0] != "cpp"@[0]);
        assert(e.len() != "cc"@.len());
        assert(e[0] != "cxx"@[0]);
        assert(e[1] != "hpp"@[1]);
    }
    if e == "hh"@ {
        assert(e[0] != "rs"@[0]);
        assert(e[0] != "py"@[0]);
        assert(e.len() != "pyi"@.len());
        assert(e[0] != "ts"@[0]);
        assert(e.len() != "tsx"@.len());
        assert(e[0] != "js"@[0]);
        assert(e.len() != "jsx"@.len());
        assert(e.len() != "mjs"@.len());
        assert(e.len() != "cjs"@.len());
        assert(e[0] != "go"@[0]);
        assert(e.len() != "java"@.len());
        assert(e.len() != "scala"@.len());
        assert(e[0] != "sc"@[0]);
        assert(e.len() != "c"@.len());
        assert(e.len() != "h"@.len());
        assert(e.len() != "cpp"@.len());
        assert(e[0] != "cc"@[0]);
        assert(e.len() != "cxx"@.len());
        assert(e.len() != "hpp"@.len());
        assert(e.len() != "hxx"@.len());
    }
    if e == "rb"@ {
        assert(e[1] != "rs"@[1]);
        assert(e[0] != "py"@[0]);
        assert(e.len() != "pyi"@.len());
        assert(e[0] != "ts"@[0]);
        assert(e.len() != "tsx"@.len());
        assert(e[0] != "js"@[0]);
        assert(e.len() != "jsx"@.len());
        assert(e.len() != "mjs"@.len());
        assert(e.len() != "cjs"@.len());
        assert(e[0] != "go"@[0]);
        assert(e.len() != "java"@.len());
        assert(e.len() != "scala"@.len());
        assert(e[0] != "sc"@[0]);
        assert(e.len() != "c"@.len());
        assert(e.len() != "h"@.len());
        assert(e.len() != "cpp"@.len());
        assert(e[0] != "cc"@[0]);
        assert(e.len() != "cxx"@.len());
        assert(e.len() != "hpp"@.len());
        assert(e.len() != "hxx"@.len());
        assert(e[0] != "hh"@[0]);
    }
    if e == "sh"@ {
        assert(e[0] != "rs"@[0]);
        assert(e[0] != "py"@[0]);
        assert(e.len() != "pyi"@.len());
        assert(e[0] != "ts"@[0]);
        assert(e.len() != "tsx"@.len());
        assert(e[0] != "js"@[0]);
        assert(e.len() != "jsx"@.len());
        assert(e.len() != "mjs"@.len());
        assert(e.len() != "cjs"@.len());
        assert(e[0] != "go"@[0]);
        assert(e.len() != "java"@.len());
        assert(e.len() != "scala"@.len());
        assert(e[1] != "sc"@[1]);
        assert(e.len() != "c"@.len());
        assert(e.len() != "h"@.len());
        assert(e.len() != "cpp"@.len());
        assert(e[0] != "cc"@[0]);
        assert(e.len() != "cxx"@.len());
        assert(e.len() != "hpp"@.len());
        assert(e.len() != "hxx"@.len());
        assert(e[0] != "hh"@[0]);
        assert(e[0] != "rb"@[0]);
    }
    if e == "bash"@ {
        assert(e.len() != "rs"@.len());
        assert(e.len() != "py"@.len());
        assert(e.len() != "pyi"@.len());
        assert(e.len() != "ts"@.len());
        assert(e.len() != "tsx"@.len());
        assert(e.len() != "js"@.len());
        assert(e.len() != "jsx"@.len());
        assert(e.len() != "mjs"@.len());
        assert(e.len() != "cjs"@.len());
        assert(e.len() != "go"@.len());
        assert(e[0] != "java"@[0]);
        assert(e.len() != "scala"@.len());
        assert(e.len() != "sc"@.len());
        assert(e.len() != "c"@.len());
        assert(e.len() != "h"@.len());
        assert(e.len() != "cpp"@.len());
        assert(e.len() != "cc"@.len());
        assert(e.len() != "cxx"@.len());
        assert(e.len() != "hpp"@.len());
        assert(e.len() != "hxx"@.len());
        assert(e.len() != "hh"@.len());
        assert(e.len() != "rb"@.len());
        assert(e.len() != "sh"@.len());
    }
    if e == "zsh"@ {
        assert(e.len() != "rs"@.len());
        assert(e.len() != "py"@.len());
        assert(e[0] != "pyi"@[0]);
        assert(e.len() != "ts"@.len());
        assert(e[0] != "tsx"@[0]);
        assert(e.len() != "js"@.len());
        assert(e[0] != "jsx"@[0]);
        assert(e[0] != "mjs"@[0]);
        assert(e[0] != "cjs"@[0]);
        assert(e.len() != "go"@.len());
        assert(e.len() != "java"@.len());
        assert(e.len() != "scala"@.len());
        assert(e.len() != "sc"@.len());
        assert(e.len() != "c"@.len());
        assert(e.len() != "h"@.len());
        assert(e[0] != "cpp"@[0]);
        assert(e.len() != "cc"@.len());
        assert(e[0] != "cxx"@[0]);
        assert(e[0] != "hpp"@[0]);
        assert(e[0] != "hxx"@[0]);
        assert(e.len() != "hh"@.len());
        assert(e.len() != "rb"@.len());
        assert(e.len() != "sh"@.len());
        assert(e.len() != "bash"@.len());
    }
    if e == "fish"@ {
        assert(e.len() != "rs"@.len());
        assert(e.len() != "py"@.len());
        assert(e.len() != "pyi"@.len());
        assert(e.len() != "ts"@.len());
        assert(e.len() != "tsx"@.len());
        assert(e.len() != "js"@.len());
        assert(e.len() != "jsx"@.len());
        assert(e.len() != "mjs"@.len());
        assert(e.len() != "cjs"@.len());
        assert(e.len() != "go"@.len());
        assert(e[0] != "java"@[0]);
        assert(e.len() != "scala"@.len());
        assert(e.len() != "sc"@.len());
        assert(e.len() != "c"@.len());
        assert(e.len() != "h"@.len());
        assert(e.len() != "cpp"@.len());
        assert(e.len() != "cc"@.len());
        assert(e.len() != "cxx"@.len());
        assert(e.len() != "hpp"@.len());
        assert(e.len() != "hxx"@.len());
        assert(e.len() != "hh"@.len());
        assert(e.len() != "rb"@.len());
        assert(e.len() != "sh"@.len());
        assert(e[0] != "bash"@[0]);
        assert(e.len() != "zsh"@.len());
    }
    if e == "md"@ {
        assert(e[0] != "rs"@[0]);
        assert(e[0] != "py"@[0]);
        assert(e.len() != "pyi"@.len());
        assert(e[0] != "ts"@[0]);
        assert(e.len() != "tsx"@.len());
        assert(e[0] != "js"@[0]);
        assert(e.len() != "jsx"@.len());
        assert(e.len() != "mjs"@.len());
        assert(e.len() != "cjs"@.len());
        assert(e[0] != "go"@[0]);
        assert(e.len() != "java"@.len());
        assert(e.len() != "scala"@.len());
        assert(e[0] != "sc"@[0]);
        assert(e.len() != "c"@.len());
        assert(e.len() != "h"@.len());
        assert(e.len() != "cpp"@.len());
        assert(e[0] != "cc"@[0]);
        assert(e.len() != "cxx"@.len());
        assert(e.len() != "hpp"@.len());
        assert(e.len() != "hxx"@.len());
        assert(e[0] != "hh"@[0]);
        assert(e[0] != "rb"@[0]);
        assert(e[0] != "sh"@[0]);
        assert(e.len() != "bash"@.len());
        assert(e.len() != "zsh"@.len());
        assert(e.len() != "fish"@.len());
    }
    if e == "mdx"@ {
        assert(e.len() != "rs"@.len());
        assert(e.len() != "py"@.len());
        assert(e[0] != "pyi"@[0]);
        assert(e.len() != "ts"@.len());
        assert(e[0] != "tsx"@[0]);
        assert(e.len() != "js"@.len());
        assert(e[0] != "jsx"@[0]);
        assert(e[1] != "mjs"@[1]);
        assert(e[0] != "cjs"@[0]);
        assert(e.len() != "go"@.len());
        assert(e.len() != "java"@.len());
        assert(e.len() != "scala"@.len());
        assert(e.len() != "sc"@.len());
        assert(e.len() != "c"@.len());
        assert(e.len() != "h"@.len());
        assert(e[0] != "cpp"@[0]);
        assert(e.len() != "cc"@.len());
        assert(e[0] != "cxx"@[0]);
        assert(e[0] != "hpp"@[0]);
        assert(e[0] != "hxx"@[0]);
        assert(e.len() != "hh"@.len());
        assert(e.len() != "rb"@.len());
        assert(e.len() != "sh"@.len());
        assert(e.len() != "bash"@.len());
        assert(e[0] != "zsh"@[0]);
        assert(e.len() != "fish"@.len());
        assert(e.len() != "md"@.len());
    }
    if e == "json"@ {
        assert(e.len() != "rs"@.len());
        assert(e.len() != "py"@.len());
        assert(e.len() != "pyi"@.len());
        assert(e.len() != "ts"@.len());
        assert(e.len() != "tsx"@.len());
        assert(e.len() != "js"@.len());
        assert(e.len() != "jsx"@.len());
        assert(e.len() != "mjs"@.len());
        assert(e.len() != "cjs"@.len());
        assert(e.len() != "go"@.len());
        assert(e[1] != "java"@[1]);
        assert(e.len() != "scala"@.len());
        assert(e.len() != "sc"@.len());
        assert(e.len() != "c"@.len());
        assert(e.len() != "h"@.len());
        assert(e.len() != "cpp"@.len());
        assert(e.len() != "cc"@.len());
        assert(e.len() != "cxx"@.len());
        assert(e.len() != "hpp"@.len());
        assert(e.len() != "hxx"@.len());
        assert(e.len() != "hh"@.len());
        assert(e.len() != "rb"@.len());
        assert(e.len() != "sh"@.len());
        assert(e[0] != "bash"@[0]);
        assert(e.len() != "zsh"@.len());
        assert(e[0] != "fish"@[0]);
        assert(e.len() != "md"@.len());
        assert(e.len() != "mdx"@.len());
    }
    if e == "jsonc"@ {
        assert(e.len() != "rs"@.len());
        assert(e.len() != "py"@.len());
        assert(e.len() != "pyi"@.len());
        assert(e.len() != "ts"@.len());
        assert(e.len() != "tsx"@.len());
        assert(e.len() != "js"@.len());
        assert(e.len() != "jsx"@.len());
        assert(e.len() != "mjs"@.len());
        assert(e.len() != "cjs"@.len());
        assert(e.len() != "go"@.len());
        assert(e.len() != "java"@.len());
        assert(e[0] != "scala"@[0]);
        assert(e.len() != "sc"@.len());
        assert(e.len() != "c"@.len());
        assert(e.len() != "h"@.len());
        assert(e.len() != "cpp"@.len());
        assert(e.len() != "cc"@.len());
        assert(e.len() != "cxx"@.len());
        assert(e.len() != "hpp"@.len());
        assert(e.len() != "hxx"@.len());
        assert(e.len() != "hh"@.len());
        assert(e.len() != "rb"@.len());
        assert(e.len() != "sh"@.len());
        assert(e.len() != "bash"@.len());
        assert(e.len() != "zsh"@.len());
        assert(e.len() != "fish"@.len());
        assert(e.len() != "md"@.len());
        assert(e.len() != "mdx"@.len());
        assert(e.len() != "json"@.len());
    }
    if e == "yml"@ {
        assert(e.len() != "rs"@.len());
        assert(e.len() != "py"@.len());
        assert(e[0] != "pyi"@[0]);
        assert(e.len() != "ts"@.len());
        assert(e[0] != "tsx"@[0]);
        assert(e.len() != "js"@.len());
        assert(e[0] != "jsx"@[0]);
        assert(e[0] != "mjs"@[0]);
        assert(e[0] != "cjs"@[0]);
        assert(e.len() != "go"@.len());
        assert(e.len() != "java"@.len());
        assert(e.len() != "scala"@.len());
        assert(e.len() != "sc"@.len());
        assert(e.len() != "c"@.len());
        assert(e.len() != "h"@.len());
        assert(e[0] != "cpp"@[0]);
        assert(e.len() != "cc"@.len());
        assert(e[0] != "cxx"@[0]);
        assert(e[0] != "hpp"@[0]);
        assert(e[0] != "hxx"@[0]);
        assert(e.len() != "hh"@.len());
        assert(e.len() != "rb"@.len());
        assert(e.len() != "sh"@.len());
        assert(e.len() != "bash"@.len());
        assert(e[0] != "zsh"@[0]);
        assert(e.len() != "fish"@.len());
        assert(e.len() != "md"@.len());
        assert(e[0] != "mdx"@[0]);
        assert(e.len() != "json"@.len());
        assert(e.len() != "jsonc"@.len());
    }
    if e == "yaml"@ {
        assert(e.len() != "rs"@.len());
        assert(e.len() != "py"@.len());
        assert(e.len() != "pyi"@.len());
        assert(e.len() != "ts"@.len());
        assert(e.len() != "tsx"@.len());
        assert(e.len() != "js"@.len());
        assert(e.len() != "jsx"@.len());
        assert(e.len() != "mjs"@.len());
        assert(e.len() != "cjs"@.len());
        assert(e.len() != "go"@.len());
        assert(e[0] != "java"@[0]);
        assert(e.len() != "scala"@.len());
        assert(e.len() != "sc"@.len());
        assert(e.len() != "c"@.len());
        assert(e.len() != "h"@.len());
        assert(e.len() != "cpp"@.len());
        assert(e.len() != "cc"@.len());
        assert(e.len() != "cxx"@.len());
        assert(e.len() != "hpp"@.len());
        assert(e.len() != "hxx"@.len());
        assert(e.len() != "hh"@.len());
        assert(e.len() != "rb"@.len());
        assert(e.len() != "sh"@.len());
        assert(e[0] != "bash"@[0]);
        assert(e.len() != "zsh"@.len());
        assert(e[0] != "fish"@[0]);
        assert(e.len() != "md"@.len());
        assert(e.len() != "mdx"@.len());
        assert(e[0] != "json"@[0]);
        assert(e.len() != "jsonc"@.len());
        assert(e.len() != "yml"@.len());
    }
    if e == "toml"@ {
        assert(e.len() != "rs"@.len());
        assert(e.len() != "py"@.len());
        assert(e.len() != "pyi"@.len());
        assert(e.len() != "ts"@.len());
        assert(e.len() != "tsx"@.len());
        assert(e.len() != "js"@.len());
        assert(e.len() != "jsx"@.len());
        assert(e.len() != "mjs"@.len());
        assert(e.len() != "cjs"@.len());
        assert(e.len() != "go"@.len());
        assert(e[0] != "java"@[0]);
        assert(e.len() != "scala"@.len());
        assert(e.len() != "sc"@.len());
        assert(e.len() != "c"@.len());
        assert(e.len() != "h"@.len());
        assert(e.len() != "cpp"@.len());
        assert(e.len() != "cc"@.len());
        assert(e.len() != "cxx"@.len());
        assert(e.len() != "hpp"@.len());
        assert(e.len() != "hxx"@.len());
        assert(e.len() != "hh"@.len());
        assert(e.len() != "rb"@.len());
        assert(e.len() != "sh"@.len());
        assert(e[0] != "bash"@[0]);
        assert(e.len() != "zsh"@.len());
        assert(e[0] != "fish"@[0]);
        assert(e.len() != "md"@.len());
        assert(e.len() != "mdx"@.len());
        assert(e[0] != "json"@[0]);
        assert(e.len() != "jsonc"@.len());
        assert(e.len() != "yml"@.len());
        assert(e[0] != "yaml"@[0]);
    }
    if e == "html"@ {
        assert(e.len() != "rs"@.len());
        assert(e.len() != "py"@.len());
        assert(e.len() != "pyi"@.len());
        assert(e.len() != "ts"@.len());
        assert(e.len() != "tsx"@.len());
        assert(e.len() != "js"@.len());
        assert(e.len() != "jsx"@.len());
        assert(e.len() != "mjs"@.len());
        assert(e.len() != "cjs"@.len());
        assert(e.len() != "go"@.len());
        assert(e[0] != "java"@[0]);
        assert(e.len() != "scala"@.len());
        assert(e.len() != "sc"@.len());
        assert(e.len() != "c"@.len());
        assert(e.len() != "h"@.len());
        assert(e.len() != "cpp"@.len());
        assert(e.len() != "cc"@.len());
        assert(e.len() != "cxx"@.len());
        assert(e.len() != "hpp"@.len());
        assert(e.len() != "hxx"@.len());
        assert(e.len() != "hh"@.len());
        assert(e.len() != "rb"@.len());
        assert(e.len() != "sh"@.len());
        assert(e[0] != "bash"@[0]);
        assert(e.len() != "zsh"@.len());
        assert(e[0] != "fish"@[0]);
        assert(e.len() != "md"@.len());
        assert(e.len() != "mdx"@.len());
        assert(e[0] != "json"@[0]);
        assert(e.len() != "jsonc"@.len());
        assert(e.len() != "yml"@.len());
        assert(e[0] != "yaml"@[0]);
        assert(e[0] != "toml"@[0]);
    }
    if e == "htm"@ {
        assert(e.len() != "rs"@.len());
        assert(e.len() != "py"@.len());
        assert(e[0] != "pyi"@[0]);
        assert(e.len() != "ts"@.len());
        assert(e[0] != "tsx"@[0]);
        assert(e.len() != "js"@.len());
        assert(e[0] != "jsx"@[0]);
        assert(e[0] != "mjs"@[0]);
        assert(e[0] != "cjs"@[0]);
        assert(e.len() != "go"@.len());
        assert(e.len() != "java"@.len());
        assert(e.len() != "scala"@.len());
        assert(e.len() != "sc"@.len());
        assert(e.len() != "c"@.len());
        assert(e.len() != "h"@.len());
        assert(e[0] != "cpp"@[0]);
        assert(e.len() != "cc"@.len());
        assert(e[0] != "cxx"@[0]);
        assert(e[1] != "hpp"@[1]);
        assert(e[1] != "hxx"@[1]);
        assert(e.len() != "hh"@.len());
        assert(e.len() != "rb"@.len());
        assert(e.len() != "sh"@.len());
        assert(e.len() != "bash"@.len());
        assert(e[0] != "zsh"@[0]);
        assert(e.len() != "fish"@.len());
        assert(e.len() != "md"@.len());
        assert(e[0] != "mdx"@[0]);
        assert(e.len() != "json"@.len());
        assert(e.len() != "jsonc"@.len());
        assert(e[0] != "yml"@[0]);
        assert(e.len() != "yaml"@.len());
        assert(e.len() != "toml"@.len());
        assert(e.len() != "html"@.len());
    }
    if e == "css"@ {
        assert(e.len() != "rs"@.len());
        assert(e.len() != "py"@.len());
        assert(e[0] != "pyi"@[0]);
        assert(e.len() != "ts"@.len());
        assert(e[0] != "tsx"@[0]);
        assert(e.len() != "js"@.len());
        assert(e[0] != "jsx"@[0]);
        assert(e[0] != "mjs"@[0]);
        assert(e[1] != "cjs"@[1]);
        assert(e.len() != "go"@.len());
        assert(e.len() != "java"@.len());
        assert(e.len() != "scala"@.len());
        assert(e.len() != "sc"@.len());
        assert(e.len() != "c"@.len());
        assert(e.len() != "h"@.len());
        assert(e[1] != "cpp"@[1]);
        assert(e.len() != "cc"@.len());
        assert(e[1] != "cxx"@[1]);
        assert(e[0] != "hpp"@[0]);
        assert(e[0] != "hxx"@[0]);
        assert(e.len() != "hh"@.len());
        assert(e.len() != "rb"@.len());
        assert(e.len() != "sh"@.len());
        assert(e.len() != "bash"@.len());
        assert(e[0] != "zsh"@[0]);
        assert(e.len() != "fish"@.len());
        assert(e.len() != "md"@.len());
        assert(e[0] != "mdx"@[0]);
        assert(e.len() != "json"@.len());
        assert(e.len() != "jsonc"@.len());
        assert(e[0] != "yml"@[0]);
        assert(e.len() != "yaml"@.len());
        assert(e.len() != "toml"@.len());
        assert(e.len() != "html"@.len());
        assert(e[0] != "htm"@[0]);
    }
    if e == "scss"@ {
        assert(e.len() != "rs"@.len());
        assert(e.len() != "py"@.len());
        assert(e.len() != "pyi"@.len());
        assert(e.len() != "ts"@.len());
        assert(e.len() != "tsx"@.len());
        assert(e.len() != "js"@.len());
        assert(e.len() != "jsx"@.len());
        assert(e.len() != "mjs"@.len());
        assert(e.len() != "cjs"@.len());
        assert(e.len() != "go"@.len());
        assert(e[0] != "java"@[0]);
        assert(e.len() != "scala"@.len());
        assert(e.len() != "sc"@.len());
        assert(e.len() != "c"@.len());
        assert(e.len() != "h"@.len());
        assert(e.len() != "cpp"@.len());
        assert(e.len() != "cc"@.len());
        assert(e.len() != "cxx"@.len());
        assert(e.len() != "hpp"@.len());
        assert(e.len() != "hxx"@.len());
        assert(e.len() != "hh"@.len());
        assert(e.len() != "rb"@.len());
        assert(e.len() != "sh"@.len());
        assert(e[0] != "bash"@[0]);
        assert(e.len() != "zsh"@.len());
        assert(e[0] != "fish"@[0]);
        assert(e.len() != "md"@.len());
        assert(e.len() != "mdx"@.len());
        assert(e[0] != "json"@[0]);
        assert(e.len() != "jsonc"@.len());
        assert(e.len() != "yml"@.len());
        assert(e[0] != "yaml"@[0]);
        assert(e[0] != "toml"@[0]);
        assert(e[0] != "html"@[0]);
        assert(e.len() != "htm"@.len());
        assert(e.len() != "css"@.len());
    }
    if e == "less"@ {
        assert(e.len() != "rs"@.len());
        assert(e.len() != "py"@.len());
        assert(e.len() != "pyi"@.len());
        assert(e.len() != "ts"@.len());
        assert(e.len() != "tsx"@.len());
        assert(e.len() != "js"@.len());
        assert(e.len() != "jsx"@.len());
        assert(e.len() != "mjs"@.len());
        assert(e.len() != "cjs"@.len());
        assert(e.len() != "go"@.len());
        assert(e[0] != "java"@[0]);
        assert(e.len() != "scala"@.len());
        assert(e.len() != "sc"@.len());
        assert(e.len() != "c"@.len());
        assert(e.len() != "h"@.len());
        assert(e.len() != "cpp"@.len());
        assert(e.len() != "cc"@.len());
        assert(e.len() != "cxx"@.len());
        assert(e.len() != "hpp"@.len());
        assert(e.len() != "hxx"@.len());
        assert(e.len() != "hh"@.len());
        assert(e.len() != "rb"@.len());
        assert(e.len() != "sh"@.len());
        assert(e[0] != "bash"@[0]);
        assert(e.len() != "zsh"@.len());
        assert(e[0] != "fish"@[0]);
        assert(e.len() != "md"@.len());
        assert(e.len() != "mdx"@.len());
        assert(e[0] != "json"@[0]);
        assert(e.len() != "jsonc"@.len());
        assert(e.len() != "yml"@.len());
        assert(e[0] != "yaml"@[0]);
        assert(e[0] != "toml"@[0]);
        assert(e[0] != "html"@[0]);
        assert(e.len() != "htm"@.len());
        assert(e.len() != "css"@.len());
        assert(e[0] != "scss"@[0]);
    }
    if e == "sql"@ {
        assert(e.len() != "rs"@.len());
        assert(e.len() != "py"@.len());
        assert(e[0] != "pyi"@[0]);
        assert(e.len() != "ts"@.len());
        assert(e[0] != "tsx"@[0]);
        assert(e.len() != "js"@.len());
        assert(e[0] != "jsx"@[0]);
        assert(e[0] != "mjs"@[0]);
        assert(e[0] != "cjs"@[0]);
        assert(e.len() != "go"@.len());
        assert(e.len() != "java"@.len());
        assert(e.len() != "scala"@.len());
        assert(e.len() != "sc"@.len());
        assert(e.len() != "c"@.len());
        assert(e.len() != "h"@.len());
        assert(e[0] != "cpp"@[0]);
        assert(e.len() != "cc"@.len());
        assert(e[0] != "cxx"@[0]);
        assert(e[0] != "hpp"@[0]);
        assert(e[0] != "hxx"@[0]);
        assert(e.len() != "hh"@.len());
        assert(e.len() != "rb"@.len());
        assert(e.len() != "sh"@.len());
        assert(e.len() != "bash"@.len());
        assert(e[0] != "zsh"@[0]);
        assert(e.len() != "fish"@.len());
        assert(e.len() != "md"@.len());
        assert(e[0] != "mdx"@[0]);
        assert(e.len() != "json"@.len());
        assert(e.len() != "jsonc"@.len());
        assert(e[0] != "yml"@[0]);
        assert(e.len() != "yaml"@.len());
        assert(e.len() != "toml"@.len());
        assert(e.len() != "html"@.len());
        assert(e[0] != "htm"@[0]);
        assert(e[0] != "css"@[0]);
        assert(e.len() != "scss"@.len());
        assert(e.len() != "less"@.len());
    }
    if e == "vue"@ {
        assert(e.len() != "rs"@.len());
        assert(e.len() != "py"@.len());
        assert(e[0] != "pyi"@[0]);
        assert(e.len() != "ts"@.len());
        assert(e[0] != "tsx"@[0]);
        assert(e.len() != "js"@.len());
        assert(e[0] != "jsx"@[0]);
        assert(e[0] != "mjs"@[0]);
        assert(e[0] != "cjs"@[0]);
        assert(e.len() != "go"@.len());
        assert(e.len() != "java"@.len());
        assert(e.len() != "scala"@.len());
        assert(e.len() != "sc"@.len());
        assert(e.len() != "c"@.len());
        assert(e.len() != "h"@.len());
        assert(e[0] != "cpp"@[0]);
        assert(e.len() != "cc"@.len());
        assert(e[0] != "cxx"@[0]);
        assert(e[0] != "hpp"@[0]);
        assert(e[0] != "hxx"@[0]);
        assert(e.len() != "hh"@.len());
        assert(e.len() != "rb"@.len());
        assert(e.len() != "sh"@.len());
        assert(e.len() != "bash"@.len());
        assert(e[0] != "zsh"@[0]);
        assert(e.len() != "fish"@.len());
        assert(e.len() != "md"@.len());
        assert(e[0] != "mdx"@[0]);
        assert(e.len() != "json"@.len());
        assert(e.len() != "jsonc"@.len());
        assert(e[0] != "yml"@[0]);
        assert(e.len() != "yaml"@.len());
        assert(e.len() != "toml"@.len());
        assert(e.len() != "html"@.len());
        assert(e[0] != "htm"@[0]);
        assert(e[0] != "css"@[0]);
        assert(e.len() != "scss"@.len());
        assert(e.len() != "less"@.len());
        assert(e[0] != "sql"@[0]);
    }
}

/// Each lowercase mark name names its mark: `documentation`, `doc`, `docs`;
/// `ignore`; `test`, `tests`; `config`, `configuration`; `generated`, `gen`;
/// `custom`. Every other name is no mark.
pub proof fn law_mark_names(s: Seq<char>)
    ensures
        (s == "documentation"@ || s == "doc"@ || s == "docs"@) ==> mark_of_lower_name(s) == Some(FileMark::Documentation),
        (s == "ignore"@) ==> mark_of_lower_name(s) == Some(FileMark::Ignore),
        (s == "test"@ || s == "tests"@) ==> mark_of_lower_name(s) == Some(FileMark::Test),
        (s == "config"@ || s == "configuration"@) ==> mark_of_lower_name(s) == Some(FileMark::Config),
        (s == "generated"@ || s == "gen"@) ==> mark_of_lower_name(s) == Some(FileMark::Generated),
        (s == "custom"@) ==> mark_of_lower_name(s) == Some(FileMark::Custom),
        mark_of_lower_name(s) is None <==> !(s == "documentation"@ || s == "doc"@ || s == "docs"@ || s == "ignore"@ || s == "test"@ || s == "tests"@ || s == "config"@ || s == "configuration"@ || s == "generated"@ || s == "gen"@ || s == "custom"@),
{
    reveal_strlit("documentation");
    reveal_strlit("doc");
    reveal_strlit("docs");
    reveal_strlit("ignore");
    reveal_strlit("test");
    reveal_strlit("tests");
    reveal_strlit("config");
    reveal_strlit("configuration");
    reveal_strlit("generated");
    reveal_strlit("gen");
    reveal_strlit("custom");
    if s == "documentation"@ {
    }
    if s == "doc"@ {
        assert(s.len() != "documentation"@.len());
    }
    if s == "docs"@ {
        assert(s.len() != "documentation"@.len());
        assert(s.len() != "doc"@.len());
    }
    if s == "ignore"@ {
        assert(s.len() != "documentation"@.len());
        assert(s.len() != "doc"@.len());
        assert(s.len() != "docs"@.len());
    }
    if s == "test"@ {
        assert(s.len() != "documentation"@.len());
        assert(s.len() != "doc"@.len());
        assert(s[0] != "docs"@[0]);
        assert(s.len() != "ignore"@.len());
    }
    if s == "tests"@ {
        assert(s.len() != "documentation"@.len());
        assert(s.len() != "doc"@.len());
        assert(s.len() != "docs"@.len());
        assert(s.len() != "ignore"@.len());
        assert(s.len() != "test"@.len());
    }
    if s == "config"@ {
        assert(s.len() != "documentation"@.len());
        assert(s.len() != "doc"@.len());
        assert(s.len() != "docs"@.len());
        assert(s[0] != "ignore"@[0]);
        assert(s.len() != "test"@.len());
        assert(s.len() != "tests"@.len());
    }
    if s == "configuration"@ {
        assert(s[0] != "documentation"@[0]);
        assert(s.len() != "doc"@.len());
        assert(s.len() != "docs"@.len());
        assert(s.len() != "ignore"@.len());
        assert(s.len() != "test"@.len());
        assert(s.len() != "tests"@.len());
        assert(s.len() != "config"@.len());
    }
    if s == "generated"@ {
        assert(s.len() != "documentation"@.len());
        assert(s.len() != "doc"@.len());
        assert(s.len() != "docs"@.len());
        assert(s.len() != "ignore"@.len());
        assert(s.len() != "test"@.len());
        assert(s.len() != "tests"@.len());
        assert(s.len() != "config"@.len());
        assert(s.len() != "configuration"@.len());
    }
    if s == "gen"@ {
        assert(s.len() != "documentation"@.len());
        assert(s[0] != "doc"@[0]);
        assert(s.len() != "docs"@.len());
        assert(s.len() != "ignore"@.len());
        assert(s.len() != "test"@.len());
        assert(s.len() != "tests"@.len());
        assert(s.len() != "config"@.len());
        assert(s.len() != "configuration"@.len());
        assert(s.len() != "generated"@.len());
    }
    if s == "custom"@ {
        assert(s.len() != "documentation"@.len());
        assert(s.len() != "doc"@.len());
        assert(s.len() != "docs"@.len());
        assert(s[0] != "ignore"@[0]);
        assert(s.len() != "test"@.len());
        assert(s.len() != "tests"@.len());
        assert(s[1] != "config"@[1]);
        assert(s.len() != "configuration"@.len());
        assert(s.len() != "generated"@.len());
        assert(s.len() != "gen"@.len());
    }
}

} // verus!
