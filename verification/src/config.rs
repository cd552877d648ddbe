//! Which directories and files the indexer leaves alone, and its default limits.
use vstd::prelude::*;
use crate::text::{
    ascii_lower, chars_of, ends_with_chars, has_suffix, is_ascii_text, lowercase_of, str_eq, to_lowercase,
};

verus! {

broadcast use vstd::string::group_string_axioms;

/// Directory names that are almost never useful for code intelligence.
pub const DEFAULT_IGNORE_DIRS: [&'static str; 28] = [
    "node_modules",
    "vendor",
    "__pycache__",
    ".pycache",
    "target",
    "dist",
    "build",
    ".git",
    ".hg",
    ".svn",
    ".next",
    ".nuxt",
    ".output",
    ".cache",
    ".tox",
    ".mypy_cache",
    ".pytest_cache",
    ".ruff_cache",
    "venv",
    ".venv",
    "env",
    ".env",
    "coverage",
    ".coverage",
    ".nyc_output",
    "htmlcov",
    ".terraform",
    ".serverless",
];

/// File extensions that are binary or otherwise useless for code reading.
pub const DEFAULT_IGNORE_EXTENSIONS: [&'static str; 53] = [
    "min.js", "min.css", "pyc", "pyo", "class", "o", "so", "dylib", "dll", "exe", "a", "lib",
    "jar", "war", "ear", "zip", "tar", "gz", "bz2", "xz", "7z", "rar", "png", "jpg", "jpeg",
    "gif", "bmp", "ico", "svg", "webp", "mp3", "mp4", "avi", "mov", "wmv", "flv", "woff",
    "woff2", "ttf", "eot", "otf", "pdf", "doc", "docx", "xls", "xlsx", "ppt", "pptx", "db",
    "sqlite", "sqlite3", "lock", "map",
];

/// Maximum file size (in bytes) to index by default. Files larger than this
/// are still listed in the tree but are not parsed for symbols.
pub const DEFAULT_MAX_FILE_SIZE: u64 = 1_000_000u64;

/// Maximum bytes for the in-memory file content cache (50 MiB).
pub const DEFAULT_FILE_CACHE_BYTES: usize = 52_428_800usize;

/// Maximum number of tree-sitter parse trees to cache.
pub const DEFAULT_PARSE_CACHE_ENTRIES: usize = 200usize;

/// `name` is one of the ignored directory names.
pub open spec fn is_ignored_dir_name(name: Seq<char>) -> bool {
    exists|i: int| 0 <= i < DEFAULT_IGNORE_DIRS@.len() && DEFAULT_IGNORE_DIRS@[i]@ == name
}

/// The already lowercased path ends in `.` followed by one of the ignored extensions.
pub open spec fn has_ignored_extension_spec(lower: Seq<char>) -> bool {
    exists|i: int|
        0 <= i < DEFAULT_IGNORE_EXTENSIONS@.len() && has_suffix(
            lower,
            seq!['.'] + DEFAULT_IGNORE_EXTENSIONS@[i]@,
        )
}

/// Whether a directory of this name is skipped when walking a project.
pub fn should_ignore_dir(name: &str) -> (r: bool)
    ensures
        r == is_ignored_dir_name(name@),
{
    let mut i: usize = 0;
    while i < DEFAULT_IGNORE_DIRS.len()
        invariant
            i <= DEFAULT_IGNORE_DIRS@.len(),
            forall|j: int| 0 <= j < i ==> DEFAULT_IGNORE_DIRS@[j]@ != name@,
        decreases DEFAULT_IGNORE_DIRS@.len() - i,
    {
        if str_eq(DEFAULT_IGNORE_DIRS[i], name) {
            return true;
        }
        i = i + 1;
    }
    false
}

/// Whether a path, already lowercased, ends in one of the ignored extensions.
pub fn has_ignored_extension(lower: &str) -> (r: bool)
    ensures
        r == has_ignored_extension_spec(lower@),
{
    let s = chars_of(lower);
    let mut i: usize = 0;
    while i < DEFAULT_IGNORE_EXTENSIONS.len()
        invariant
            s@ == lower@,
            i <= DEFAULT_IGNORE_EXTENSIONS@.len(),
            forall|j: int|
                0 <= j < i ==> !has_suffix(lower@, seq!['.'] + DEFAULT_IGNORE_EXTENSIONS@[j]@),
        decreases DEFAULT_IGNORE_EXTENSIONS@.len() - i,
    {
        let mut suffix: Vec<char> = Vec::new();
        suffix.push('.');
        let ext = chars_of(DEFAULT_IGNORE_EXTENSIONS[i]);
        let mut k: usize = 0;
        while k < ext.len()
            invariant
                suffix@ == seq!['.'] + ext@.take(k as int),
                k <= ext@.len(),
            decreases ext@.len() - k,
        {
            suffix.push(ext[k]);
            k = k + 1;
            assert(suffix@ =~= seq!['.'] + ext@.take(k as int));
        }
        assert(ext@.take(k as int) =~= ext@);
        if ends_with_chars(&s, &suffix) {
            return true;
        }
        i = i + 1;
    }
    false
}

/// Whether a file is skipped for its extension: the path is lowercased and
/// then tested against the ignored extensions.
pub fn should_ignore_extension(path: &str) -> (r: bool)
    ensures
        r == has_ignored_extension_spec(lowercase_of(path@)),
        is_ascii_text(path@) ==> r == has_ignored_extension_spec(ascii_lower(path@)),
{
    let lower = to_lowercase(path);
    has_ignored_extension(lower.as_str())
}

/// A directory is skipped exactly when its name is one of the listed names:
/// `node_modules`, `vendor`, `__pycache__`, `.pycache`, `target`, `dist`, `build`, `.git`,
/// `.hg`, `.svn`, `.next`, `.nuxt`, `.output`, `.cache`, `.tox`, `.mypy_cache`, `.pytest_cache`, `.ruff_cache`,
/// `venv`, `.venv`, `env`, `.env`, `coverage`, `.coverage`, `.nyc_output`, `htmlcov`, `.terraform`, `.serverless`.
pub proof fn law_ignored_dir_names(name: Seq<char>)
    ensures
        is_ignored_dir_name(name) <==> (name == "node_modules"@ || name == "vendor"@ || name == "__pycache__"@ || name == ".pycache"@ || name == "target"@ || name == "dist"@ || name == "build"@ || name == ".git"@ || name == ".hg"@ || name == ".svn"@ || name == ".next"@ || name == ".nuxt"@ || name == ".output"@ || name == ".cache"@ || name == ".tox"@ || name == ".mypy_cache"@ || name == ".pytest_cache"@ || name == ".ruff_cache"@ || name == "venv"@ || name == ".venv"@ || name == "env"@ || name == ".env"@ || name == "coverage"@ || name == ".coverage"@ || name == ".nyc_output"@ || name == "htmlcov"@ || name == ".terraform"@ || name == ".serverless"@),
{
    assert(DEFAULT_IGNORE_DIRS@[0] == "node_modules");
    assert(DEFAULT_IGNORE_DIRS@[1] == "vendor");
    assert(DEFAULT_IGNORE_DIRS@[2] == "__pycache__");
    assert(DEFAULT_IGNORE_DIRS@[3] == ".pycache");
    assert(DEFAULT_IGNORE_DIRS@[4] == "target");
    assert(DEFAULT_IGNORE_DIRS@[5] == "dist");
    assert(DEFAULT_IGNORE_DIRS@[6] == "build");
    assert(DEFAULT_IGNORE_DIRS@[7] == ".git");
    assert(DEFAULT_IGNORE_DIRS@[8] == ".hg");
    assert(DEFAULT_IGNORE_DIRS@[9] == ".svn");
    assert(DEFAULT_IGNORE_DIRS@[10] == ".next");
    assert(DEFAULT_IGNORE_DIRS@[11] == ".nuxt");
    assert(DEFAULT_IGNORE_DIRS@[12] == ".output");
    assert(DEFAULT_IGNORE_DIRS@[13] == ".cache");
    assert(DEFAULT_IGNORE_DIRS@[14] == ".tox");
    assert(DEFAULT_IGNORE_DIRS@[15] == ".mypy_cache");
    assert(DEFAULT_IGNORE_DIRS@[16] == ".pytest_cache");
    assert(DEFAULT_IGNORE_DIRS@[17] == ".ruff_cache");
    assert(DEFAULT_IGNORE_DIRS@[18] == "venv");
    assert(DEFAULT_IGNORE_DIRS@[19] == ".venv");
    assert(DEFAULT_IGNORE_DIRS@[20] == "env");
    assert(DEFAULT_IGNORE_DIRS@[21] == ".env");
    assert(DEFAULT_IGNORE_DIRS@[22] == "coverage");
    assert(DEFAULT_IGNORE_DIRS@[23] == ".coverage");
    assert(DEFAULT_IGNORE_DIRS@[24] == ".nyc_output");
    assert(DEFAULT_IGNORE_DIRS@[25] == "htmlcov");
    assert(DEFAULT_IGNORE_DIRS@[26] == ".terraform");
    assert(DEFAULT_IGNORE_DIRS@[27] == ".serverless");
    if is_ignored_dir_name(name) {
        let i = choose|i: int| 0 <= i < DEFAULT_IGNORE_DIRS@.len() && DEFAULT_IGNORE_DIRS@[i]@ == name;
        assert(i == 0 || i == 1 || i == 2 || i == 3 || i == 4 || i == 5 || i == 6 || i == 7 || i == 8 || i == 9 || i == 10 || i == 11 || i == 12 || i == 13 || i == 14 || i == 15 || i == 16 || i == 17 || i == 18 || i == 19 || i == 20 || i == 21 || i == 22 || i == 23 || i == 24 || i == 25 || i == 26 || i == 27);
    }
    if name == "node_modules"@ {
        assert(DEFAULT_IGNORE_DIRS@[0]@ == name);
    }
    if name == "vendor"@ {
        assert(DEFAULT_IGNORE_DIRS@[1]@ == name);
    }
    if name == "__pycache__"@ {
        assert(DEFAULT_IGNORE_DIRS@[2]@ == name);
    }
    if name == ".pycache"@ {
        assert(DEFAULT_IGNORE_DIRS@[3]@ == name);
    }
    if name == "target"@ {
        assert(DEFAULT_IGNORE_DIRS@[4]@ == name);
    }
    if name == "dist"@ {
        assert(DEFAULT_IGNORE_DIRS@[5]@ == name);
    }
    if name == "build"@ {
        assert(DEFAULT_IGNORE_DIRS@[6]@ == name);
    }
    if name == ".git"@ {
        assert(DEFAULT_IGNORE_DIRS@[7]@ == name);
    }
    if name == ".hg"@ {
        assert(DEFAULT_IGNORE_DIRS@[8]@ == name);
    }
    if name == ".svn"@ {
        assert(DEFAULT_IGNORE_DIRS@[9]@ == name);
    }
    if name == ".next"@ {
        assert(DEFAULT_IGNORE_DIRS@[10]@ == name);
    }
    if name == ".nuxt"@ {
        assert(DEFAULT_IGNORE_DIRS@[11]@ == name);
    }
    if name == ".output"@ {
        assert(DEFAULT_IGNORE_DIRS@[12]@ == name);
    }
    if name == ".cache"@ {
        assert(DEFAULT_IGNORE_DIRS@[13]@ == name);
    }
    if name == ".tox"@ {
        assert(DEFAULT_IGNORE_DIRS@[14]@ == name);
    }
    if name == ".mypy_cache"@ {
        assert(DEFAULT_IGNORE_DIRS@[15]@ == name);
    }
    if name == ".pytest_cache"@ {
        assert(DEFAULT_IGNORE_DIRS@[16]@ == name);
    }
    if name == ".ruff_cache"@ {
        assert(DEFAULT_IGNORE_DIRS@[17]@ == name);
    }
    if name == "venv"@ {
        assert(DEFAULT_IGNORE_DIRS@[18]@ == name);
    }
    if name == ".venv"@ {
        assert(DEFAULT_IGNORE_DIRS@[19]@ == name);
    }
    if name == "env"@ {
        assert(DEFAULT_IGNORE_DIRS@[20]@ == name);
    }
    if name == ".env"@ {
        assert(DEFAULT_IGNORE_DIRS@[21]@ == name);
    }
    if name == "coverage"@ {
        assert(DEFAULT_IGNORE_DIRS@[22]@ == name);
    }
    if name == ".coverage"@ {
        assert(DEFAULT_IGNORE_DIRS@[23]@ == name);
    }
    if name == ".nyc_output"@ {
        assert(DEFAULT_IGNORE_DIRS@[24]@ == name);
    }
    if name == "htmlcov"@ {
        assert(DEFAULT_IGNORE_DIRS@[25]@ == name);
    }
    if name == ".terraform"@ {
        assert(DEFAULT_IGNORE_DIRS@[26]@ == name);
    }
    if name == ".serverless"@ {
        assert(DEFAULT_IGNORE_DIRS@[27]@ == name);
    }
}

/// The dot before an extension without dots is the last dot of a path whose
/// last part has no dot either, so the two parts are the same.
proof fn lemma_suffix_dot(p: Seq<char>, base: Seq<char>, ext: Seq<char>, e: Seq<char>)
    requires
        p == base + seq!['.'] + ext,
        !ext.contains('.'),
        !e.contains('.'),
        has_suffix(p, seq!['.'] + e),
    ensures
        e == ext,
{
    let t = seq!['.'] + e;
    let n = p.len() as int;
    let b = base.len() as int;
    let q = n - t.len();
    assert(p[b] == '.');
    assert(p.subrange(q, n) == t);
    assert(p[q] == '.') by {
        assert(p.subrange(q, n)[0] == t[0]);
    }
    if e.len() < ext.len() {
        assert(p[q] == ext[q - b - 1]);
        assert(ext.contains('.')) by {
            assert(ext[q - b - 1] == '.');
        }
    } else if e.len() > ext.len() {
        let k = b - q;
        assert(p.subrange(q, n)[k] == t[k]);
        assert(t[k] == e[k - 1]);
        assert(e.contains('.')) by {
            assert(e[k - 1] == '.');
        }
    } else {
        assert forall|j: int| 0 <= j < e.len() implies e[j] == ext[j] by {
            assert(p.subrange(q, n)[j + 1] == t[j + 1]);
            assert(p[q + 1 + j] == ext[j]);
        }
        assert(e =~= ext);
    }
}

/// A lowercased path that ends in `.` and one of the listed extensions is
/// skipped: `min.js`, `min.css`, `pyc`, `pyo`, `class`, `o`, `so`, `dylib`, `dll`, `exe`, `a`, `lib`,
/// `jar`, `war`, `ear`, `zip`, `tar`, `gz`, `bz2`, `xz`, `7z`, `rar`, `png`, `jpg`, `jpeg`, `gif`, `bmp`, `ico`,
/// `svg`, `webp`, `mp3`, `mp4`, `avi`, `mov`, `wmv`, `flv`, `woff`, `woff2`, `ttf`, `eot`, `otf`, `pdf`, `doc`, `docx`, `xls`, `xlsx`, `ppt`, `pptx`, `db`, `sqlite`, `sqlite3`, `lock`, `map`.
pub proof fn law_listed_extension_skipped(p: Seq<char>, e: Seq<char>)
    requires
        has_suffix(p, seq!['.'] + e),
        e == "min.js"@ || e == "min.css"@ || e == "pyc"@ || e == "pyo"@ || e == "class"@ || e == "o"@ || e == "so"@ || e == "dylib"@ || e == "dll"@ || e == "exe"@ || e == "a"@ || e == "lib"@ || e == "jar"@ || e == "war"@ || e == "ear"@ || e == "zip"@ || e == "tar"@ || e == "gz"@ || e == "bz2"@ || e == "xz"@ || e == "7z"@ || e == "rar"@ || e == "png"@ || e == "jpg"@ || e == "jpeg"@ || e == "gif"@ || e == "bmp"@ || e == "ico"@ || e == "svg"@ || e == "webp"@ || e == "mp3"@ || e == "mp4"@ || e == "avi"@ || e == "mov"@ || e == "wmv"@ || e == "flv"@ || e == "woff"@ || e == "woff2"@ || e == "ttf"@ || e == "eot"@ || e == "otf"@ || e == "pdf"@ || e == "doc"@ || e == "docx"@ || e == "xls"@ || e == "xlsx"@ || e == "ppt"@ || e == "pptx"@ || e == "db"@ || e == "sqlite"@ || e == "sqlite3"@ || e == "lock"@ || e == "map"@,
    ensures
        has_ignored_extension_spec(p),
{
    if e == "min.js"@ {
        assert(DEFAULT_IGNORE_EXTENSIONS@[0] == "min.js");
        assert(DEFAULT_IGNORE_EXTENSIONS@[0]@ == e);
    }
    if e == "min.css"@ {
        assert(DEFAULT_IGNORE_EXTENSIONS@[1] == "min.css");
        assert(DEFAULT_IGNORE_EXTENSIONS@[1]@ == e);
    }
    if e == "pyc"@ {
        assert(DEFAULT_IGNORE_EXTENSIONS@[2] == "pyc");
        assert(DEFAULT_IGNORE_EXTENSIONS@[2]@ == e);
    }
    if e == "pyo"@ {
        assert(DEFAULT_IGNORE_EXTENSIONS@[3] == "pyo");
        assert(DEFAULT_IGNORE_EXTENSIONS@[3]@ == e);
    }
    if e == "class"@ {
        assert(DEFAULT_IGNORE_EXTENSIONS@[4] == "class");
        assert(DEFAULT_IGNORE_EXTENSIONS@[4]@ == e);
    }
    if e == "o"@ {
        assert(DEFAULT_IGNORE_EXTENSIONS@[5] == "o");
        assert(DEFAULT_IGNORE_EXTENSIONS@[5]@ == e);
    }
    if e == "so"@ {
        assert(DEFAULT_IGNORE_EXTENSIONS@[6] == "so");
        assert(DEFAULT_IGNORE_EXTENSIONS@[6]@ == e);
    }
    if e == "dylib"@ {
        assert(DEFAULT_IGNORE_EXTENSIONS@[7] == "dylib");
        assert(DEFAULT_IGNORE_EXTENSIONS@[7]@ == e);
    }
    if e == "dll"@ {
        assert(DEFAULT_IGNORE_EXTENSIONS@[8] == "dll");
        assert(DEFAULT_IGNORE_EXTENSIONS@[8]@ == e);
    }
    if e == "exe"@ {
        assert(DEFAULT_IGNORE_EXTENSIONS@[9] == "exe");
        assert(DEFAULT_IGNORE_EXTENSIONS@[9]@ == e);
    }
    if e == "a"@ {
        assert(DEFAULT_IGNORE_EXTENSIONS@[10] == "a");
        assert(DEFAULT_IGNORE_EXTENSIONS@[10]@ == e);
    }
    if e == "lib"@ {
        assert(DEFAULT_IGNORE_EXTENSIONS@[11] == "lib");
        assert(DEFAULT_IGNORE_EXTENSIONS@[11]@ == e);
    }
    if e == "jar"@ {
        assert(DEFAULT_IGNORE_EXTENSIONS@[12] == "jar");
        assert(DEFAULT_IGNORE_EXTENSIONS@[12]@ == e);
    }
    if e == "war"@ {
        assert(DEFAULT_IGNORE_EXTENSIONS@[13] == "war");
        assert(DEFAULT_IGNORE_EXTENSIONS@[13]@ == e);
    }
    if e == "ear"@ {
        assert(DEFAULT_IGNORE_EXTENSIONS@[14] == "ear");
        assert(DEFAULT_IGNORE_EXTENSIONS@[14]@ == e);
    }
    if e == "zip"@ {
        assert(DEFAULT_IGNORE_EXTENSIONS@[15] == "zip");
        assert(DEFAULT_IGNORE_EXTENSIONS@[15]@ == e);
    }
    if e == "tar"@ {
        assert(DEFAULT_IGNORE_EXTENSIONS@[16] == "tar");
        assert(DEFAULT_IGNORE_EXTENSIONS@[16]@ == e);
    }
    if e == "gz"@ {
        assert(DEFAULT_IGNORE_EXTENSIONS@[17] == "gz");
        assert(DEFAULT_IGNORE_EXTENSIONS@[17]@ == e);
    }
    if e == "bz2"@ {
        assert(DEFAULT_IGNORE_EXTENSIONS@[18] == "bz2");
        assert(DEFAULT_IGNORE_EXTENSIONS@[18]@ == e);
    }
    if e == "xz"@ {
        assert(DEFAULT_IGNORE_EXTENSIONS@[19] == "xz");
        assert(DEFAULT_IGNORE_EXTENSIONS@[19]@ == e);
    }
    if e == "7z"@ {
        assert(DEFAULT_IGNORE_EXTENSIONS@[20] == "7z");
        assert(DEFAULT_IGNORE_EXTENSIONS@[20]@ == e);
    }
    if e == "rar"@ {
        assert(DEFAULT_IGNORE_EXTENSIONS@[21] == "rar");
        assert(DEFAULT_IGNORE_EXTENSIONS@[21]@ == e);
    }
    if e == "png"@ {
        assert(DEFAULT_IGNORE_EXTENSIONS@[22] == "png");
        assert(DEFAULT_IGNORE_EXTENSIONS@[22]@ == e);
    }
    if e == "jpg"@ {
        assert(DEFAULT_IGNORE_EXTENSIONS@[23] == "jpg");
        assert(DEFAULT_IGNORE_EXTENSIONS@[23]@ == e);
    }
    if e == "jpeg"@ {
        assert(DEFAULT_IGNORE_EXTENSIONS@[24] == "jpeg");
        assert(DEFAULT_IGNORE_EXTENSIONS@[24]@ == e);
    }
    if e == "gif"@ {
        assert(DEFAULT_IGNORE_EXTENSIONS@[25] == "gif");
        assert(DEFAULT_IGNORE_EXTENSIONS@[25]@ == e);
    }
    if e == "bmp"@ {
        assert(DEFAULT_IGNORE_EXTENSIONS@[26] == "bmp");
        assert(DEFAULT_IGNORE_EXTENSIONS@[26]@ == e);
    }
    if e == "ico"@ {
        assert(DEFAULT_IGNORE_EXTENSIONS@[27] == "ico");
        assert(DEFAULT_IGNORE_EXTENSIONS@[27]@ == e);
    }
    if e == "svg"@ {
        assert(DEFAULT_IGNORE_EXTENSIONS@[28] == "svg");
        assert(DEFAULT_IGNORE_EXTENSIONS@[28]@ == e);
    }
    if e == "webp"@ {
        assert(DEFAULT_IGNORE_EXTENSIONS@[29] == "webp");
        assert(DEFAULT_IGNORE_EXTENSIONS@[29]@ == e);
    }
    if e == "mp3"@ {
        assert(DEFAULT_IGNORE_EXTENSIONS@[30] == "mp3");
        assert(DEFAULT_IGNORE_EXTENSIONS@[30]@ == e);
    }
    if e == "mp4"@ {
        assert(DEFAULT_IGNORE_EXTENSIONS@[31] == "mp4");
        assert(DEFAULT_IGNORE_EXTENSIONS@[31]@ == e);
    }
    if e == "avi"@ {
        assert(DEFAULT_IGNORE_EXTENSIONS@[32] == "avi");
        assert(DEFAULT_IGNORE_EXTENSIONS@[32]@ == e);
    }
    if e == "mov"@ {
        assert(DEFAULT_IGNORE_EXTENSIONS@[33] == "mov");
        assert(DEFAULT_IGNORE_EXTENSIONS@[33]@ == e);
    }
    if e == "wmv"@ {
        assert(DEFAULT_IGNORE_EXTENSIONS@[34] == "wmv");
        assert(DEFAULT_IGNORE_EXTENSIONS@[34]@ == e);
    }
    if e == "flv"@ {
        assert(DEFAULT_IGNORE_EXTENSIONS@[35] == "flv");
        assert(DEFAULT_IGNORE_EXTENSIONS@[35]@ == e);
    }
    if e == "woff"@ {
        assert(DEFAULT_IGNORE_EXTENSIONS@[36] == "woff");
        assert(DEFAULT_IGNORE_EXTENSIONS@[36]@ == e);
    }
    if e == "woff2"@ {
        assert(DEFAULT_IGNORE_EXTENSIONS@[37] == "woff2");
        assert(DEFAULT_IGNORE_EXTENSIONS@[37]@ == e);
    }
    if e == "ttf"@ {
        assert(DEFAULT_IGNORE_EXTENSIONS@[38] == "ttf");
        assert(DEFAULT_IGNORE_EXTENSIONS@[38]@ == e);
    }
    if e == "eot"@ {
        assert(DEFAULT_IGNORE_EXTENSIONS@[39] == "eot");
        assert(DEFAULT_IGNORE_EXTENSIONS@[39]@ == e);
    }
    if e == "otf"@ {
        assert(DEFAULT_IGNORE_EXTENSIONS@[40] == "otf");
        assert(DEFAULT_IGNORE_EXTENSIONS@[40]@ == e);
    }
    if e == "pdf"@ {
        assert(DEFAULT_IGNORE_EXTENSIONS@[41] == "pdf");
        assert(DEFAULT_IGNORE_EXTENSIONS@[41]@ == e);
    }
    if e == "doc"@ {
        assert(DEFAULT_IGNORE_EXTENSIONS@[42] == "doc");
        assert(DEFAULT_IGNORE_EXTENSIONS@[42]@ == e);
    }
    if e == "docx"@ {
        assert(DEFAULT_IGNORE_EXTENSIONS@[43] == "docx");
        assert(DEFAULT_IGNORE_EXTENSIONS@[43]@ == e);
    }
    if e == "xls"@ {
        assert(DEFAULT_IGNORE_EXTENSIONS@[44] == "xls");
        assert(DEFAULT_IGNORE_EXTENSIONS@[44]@ == e);
    }
    if e == "xlsx"@ {
        assert(DEFAULT_IGNORE_EXTENSIONS@[45] == "xlsx");
        assert(DEFAULT_IGNORE_EXTENSIONS@[45]@ == e);
    }
    if e == "ppt"@ {
        assert(DEFAULT_IGNORE_EXTENSIONS@[46] == "ppt");
        assert(DEFAULT_IGNORE_EXTENSIONS@[46]@ == e);
    }
    if e == "pptx"@ {
        assert(DEFAULT_IGNORE_EXTENSIONS@[47] == "pptx");
        assert(DEFAULT_IGNORE_EXTENSIONS@[47]@ == e);
    }
    if e == "db"@ {
        assert(DEFAULT_IGNORE_EXTENSIONS@[48] == "db");
        assert(DEFAULT_IGNORE_EXTENSIONS@[48]@ == e);
    }
    if e == "sqlite"@ {
        assert(DEFAULT_IGNORE_EXTENSIONS@[49] == "sqlite");
        assert(DEFAULT_IGNORE_EXTENSIONS@[49]@ == e);
    }
    if e == "sqlite3"@ {
        assert(DEFAULT_IGNORE_EXTENSIONS@[50] == "sqlite3");
        assert(DEFAULT_IGNORE_EXTENSIONS@[50]@ == e);
    }
    if e == "lock"@ {
        assert(DEFAULT_IGNORE_EXTENSIONS@[51] == "lock");
        assert(DEFAULT_IGNORE_EXTENSIONS@[51]@ == e);
    }
    if e == "map"@ {
        assert(DEFAULT_IGNORE_EXTENSIONS@[52] == "map");
        assert(DEFAULT_IGNORE_EXTENSIONS@[52]@ == e);
    }
}

/// A lowercased path whose text after its last `.` is none of the listed
/// extensions, and that does not end in `.min.js` or `.min.css`, is not
/// skipped for its extension.
pub proof fn law_unlisted_extension_kept(p: Seq<char>, base: Seq<char>, ext: Seq<char>)
    requires
        p == base + seq!['.'] + ext,
        !ext.contains('.'),
        !(ext == "min.js"@ || ext == "min.css"@ || ext == "pyc"@ || ext == "pyo"@ || ext == "class"@ || ext == "o"@ || ext == "so"@ || ext == "dylib"@ || ext == "dll"@ || ext == "exe"@ || ext == "a"@ || ext == "lib"@ || ext == "jar"@ || ext == "war"@ || ext == "ear"@ || ext == "zip"@ || ext == "tar"@ || ext == "gz"@ || ext == "bz2"@ || ext == "xz"@ || ext == "7z"@ || ext == "rar"@ || ext == "png"@ || ext == "jpg"@ || ext == "jpeg"@ || ext == "gif"@ || ext == "bmp"@ || ext == "ico"@ || ext == "svg"@ || ext == "webp"@ || ext == "mp3"@ || ext == "mp4"@ || ext == "avi"@ || ext == "mov"@ || ext == "wmv"@ || ext == "flv"@ || ext == "woff"@ || ext == "woff2"@ || ext == "ttf"@ || ext == "eot"@ || ext == "otf"@ || ext == "pdf"@ || ext == "doc"@ || ext == "docx"@ || ext == "xls"@ || ext == "xlsx"@ || ext == "ppt"@ || ext == "pptx"@ || ext == "db"@ || ext == "sqlite"@ || ext == "sqlite3"@ || ext == "lock"@ || ext == "map"@),
        !has_suffix(p, ".min.js"@),
        !has_suffix(p, ".min.css"@),
    ensures
        !has_ignored_extension_spec(p),
{
    if has_ignored_extension_spec(p) {
        let i = choose|i: int| 0 <= i < DEFAULT_IGNORE_EXTENSIONS@.len() && has_suffix(p, seq!['.'] + DEFAULT_IGNORE_EXTENSIONS@[i]@);
        assert(i == 0 || i == 1 || i == 2 || i == 3 || i == 4 || i == 5 || i == 6 || i == 7 || i == 8 || i == 9 || i == 10 || i == 11 || i == 12 || i == 13 || i == 14 || i == 15 || i == 16 || i == 17 || i == 18 || i == 19 || i == 20 || i == 21 || i == 22 || i == 23 || i == 24 || i == 25 || i == 26 || i == 27 || i == 28 || i == 29 || i == 30 || i == 31 || i == 32 || i == 33 || i == 34 || i == 35 || i == 36 || i == 37 || i == 38 || i == 39 || i == 40 || i == 41 || i == 42 || i == 43 || i == 44 || i == 45 || i == 46 || i == 47 || i == 48 || i == 49 || i == 50 || i == 51 || i == 52);
        if i == 0 {
            assert(DEFAULT_IGNORE_EXTENSIONS@[0] == "min.js");
            reveal_strlit("min.js");
            reveal_strlit(".min.js");
            assert(seq!['.'] + DEFAULT_IGNORE_EXTENSIONS@[0]@ =~= ".min.js"@);
        }
        if i == 1 {
            assert(DEFAULT_IGNORE_EXTENSIONS@[1] == "min.css");
            reveal_strlit("min.css");
            reveal_strlit(".min.css");
            assert(seq!['.'] + DEFAULT_IGNORE_EXTENSIONS@[1]@ =~= ".min.css"@);
        }
        if i == 2 {
            assert(DEFAULT_IGNORE_EXTENSIONS@[2] == "pyc");
            reveal_strlit("pyc");
            assert(!DEFAULT_IGNORE_EXTENSIONS@[2]@.contains('.'));
            lemma_suffix_dot(p, base, ext, DEFAULT_IGNORE_EXTENSIONS@[2]@);
        }
        if i == 3 {
            assert(DEFAULT_IGNORE_EXTENSIONS@[3] == "pyo");
            reveal_strlit("pyo");
            assert(!DEFAULT_IGNORE_EXTENSIONS@[3]@.contains('.'));
            lemma_suffix_dot(p, base, ext, DEFAULT_IGNORE_EXTENSIONS@[3]@);
        }
        if i == 4 {
            assert(DEFAULT_IGNORE_EXTENSIONS@[4] == "class");
            reveal_strlit("class");
            assert(!DEFAULT_IGNORE_EXTENSIONS@[4]@.contains('.'));
            lemma_suffix_dot(p, base, ext, DEFAULT_IGNORE_EXTENSIONS@[4]@);
        }
        if i == 5 {
            assert(DEFAULT_IGNORE_EXTENSIONS@[5] == "o");
            reveal_strlit("o");
            assert(!DEFAULT_IGNORE_EXTENSIONS@[5]@.contains('.'));
            lemma_suffix_dot(p, base, ext, DEFAULT_IGNORE_EXTENSIONS@[5]@);
        }
        if i == 6 {
            assert(DEFAULT_IGNORE_EXTENSIONS@[6] == "so");
            reveal_strlit("so");
            assert(!DEFAULT_IGNORE_EXTENSIONS@[6]@.contains('.'));
            lemma_suffix_dot(p, base, ext, DEFAULT_IGNORE_EXTENSIONS@[6]@);
        }
        if i == 7 {
            assert(DEFAULT_IGNORE_EXTENSIONS@[7] == "dylib");
            reveal_strlit("dylib");
            assert(!DEFAULT_IGNORE_EXTENSIONS@[7]@.contains('.'));
            lemma_suffix_dot(p, base, ext, DEFAULT_IGNORE_EXTENSIONS@[7]@);
        }
        if i == 8 {
            assert(DEFAULT_IGNORE_EXTENSIONS@[8] == "dll");
            reveal_strlit("dll");
            assert(!DEFAULT_IGNORE_EXTENSIONS@[8]@.contains('.'));
            lemma_suffix_dot(p, base, ext, DEFAULT_IGNORE_EXTENSIONS@[8]@);
        }
        if i == 9 {
            assert(DEFAULT_IGNORE_EXTENSIONS@[9] == "exe");
            reveal_strlit("exe");
            assert(!DEFAULT_IGNORE_EXTENSIONS@[9]@.contains('.'));
            lemma_suffix_dot(p, base, ext, DEFAULT_IGNORE_EXTENSIONS@[9]@);
        }
        if i == 10 {
            assert(DEFAULT_IGNORE_EXTENSIONS@[10] == "a");
            reveal_strlit("a");
            assert(!DEFAULT_IGNORE_EXTENSIONS@[10]@.contains('.'));
            lemma_suffix_dot(p, base, ext, DEFAULT_IGNORE_EXTENSIONS@[10]@);
        }
        if i == 11 {
            assert(DEFAULT_IGNORE_EXTENSIONS@[11] == "lib");
            reveal_strlit("lib");
            assert(!DEFAULT_IGNORE_EXTENSIONS@[11]@.contains('.'));
            lemma_suffix_dot(p, base, ext, DEFAULT_IGNORE_EXTENSIONS@[11]@);
        }
        if i == 12 {
            assert(DEFAULT_IGNORE_EXTENSIONS@[12] == "jar");
            reveal_strlit("jar");
            assert(!DEFAULT_IGNORE_EXTENSIONS@[12]@.contains('.'));
            lemma_suffix_dot(p, base, ext, DEFAULT_IGNORE_EXTENSIONS@[12]@);
        }
        if i == 13 {
            assert(DEFAULT_IGNORE_EXTENSIONS@[13] == "war");
            reveal_strlit("war");
            assert(!DEFAULT_IGNORE_EXTENSIONS@[13]@.contains('.'));
            lemma_suffix_dot(p, base, ext, DEFAULT_IGNORE_EXTENSIONS@[13]@);
        }
        if i == 14 {
            assert(DEFAULT_IGNORE_EXTENSIONS@[14] == "ear");
            reveal_strlit("ear");
            assert(!DEFAULT_IGNORE_EXTENSIONS@[14]@.contains('.'));
            lemma_suffix_dot(p, base, ext, DEFAULT_IGNORE_EXTENSIONS@[14]@);
        }
        if i == 15 {
            assert(DEFAULT_IGNORE_EXTENSIONS@[15] == "zip");
            reveal_strlit("zip");
            assert(!DEFAULT_IGNORE_EXTENSIONS@[15]@.contains('.'));
            lemma_suffix_dot(p, base, ext, DEFAULT_IGNORE_EXTENSIONS@[15]@);
        }
        if i == 16 {
            assert(DEFAULT_IGNORE_EXTENSIONS@[16] == "tar");
            reveal_strlit("tar");
            assert(!DEFAULT_IGNORE_EXTENSIONS@[16]@.contains('.'));
            lemma_suffix_dot(p, base, ext, DEFAULT_IGNORE_EXTENSIONS@[16]@);
        }
        if i == 17 {
            assert(DEFAULT_IGNORE_EXTENSIONS@[17] == "gz");
            reveal_strlit("gz");
            assert(!DEFAULT_IGNORE_EXTENSIONS@[17]@.contains('.'));
            lemma_suffix_dot(p, base, ext, DEFAULT_IGNORE_EXTENSIONS@[17]@);
        }
        if i == 18 {
            assert(DEFAULT_IGNORE_EXTENSIONS@[18] == "bz2");
            reveal_strlit("bz2");
            assert(!DEFAULT_IGNORE_EXTENSIONS@[18]@.contains('.'));
            lemma_suffix_dot(p, base, ext, DEFAULT_IGNORE_EXTENSIONS@[18]@);
        }
        if i == 19 {
            assert(DEFAULT_IGNORE_EXTENSIONS@[19] == "xz");
            reveal_strlit("xz");
            assert(!DEFAULT_IGNORE_EXTENSIONS@[19]@.contains('.'));
            lemma_suffix_dot(p, base, ext, DEFAULT_IGNORE_EXTENSIONS@[19]@);
        }
        if i == 20 {
            assert(DEFAULT_IGNORE_EXTENSIONS@[20] == "7z");
            reveal_strlit("7z");
            assert(!DEFAULT_IGNORE_EXTENSIONS@[20]@.contains('.'));
            lemma_suffix_dot(p, base, ext, DEFAULT_IGNORE_EXTENSIONS@[20]@);
        }
        if i == 21 {
            assert(DEFAULT_IGNORE_EXTENSIONS@[21] == "rar");
            reveal_strlit("rar");
            assert(!DEFAULT_IGNORE_EXTENSIONS@[21]@.contains('.'));
            lemma_suffix_dot(p, base, ext, DEFAULT_IGNORE_EXTENSIONS@[21]@);
        }
        if i == 22 {
            assert(DEFAULT_IGNORE_EXTENSIONS@[22] == "png");
            reveal_strlit("png");
            assert(!DEFAULT_IGNORE_EXTENSIONS@[22]@.contains('.'));
            lemma_suffix_dot(p, base, ext, DEFAULT_IGNORE_EXTENSIONS@[22]@);
        }
        if i == 23 {
            assert(DEFAULT_IGNORE_EXTENSIONS@[23] == "jpg");
            reveal_strlit("jpg");
            assert(!DEFAULT_IGNORE_EXTENSIONS@[23]@.contains('.'));
            lemma_suffix_dot(p, base, ext, DEFAULT_IGNORE_EXTENSIONS@[23]@);
        }
        if i == 24 {
            assert(DEFAULT_IGNORE_EXTENSIONS@[24] == "jpeg");
            reveal_strlit("jpeg");
            assert(!DEFAULT_IGNORE_EXTENSIONS@[24]@.contains('.'));
            lemma_suffix_dot(p, base, ext, DEFAULT_IGNORE_EXTENSIONS@[24]@);
        }
        if i == 25 {
            assert(DEFAULT_IGNORE_EXTENSIONS@[25] == "gif");
            reveal_strlit("gif");
            assert(!DEFAULT_IGNORE_EXTENSIONS@[25]@.contains('.'));
            lemma_suffix_dot(p, base, ext, DEFAULT_IGNORE_EXTENSIONS@[25]@);
        }
        if i == 26 {
            assert(DEFAULT_IGNORE_EXTENSIONS@[26] == "bmp");
            reveal_strlit("bmp");
            assert(!DEFAULT_IGNORE_EXTENSIONS@[26]@.contains('.'));
            lemma_suffix_dot(p, base, ext, DEFAULT_IGNORE_EXTENSIONS@[26]@);
        }
        if i == 27 {
            assert(DEFAULT_IGNORE_EXTENSIONS@[27] == "ico");
            reveal_strlit("ico");
            assert(!DEFAULT_IGNORE_EXTENSIONS@[27]@.contains('.'));
            lemma_suffix_dot(p, base, ext, DEFAULT_IGNORE_EXTENSIONS@[27]@);
        }
        if i == 28 {
            assert(DEFAULT_IGNORE_EXTENSIONS@[28] == "svg");
            reveal_strlit("svg");
            assert(!DEFAULT_IGNORE_EXTENSIONS@[28]@.contains('.'));
            lemma_suffix_dot(p, base, ext, DEFAULT_IGNORE_EXTENSIONS@[28]@);
        }
        if i == 29 {
            assert(DEFAULT_IGNORE_EXTENSIONS@[29] == "webp");
            reveal_strlit("webp");
            assert(!DEFAULT_IGNORE_EXTENSIONS@[29]@.contains('.'));
            lemma_suffix_dot(p, base, ext, DEFAULT_IGNORE_EXTENSIONS@[29]@);
        }
        if i == 30 {
            assert(DEFAULT_IGNORE_EXTENSIONS@[30] == "mp3");
            reveal_strlit("mp3");
            assert(!DEFAULT_IGNORE_EXTENSIONS@[30]@.contains('.'));
            lemma_suffix_dot(p, base, ext, DEFAULT_IGNORE_EXTENSIONS@[30]@);
        }
        if i == 31 {
            assert(DEFAULT_IGNORE_EXTENSIONS@[31] == "mp4");
            reveal_strlit("mp4");
            assert(!DEFAULT_IGNORE_EXTENSIONS@[31]@.contains('.'));
            lemma_suffix_dot(p, base, ext, DEFAULT_IGNORE_EXTENSIONS@[31]@);
        }
        if i == 32 {
            assert(DEFAULT_IGNORE_EXTENSIONS@[32] == "avi");
            reveal_strlit("avi");
            assert(!DEFAULT_IGNORE_EXTENSIONS@[32]@.contains('.'));
            lemma_suffix_dot(p, base, ext, DEFAULT_IGNORE_EXTENSIONS@[32]@);
        }
        if i == 33 {
            assert(DEFAULT_IGNORE_EXTENSIONS@[33] == "mov");
            reveal_strlit("mov");
            assert(!DEFAULT_IGNORE_EXTENSIONS@[33]@.contains('.'));
            lemma_suffix_dot(p, base, ext, DEFAULT_IGNORE_EXTENSIONS@[33]@);
        }
        if i == 34 {
            assert(DEFAULT_IGNORE_EXTENSIONS@[34] == "wmv");
            reveal_strlit("wmv");
            assert(!DEFAULT_IGNORE_EXTENSIONS@[34]@.contains('.'));
            lemma_suffix_dot(p, base, ext, DEFAULT_IGNORE_EXTENSIONS@[34]@);
        }
        if i == 35 {
            assert(DEFAULT_IGNORE_EXTENSIONS@[35] == "flv");
            reveal_strlit("flv");
            assert(!DEFAULT_IGNORE_EXTENSIONS@[35]@.contains('.'));
            lemma_suffix_dot(p, base, ext, DEFAULT_IGNORE_EXTENSIONS@[35]@);
        }
        if i == 36 {
            assert(DEFAULT_IGNORE_EXTENSIONS@[36] == "woff");
            reveal_strlit("woff");
            assert(!DEFAULT_IGNORE_EXTENSIONS@[36]@.contains('.'));
            lemma_suffix_dot(p, base, ext, DEFAULT_IGNORE_EXTENSIONS@[36]@);
        }
        if i == 37 {
            assert(DEFAULT_IGNORE_EXTENSIONS@[37] == "woff2");
            reveal_strlit("woff2");
            assert(!DEFAULT_IGNORE_EXTENSIONS@[37]@.contains('.'));
            lemma_suffix_dot(p, base, ext, DEFAULT_IGNORE_EXTENSIONS@[37]@);
        }
        if i == 38 {
            assert(DEFAULT_IGNORE_EXTENSIONS@[38] == "ttf");
            reveal_strlit("ttf");
            assert(!DEFAULT_IGNORE_EXTENSIONS@[38]@.contains('.'));
            lemma_suffix_dot(p, base, ext, DEFAULT_IGNORE_EXTENSIONS@[38]@);
        }
        if i == 39 {
            assert(DEFAULT_IGNORE_EXTENSIONS@[39] == "eot");
            reveal_strlit("eot");
            assert(!DEFAULT_IGNORE_EXTENSIONS@[39]@.contains('.'));
            lemma_suffix_dot(p, base, ext, DEFAULT_IGNORE_EXTENSIONS@[39]@);
        }
        if i == 40 {
            assert(DEFAULT_IGNORE_EXTENSIONS@[40] == "otf");
            reveal_strlit("otf");
            assert(!DEFAULT_IGNORE_EXTENSIONS@[40]@.contains('.'));
            lemma_suffix_dot(p, base, ext, DEFAULT_IGNORE_EXTENSIONS@[40]@);
        }
        if i == 41 {
            assert(DEFAULT_IGNORE_EXTENSIONS@[41] == "pdf");
            reveal_strlit("pdf");
            assert(!DEFAULT_IGNORE_EXTENSIONS@[41]@.contains('.'));
            lemma_suffix_dot(p, base, ext, DEFAULT_IGNORE_EXTENSIONS@[41]@);
        }
        if i == 42 {
            assert(DEFAULT_IGNORE_EXTENSIONS@[42] == "doc");
            reveal_strlit("doc");
            assert(!DEFAULT_IGNORE_EXTENSIONS@[42]@.contains('.'));
            lemma_suffix_dot(p, base, ext, DEFAULT_IGNORE_EXTENSIONS@[42]@);
        }
        if i == 43 {
            assert(DEFAULT_IGNORE_EXTENSIONS@[43] == "docx");
            reveal_strlit("docx");
            assert(!DEFAULT_IGNORE_EXTENSIONS@[43]@.contains('.'));
            lemma_suffix_dot(p, base, ext, DEFAULT_IGNORE_EXTENSIONS@[43]@);
        }
        if i == 44 {
            assert(DEFAULT_IGNORE_EXTENSIONS@[44] == "xls");
            reveal_strlit("xls");
            assert(!DEFAULT_IGNORE_EXTENSIONS@[44]@.contains('.'));
            lemma_suffix_dot(p, base, ext, DEFAULT_IGNORE_EXTENSIONS@[44]@);
        }
        if i == 45 {
            assert(DEFAULT_IGNORE_EXTENSIONS@[45] == "xlsx");
            reveal_strlit("xlsx");
            assert(!DEFAULT_IGNORE_EXTENSIONS@[45]@.contains('.'));
            lemma_suffix_dot(p, base, ext, DEFAULT_IGNORE_EXTENSIONS@[45]@);
        }
        if i == 46 {
            assert(DEFAULT_IGNORE_EXTENSIONS@[46] == "ppt");
            reveal_strlit("ppt");
            assert(!DEFAULT_IGNORE_EXTENSIONS@[46]@.contains('.'));
            lemma_suffix_dot(p, base, ext, DEFAULT_IGNORE_EXTENSIONS@[46]@);
        }
        if i == 47 {
            assert(DEFAULT_IGNORE_EXTENSIONS@[47] == "pptx");
            reveal_strlit("pptx");
            assert(!DEFAULT_IGNORE_EXTENSIONS@[47]@.contains('.'));
            lemma_suffix_dot(p, base, ext, DEFAULT_IGNORE_EXTENSIONS@[47]@);
        }
        if i == 48 {
            assert(DEFAULT_IGNORE_EXTENSIONS@[48] == "db");
            reveal_strlit("db");
            assert(!DEFAULT_IGNORE_EXTENSIONS@[48]@.contains('.'));
            lemma_suffix_dot(p, base, ext, DEFAULT_IGNORE_EXTENSIONS@[48]@);
        }
        if i == 49 {
            assert(DEFAULT_IGNORE_EXTENSIONS@[49] == "sqlite");
            reveal_strlit("sqlite");
            assert(!DEFAULT_IGNORE_EXTENSIONS@[49]@.contains('.'));
            lemma_suffix_dot(p, base, ext, DEFAULT_IGNORE_EXTENSIONS@[49]@);
        }
        if i == 50 {
            assert(DEFAULT_IGNORE_EXTENSIONS@[50] == "sqlite3");
            reveal_strlit("sqlite3");
            assert(!DEFAULT_IGNORE_EXTENSIONS@[50]@.contains('.'));
            lemma_suffix_dot(p, base, ext, DEFAULT_IGNORE_EXTENSIONS@[50]@);
        }
        if i == 51 {
            assert(DEFAULT_IGNORE_EXTENSIONS@[51] == "lock");
            reveal_strlit("lock");
            assert(!DEFAULT_IGNORE_EXTENSIONS@[51]@.contains('.'));
            lemma_suffix_dot(p, base, ext, DEFAULT_IGNORE_EXTENSIONS@[51]@);
        }
        if i == 52 {
            assert(DEFAULT_IGNORE_EXTENSIONS@[52] == "map");
            reveal_strlit("map");
            assert(!DEFAULT_IGNORE_EXTENSIONS@[52]@.contains('.'));
            lemma_suffix_dot(p, base, ext, DEFAULT_IGNORE_EXTENSIONS@[52]@);
        }
    }
}

} // verus!
