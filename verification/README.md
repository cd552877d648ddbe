# coderlm_server

The core of a tree-sitter backed code index server, written in Verus.

- `src/config.rs`: which directories and file extensions the indexer skips.
- `src/index/file_entry.rs`: languages, file marks and file entries.
- `src/symbols/`: symbols, the symbol table (a `dashmap` store with indices
  by name and by file and an inverted index of identifiers), fuzzy search,
  and symbol extraction from tree-sitter query matches.
- `src/server/state.rs`: the file content cache and the parse tree cache.
- `src/text.rs`: string helpers stated over characters.
- `app/`: reading files from disk, parallel extraction over a project,
  serializable copies of the data types, and cache statistics.
- `src/server/registry.rs`: the indexed projects, least recently active
  first out, and the sessions working on them.

## Grammars

This build carries one tree-sitter grammar, Vue (`tree-sitter-vue-updated`),
with its symbol, callers and variables queries. The grammars and queries of
Rust, Python, TypeScript, JavaScript, Go, Java and Scala are not part of it:
`get_language_config` gives no configuration for those languages, so symbol
extraction yields no symbols and no references for their files, and for the
script of a Vue component, which is read as TypeScript.
