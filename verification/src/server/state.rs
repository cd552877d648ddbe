//! Per-project caches: file contents read from disk, and parse trees.
use vstd::prelude::*;
use vstd::hash_map::StringHashMap;
use vstd::utf8::encode_utf8;
use tree_sitter::Tree;
use crate::symbols::treesitter::{tree_clone, tree_nodes};

verus! {

broadcast use {vstd::string::group_string_axioms, vstd::hash_map::group_hash_map_axioms};

/// The number of bytes of a text in UTF-8, as `str::len` reports it.
pub open spec fn byte_len(s: Seq<char>) -> usize {
    encode_utf8(s).len() as usize
}

/// The total number of bytes of the texts in the map.
pub open spec fn total_bytes_of(m: Map<Seq<char>, String>) -> nat
    decreases m.dom().len(),
    when m.dom().finite()
{
    if m.dom().len() == 0 {
        0
    } else {
        let k = m.dom().choose();
        byte_len(m[k]@) as nat + total_bytes_of(m.remove(k))
    }
}

/// Taking out any one entry takes out exactly its bytes.
pub proof fn lemma_total_bytes_remove(m: Map<Seq<char>, String>, k: Seq<char>)
    requires
        m.dom().finite(),
        m.contains_key(k),
    ensures
        total_bytes_of(m) == byte_len(m[k]@) + total_bytes_of(m.remove(k)),
    decreases m.dom().len(),
{
    let c = m.dom().choose();
    assert(m.dom().contains(c));
    if c != k {
        let mc = m.remove(c);
        let mk = m.remove(k);
        assert(mc.dom().len() < m.dom().len()) by {
            assert(mc.dom() =~= m.dom().remove(c));
        }
        assert(mk.dom().len() < m.dom().len()) by {
            assert(mk.dom() =~= m.dom().remove(k));
        }
        assert(mc.dom() =~= m.dom().remove(c));
        assert(mk.dom() =~= m.dom().remove(k));
        lemma_total_bytes_remove(mc, k);
        lemma_total_bytes_remove(mk, c);
        assert(mc.remove(k) =~= mk.remove(c));
    }
}

/// Adding an entry under a new key adds exactly its bytes.
pub proof fn lemma_total_bytes_insert(m: Map<Seq<char>, String>, k: Seq<char>, v: String)
    requires
        m.dom().finite(),
        !m.contains_key(k),
    ensures
        total_bytes_of(m.insert(k, v)) == byte_len(v@) + total_bytes_of(m),
{
    lemma_total_bytes_remove(m.insert(k, v), k);
    assert(m.insert(k, v).remove(k) =~= m);
}

/// Simple LRU-ish file content cache to avoid redundant disk I/O.
pub struct FileCache {
    pub cache: StringHashMap<String>,
    pub total_bytes: usize,
    pub max_bytes: usize,
    pub hits: u64,
    pub misses: u64,
}

/// One more on a counter that wraps around.
pub open spec fn bump(n: u64) -> u64 {
    if n == u64::MAX {
        0
    } else {
        (n + 1) as u64
    }
}

impl FileCache {
    /// The byte count is that of the cached texts and stays within the limit.
    pub open spec fn wf(&self) -> bool {
        &&& self.cache@.dom().finite()
        &&& self.total_bytes == total_bytes_of(self.cache@)
        &&& self.total_bytes <= self.max_bytes
    }

    /// An empty cache that holds at most `max_bytes` bytes.
    pub fn new(max_bytes: usize) -> (r: FileCache)
        ensures
            r.wf(),
            r.cache@.dom() == Set::<Seq<char>>::empty(),
            r.max_bytes == max_bytes,
            r.total_bytes == 0,
            r.hits == 0,
            r.misses == 0,
    {
        let r = FileCache { cache: StringHashMap::new(), total_bytes: 0, max_bytes, hits: 0, misses: 0 };
        assert(r.cache@.dom() =~= Set::<Seq<char>>::empty());
        r
    }

    /// The cached content of a file, counted as a hit when it is there.
    pub fn lookup(&mut self, rel_path: &str) -> (r: Option<String>)
        requires
            old(self).wf(),
        ensures
            final(self).wf(),
            final(self).cache@ == old(self).cache@,
            final(self).total_bytes == old(self).total_bytes,
            final(self).max_bytes == old(self).max_bytes,
            final(self).misses == old(self).misses,
            match r {
                Some(c) => {
                    &&& old(self).cache@.get(rel_path@) == Some(c)
                    &&& final(self).hits == bump(old(self).hits)
                },
                None => {
                    &&& !old(self).cache@.contains_key(rel_path@)
                    &&& final(self).hits == old(self).hits
                },
            },
    {
        match self.cache.get(rel_path) {
            Some(content) => {
                let c = content.clone();
                self.hits = self.hits.wrapping_add(1);
                Some(c)
            },
            None => None,
        }
    }

    /// Takes a file just read from disk into the cache, unless it is larger
    /// than the whole cache or already cached. A file that does not fit next
    /// to what is cached empties the cache first. The content is handed back.
    pub fn record_read(&mut self, rel_path: &str, content: String) -> (r: String)
        requires
            old(self).wf(),
        ensures
            final(self).wf(),
            r == content,
            final(self).max_bytes == old(self).max_bytes,
            final(self).hits == old(self).hits,
            ({
                let bytes = byte_len(content@);
                if bytes > old(self).max_bytes || old(self).cache@.contains_key(rel_path@) {
                    &&& final(self).cache@ == old(self).cache@
                    &&& final(self).total_bytes == old(self).total_bytes
                    &&& final(self).misses == old(self).misses
                } else if old(self).total_bytes + bytes > old(self).max_bytes {
                    &&& final(self).cache@ == Map::<Seq<char>, String>::empty().insert(rel_path@, content)
                    &&& final(self).total_bytes == bytes
                    &&& final(self).misses == bump(old(self).misses)
                } else {
                    &&& final(self).cache@ == old(self).cache@.insert(rel_path@, content)
                    &&& final(self).total_bytes == old(self).total_bytes + bytes
                    &&& final(self).misses == bump(old(self).misses)
                }
            }),
    {
        let bytes = content.as_str().len();
        if bytes > self.max_bytes {
            return content;
        }
        if self.cache.contains_key(rel_path) {
            return content;
        }
        self.misses = self.misses.wrapping_add(1);
        if bytes > self.max_bytes - self.total_bytes {
            self.cache.clear();
            self.total_bytes = 0;
            proof {
                assert(self.cache@ =~= Map::<Seq<char>, String>::empty());
                assert(total_bytes_of(self.cache@) == 0);
            }
        }
        let ghost before = self.cache@;
        assert(!before.contains_key(rel_path@));
        assert(before.dom().finite());
        let key = String::from_str(rel_path);
        self.cache.insert(key, content.clone());
        proof {
            lemma_total_bytes_insert(before, rel_path@, content);
            assert(self.cache@ == before.insert(rel_path@, content));
            assert(self.cache@.dom() =~= before.dom().insert(rel_path@));
        }
        assert(bytes == byte_len(content@));
        self.total_bytes = self.total_bytes + bytes;
        assert(self.total_bytes == total_bytes_of(self.cache@));
        content
    }

    /// Drops a file from the cache, and its bytes from the count.
    pub fn invalidate(&mut self, rel_path: &str)
        requires
            old(self).wf(),
        ensures
            final(self).wf(),
            final(self).cache@ == old(self).cache@.remove(rel_path@),
            final(self).total_bytes == if old(self).cache@.contains_key(rel_path@) {
                old(self).total_bytes - byte_len(old(self).cache@[rel_path@]@)
            } else {
                old(self).total_bytes as int
            },
            final(self).max_bytes == old(self).max_bytes,
            final(self).hits == old(self).hits,
            final(self).misses == old(self).misses,
    {
        let removed_len = match self.cache.get(rel_path) {
            Some(removed) => Some(removed.as_str().len()),
            None => None,
        };
        let ghost before = self.cache@;
        self.cache.remove(rel_path);
        match removed_len {
            Some(n) => {
                proof {
                    lemma_total_bytes_remove(before, rel_path@);
                }
                self.total_bytes = self.total_bytes.saturating_sub(n);
            },
            None => {
                assert(self.cache@ =~= before);
            },
        }
    }
}

/// Cache for tree-sitter parse trees to avoid redundant parsing; each tree
/// is kept with the length of the source it was parsed from.
pub struct ParseCache {
    pub trees: StringHashMap<(Tree, usize)>,
    pub max_entries: usize,
}

impl ParseCache {
    /// The cache keeps at most `max_entries` trees (at least one once used).
    pub open spec fn wf(&self) -> bool {
        &&& self.trees@.dom().finite()
        &&& self.trees@.len() <= if self.max_entries == 0 {
            1
        } else {
            self.max_entries as nat
        }
    }

    /// An empty cache that keeps at most `max_entries` trees.
    pub fn new(max_entries: usize) -> (r: ParseCache)
        ensures
            r.wf(),
            r.trees@.dom() == Set::<Seq<char>>::empty(),
            r.max_entries == max_entries,
    {
        let r = ParseCache { trees: StringHashMap::new(), max_entries };
        assert(r.trees@.dom() =~= Set::<Seq<char>>::empty());
        r
    }

    /// Keeps a tree for a file; a full cache is emptied first.
    pub fn insert(&mut self, rel_path: String, tree: Tree, len: usize)
        requires
            old(self).wf(),
        ensures
            final(self).wf(),
            final(self).max_entries == old(self).max_entries,
            final(self).trees@ == if old(self).trees@.len() >= old(self).max_entries {
                Map::<Seq<char>, (Tree, usize)>::empty().insert(rel_path@, (tree, len))
            } else {
                old(self).trees@.insert(rel_path@, (tree, len))
            },
    {
        if self.trees.len() >= self.max_entries {
            self.trees.clear();
            assert(self.trees@ =~= Map::<Seq<char>, (Tree, usize)>::empty());
        }
        let ghost before = self.trees@;
        let ghost k = rel_path@;
        self.trees.insert(rel_path, (tree, len));
        proof {
            if before.contains_key(k) {
                assert(self.trees@.dom() =~= before.dom());
            } else {
                assert(self.trees@.dom() =~= before.dom().insert(k));
            }
        }
    }

    /// Drops the tree kept for a file.
    pub fn invalidate(&mut self, rel_path: &str)
        requires
            old(self).wf(),
        ensures
            final(self).wf(),
            final(self).max_entries == old(self).max_entries,
            final(self).trees@ == old(self).trees@.remove(rel_path@),
    {
        let ghost before = self.trees@;
        self.trees.remove(rel_path);
        proof {
            if before.contains_key(rel_path@) {
                assert(self.trees@.dom() =~= before.dom().remove(rel_path@));
            } else {
                assert(self.trees@.dom() =~= before.dom());
            }
        }
    }

    /// A copy of the tree kept for a file, when it was parsed from a source
    /// of this length.
    pub fn lookup(&self, rel_path: &str, len: usize) -> (r: Option<Tree>)
        ensures
            r is Some <==> (self.trees@.contains_key(rel_path@) && self.trees@[rel_path@].1 == len),
            r matches Some(t) ==> tree_nodes(t) == tree_nodes(self.trees@[rel_path@].0),
    {
        match self.trees.get(rel_path) {
            Some(entry) => {
                if entry.1 == len {
                    Some(tree_clone(&entry.0))
                } else {
                    None
                }
            },
            None => None,
        }
    }
}

/// A file read from disk that fits in the cache and was not cached yet is
/// what a lookup of it gives back afterwards.
pub proof fn law_lookup_after_record(before: FileCache, after: FileCache, path: Seq<char>, content: String)
    requires
        before.wf(),
        byte_len(content@) <= before.max_bytes,
        !before.cache@.contains_key(path),
        after.cache@ == if before.total_bytes + byte_len(content@) > before.max_bytes {
            Map::<Seq<char>, String>::empty().insert(path, content)
        } else {
            before.cache@.insert(path, content)
        },
    ensures
        after.cache@.get(path) == Some(content),
{
}

/// The byte count of a well-formed cache is the sum of the sizes of the
/// cached files and never exceeds the limit.
pub proof fn law_cache_bytes_bounded(c: FileCache)
    requires
        c.wf(),
    ensures
        total_bytes_of(c.cache@) == c.total_bytes,
        total_bytes_of(c.cache@) <= c.max_bytes,
{
}

/// The tree just kept for a file is the one the cache holds for it, with
/// the length it was given.
pub proof fn law_parse_cache_keeps_latest(before: ParseCache, after: ParseCache, k: Seq<char>, tree: Tree, len: usize)
    requires
        before.wf(),
        after.trees@ == if before.trees@.len() >= before.max_entries {
            Map::<Seq<char>, (Tree, usize)>::empty().insert(k, (tree, len))
        } else {
            before.trees@.insert(k, (tree, len))
        },
    ensures
        after.trees@.get(k) == Some((tree, len)),
{
}

} // verus!
