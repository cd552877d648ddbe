//! The symbol table: every symbol of a project under a key made of its file
//! and its name, with indices by name and by file, and an inverted index from
//! identifiers to the files that mention them.
pub mod fuzzy;
pub mod parser;
pub mod queries;
pub mod store;
pub mod treesitter;
pub mod symbol;

use vstd::prelude::*;
use std::collections::HashSet;
use dashmap::DashMap;
use crate::symbols::store::{
    index_entries, index_get_items, index_insert, index_new, index_remove, set_insert, set_is_empty,
    set_items, set_new, set_remove, string_set, symbol_entries, symbols_get, symbols_insert,
    symbols_items, symbols_len, symbols_new, symbols_remove,
};
use crate::symbols::symbol::Symbol;
use crate::symbols::fuzzy::{clangd_match, clangd_score, sort_by_score_desc};

verus! {

broadcast use vstd::string::group_string_axioms;

/// The key a symbol is stored under: its file, `::`, its name.
pub open spec fn key_of(file: Seq<char>, name: Seq<char>) -> Seq<char> {
    file + "::"@ + name
}

/// The key of a symbol.
pub open spec fn symbol_key(s: Symbol) -> Seq<char> {
    key_of(s.file@, s.name@)
}

/// The set held at `k` in an index, or the empty set where there is none.
pub open spec fn members(m: Map<Seq<char>, Set<Seq<char>>>, k: Seq<char>) -> Set<Seq<char>> {
    if m.contains_key(k) {
        m[k]
    } else {
        Set::empty()
    }
}

/// `m` with `x` added to the set at `k`.
pub open spec fn index_add(m: Map<Seq<char>, Set<Seq<char>>>, k: Seq<char>, x: Seq<char>) -> Map<
    Seq<char>,
    Set<Seq<char>>,
> {
    m.insert(k, members(m, k).insert(x))
}

/// No set in the index is empty.
pub open spec fn no_empty_sets(m: Map<Seq<char>, Set<Seq<char>>>) -> bool {
    forall|k: Seq<char>| #[trigger] m.contains_key(k) ==> m[k] != Set::<Seq<char>>::empty()
}

/// Keys among `done` whose symbol, in `entries`, has the name `n`.
pub open spec fn removed_with_name(
    entries: Map<Seq<char>, Symbol>,
    done: Set<Seq<char>>,
    n: Seq<char>,
) -> Set<Seq<char>> {
    Set::new(|k: Seq<char>| done.contains(k) && entries.contains_key(k) && entries[k].name@ == n)
}

/// The name index once the keys in `done` are struck from the sets of their
/// symbols' names, sets left empty dropped.
pub open spec fn names_without(
    names: Map<Seq<char>, Set<Seq<char>>>,
    entries: Map<Seq<char>, Symbol>,
    done: Set<Seq<char>>,
) -> Map<Seq<char>, Set<Seq<char>>> {
    Map::new(
        |n: Seq<char>|
            names.contains_key(n) && names[n].difference(removed_with_name(entries, done, n))
                != Set::<Seq<char>>::empty(),
        |n: Seq<char>| names[n].difference(removed_with_name(entries, done, n)),
    )
}

/// The index with `x` struck from the sets at the keys in `done`, sets left
/// empty dropped.
pub open spec fn strike_in(
    m: Map<Seq<char>, Set<Seq<char>>>,
    done: Set<Seq<char>>,
    x: Seq<char>,
) -> Map<Seq<char>, Set<Seq<char>>> {
    Map::new(
        |k: Seq<char>|
            m.contains_key(k) && (done.contains(k) ==> m[k].remove(x) != Set::<Seq<char>>::empty()),
        |k: Seq<char>|
            if done.contains(k) {
                m[k].remove(x)
            } else {
                m[k]
            },
    )
}

/// The index with `x` struck from every set, sets left empty dropped.
pub open spec fn strike(m: Map<Seq<char>, Set<Seq<char>>>, x: Seq<char>) -> Map<
    Seq<char>,
    Set<Seq<char>>,
> {
    Map::new(
        |k: Seq<char>| m.contains_key(k) && m[k].remove(x) != Set::<Seq<char>>::empty(),
        |k: Seq<char>| m[k].remove(x),
    )
}

/// The symbol stored under `k` sits under its own key and is listed under
/// its name and its file.
pub open spec fn indexed_in(
    entries: Map<Seq<char>, Symbol>,
    names: Map<Seq<char>, Set<Seq<char>>>,
    files: Map<Seq<char>, Set<Seq<char>>>,
    k: Seq<char>,
) -> bool {
    let s = entries[k];
    &&& k == symbol_key(s)
    &&& members(names, s.name@).contains(k)
    &&& members(files, s.file@).contains(k)
}

/// The name of `s` matches the query.
pub open spec fn matches_query(s: Symbol, query: Seq<char>) -> bool {
    clangd_score(s.name@, query) is Some
}

/// The score of the name of `s` against the query.
pub open spec fn score_of(s: Symbol, query: Seq<char>) -> i64 {
    clangd_score(s.name@, query).unwrap()
}

/// The store once the symbols are stored one after another, a later symbol
/// replacing an earlier one under the same key.
pub open spec fn entries_with(m: Map<Seq<char>, Symbol>, syms: Seq<Symbol>) -> Map<Seq<char>, Symbol>
    decreases syms.len(),
{
    if syms.len() == 0 {
        m
    } else {
        entries_with(m, syms.drop_last()).insert(symbol_key(syms.last()), syms.last())
    }
}

/// An index once each symbol's key is listed under its name (`by_name`) or
/// under its file.
pub open spec fn index_with(m: Map<Seq<char>, Set<Seq<char>>>, syms: Seq<Symbol>, by_name: bool) -> Map<
    Seq<char>,
    Set<Seq<char>>,
>
    decreases syms.len(),
{
    if syms.len() == 0 {
        m
    } else {
        let s = syms.last();
        index_add(
            index_with(m, syms.drop_last(), by_name),
            if by_name {
                s.name@
            } else {
                s.file@
            },
            symbol_key(s),
        )
    }
}

/// The identifier index once file `f` is recorded for every identifier in `ids`.
pub open spec fn refs_with(m: Map<Seq<char>, Set<Seq<char>>>, ids: Set<Seq<char>>, f: Seq<char>) -> Map<
    Seq<char>,
    Set<Seq<char>>,
> {
    Map::new(
        |k: Seq<char>| m.contains_key(k) || ids.contains(k),
        |k: Seq<char>|
            if ids.contains(k) {
                members(m, k).insert(f)
            } else {
                m[k]
            },
    )
}

/// The index from files to identifiers once the identifiers in `ids` are
/// recorded for file `f`.
pub open spec fn ids_with(m: Map<Seq<char>, Set<Seq<char>>>, f: Seq<char>, ids: Set<Seq<char>>) -> Map<
    Seq<char>,
    Set<Seq<char>>,
> {
    if ids == Set::<Seq<char>>::empty() {
        m
    } else {
        m.insert(f, members(m, f).union(ids))
    }
}

/// Thread-safe symbol table with secondary indices for fast lookup.
pub struct SymbolTable {
    /// Primary store: keyed by "file::name"
    pub symbols: DashMap<String, Symbol>,
    /// Secondary index: symbol name -> set of primary keys
    pub by_name: DashMap<String, HashSet<String>>,
    /// Secondary index: file path -> set of primary keys
    pub by_file: DashMap<String, HashSet<String>>,
    /// Inverted index: identifier name -> set of file paths containing it.
    pub id_refs: DashMap<String, HashSet<String>>,
    /// Reverse mapping: file path -> set of identifiers in that file.
    pub file_to_ids: DashMap<String, HashSet<String>>,
}

impl SymbolTable {
    /// The symbols, by key.
    pub open spec fn entries(&self) -> Map<Seq<char>, Symbol> {
        symbol_entries(self.symbols)
    }

    /// The index from names to keys.
    pub open spec fn names(&self) -> Map<Seq<char>, Set<Seq<char>>> {
        index_entries(self.by_name)
    }

    /// The index from files to keys.
    pub open spec fn files(&self) -> Map<Seq<char>, Set<Seq<char>>> {
        index_entries(self.by_file)
    }

    /// The index from identifiers to the files that mention them.
    pub open spec fn refs(&self) -> Map<Seq<char>, Set<Seq<char>>> {
        index_entries(self.id_refs)
    }

    /// The index from files to the identifiers they mention.
    pub open spec fn file_ids(&self) -> Map<Seq<char>, Set<Seq<char>>> {
        index_entries(self.file_to_ids)
    }

    /// The symbol is in the table, under its own key.
    pub open spec fn holds(&self, s: Symbol) -> bool {
        self.entries().get(symbol_key(s)) == Some(s)
    }

    /// The symbol stored under `k` is listed under its name and under its file.
    pub open spec fn indexed(&self, k: Seq<char>) -> bool {
        let s = self.entries()[k];
        &&& k == symbol_key(s)
        &&& members(self.names(), s.name@).contains(k)
        &&& members(self.files(), s.file@).contains(k)
    }

    /// Well-formedness: every stored symbol sits under its own key and is
    /// listed in both indices; the two identifier indices mirror each other;
    /// no index keeps an empty set.
    pub open spec fn wf(&self) -> bool {
        &&& self.entries().dom().finite()
        &&& forall|k: Seq<char>| #[trigger] self.entries().contains_key(k) ==> self.indexed(k)
        &&& forall|id: Seq<char>, f: Seq<char>|
            #[trigger] members(self.refs(), id).contains(f) <==> #[trigger] members(
                self.file_ids(),
                f,
            ).contains(id)
        &&& no_empty_sets(self.names())
        &&& no_empty_sets(self.files())
        &&& no_empty_sets(self.refs())
        &&& no_empty_sets(self.file_ids())
    }

    /// An empty table.
    pub fn new() -> (r: SymbolTable)
        ensures
            r.wf(),
            r.entries().dom() == Set::<Seq<char>>::empty(),
            r.names().dom() == Set::<Seq<char>>::empty(),
            r.files().dom() == Set::<Seq<char>>::empty(),
            r.refs().dom() == Set::<Seq<char>>::empty(),
            r.file_ids().dom() == Set::<Seq<char>>::empty(),
    {
        let r = SymbolTable {
            symbols: symbols_new(),
            by_name: index_new(),
            by_file: index_new(),
            id_refs: index_new(),
            file_to_ids: index_new(),
        };
        assert(r.entries() =~= Map::empty());
        r
    }

    /// The key a symbol of this file and name is stored under.
    pub fn make_key(file: &str, name: &str) -> (r: String)
        ensures
            r@ == key_of(file@, name@),
    {
        let mut k = String::from_str(file);
        k.append("::");
        k.append(name);
        k
    }

    /// Takes the set at `k` out of an index, or a new empty one.
    fn take_set(m: &mut DashMap<String, HashSet<String>>, k: &str) -> (r: HashSet<String>)
        ensures
            index_entries(*final(m)) == index_entries(*old(m)).remove(k@),
            string_set(r) == members(index_entries(*old(m)), k@),
    {
        match index_remove(m, k) {
            Some(s) => s,
            None => set_new(),
        }
    }

    /// Adds `x` to the set at `k` of an index, creating the set if needed.
    fn index_add_to(m: &mut DashMap<String, HashSet<String>>, k: String, x: String)
        ensures
            index_entries(*final(m)) == index_add(index_entries(*old(m)), k@, x@),
    {
        let mut set = Self::take_set(m, k.as_str());
        set_insert(&mut set, x);
        index_insert(m, k, set);
        assert(index_entries(*final(m)) =~= index_add(index_entries(*old(m)), k@, x@));
    }

    /// Stores a symbol under its key, replacing what was there, and lists it
    /// under its name and its file.
    pub fn insert(&mut self, symbol: Symbol)
        requires
            old(self).wf(),
        ensures
            final(self).wf(),
            final(self).entries() == old(self).entries().insert(symbol_key(symbol), symbol),
            final(self).names() == index_add(old(self).names(), symbol.name@, symbol_key(symbol)),
            final(self).files() == index_add(old(self).files(), symbol.file@, symbol_key(symbol)),
            final(self).refs() == old(self).refs(),
            final(self).file_ids() == old(self).file_ids(),
    {
        let key = Self::make_key(symbol.file.as_str(), symbol.name.as_str());
        Self::index_add_to(&mut self.by_name, symbol.name.clone(), key.clone());
        Self::index_add_to(&mut self.by_file, symbol.file.clone(), key.clone());
        let ghost sym = symbol;
        symbols_insert(&mut self.symbols, key, symbol);
        proof {
            let k = symbol_key(sym);
            assert forall|j: Seq<char>| #[trigger] self.entries().contains_key(j) implies self.indexed(j) by {
                if j != k {
                    assert(old(self).indexed(j));
                }
            }
            assert forall|n: Seq<char>| #[trigger] self.names().contains_key(n) implies self.names()[n] != Set::<Seq<char>>::empty() by {
                if n == sym.name@ {
                    assert(self.names()[n].contains(k));
                } else {
                    assert(old(self).names().contains_key(n));
                }
            }
            assert forall|n: Seq<char>| #[trigger] self.files().contains_key(n) implies self.files()[n] != Set::<Seq<char>>::empty() by {
                if n == sym.file@ {
                    assert(self.files()[n].contains(k));
                } else {
                    assert(old(self).files().contains_key(n));
                }
            }
        }
    }

    /// Records that `file` mentions the identifier `id`, in both directions.
    pub fn insert_id_ref(&mut self, id: String, file: String)
        requires
            old(self).wf(),
        ensures
            final(self).wf(),
            final(self).refs() == index_add(old(self).refs(), id@, file@),
            final(self).file_ids() == index_add(old(self).file_ids(), file@, id@),
            final(self).entries() == old(self).entries(),
            final(self).names() == old(self).names(),
            final(self).files() == old(self).files(),
    {
        let ghost i = id@;
        let ghost f = file@;
        Self::index_add_to(&mut self.id_refs, id.clone(), file.clone());
        Self::index_add_to(&mut self.file_to_ids, file, id);
        proof {
            assert forall|a: Seq<char>, b: Seq<char>|
                #[trigger] members(self.refs(), a).contains(b) <==> #[trigger] members(
                    self.file_ids(),
                    b,
                ).contains(a) by {
                assert(members(old(self).refs(), a).contains(b) <==> members(
                    old(self).file_ids(),
                    b,
                ).contains(a));
            }
            assert forall|n: Seq<char>| #[trigger] self.refs().contains_key(n) implies self.refs()[n] != Set::<Seq<char>>::empty() by {
                if n == i {
                    assert(self.refs()[n].contains(f));
                } else {
                    assert(old(self).refs().contains_key(n));
                }
            }
            assert forall|n: Seq<char>| #[trigger] self.file_ids().contains_key(n) implies self.file_ids()[n] != Set::<Seq<char>>::empty() by {
                if n == f {
                    assert(self.file_ids()[n].contains(i));
                } else {
                    assert(old(self).file_ids().contains_key(n));
                }
            }
        }
    }

    /// Stores the symbols extracted from one file, one after another, and
    /// records that the file mentions each of the identifiers; gives the
    /// number of symbols.
    pub fn store_file(&mut self, file: &str, symbols: &Vec<Symbol>, refs: &HashSet<String>) -> (r: usize)
        requires
            old(self).wf(),
        ensures
            final(self).wf(),
            r == symbols@.len(),
            final(self).entries() == entries_with(old(self).entries(), symbols@),
            final(self).names() == index_with(old(self).names(), symbols@, true),
            final(self).files() == index_with(old(self).files(), symbols@, false),
            final(self).refs() == refs_with(old(self).refs(), string_set(*refs), file@),
            final(self).file_ids() == ids_with(old(self).file_ids(), file@, string_set(*refs)),
    {
        let mut i: usize = 0;
        while i < symbols.len()
            invariant
                self.wf(),
                i <= symbols@.len(),
                self.entries() == entries_with(old(self).entries(), symbols@.take(i as int)),
                self.names() == index_with(old(self).names(), symbols@.take(i as int), true),
                self.files() == index_with(old(self).files(), symbols@.take(i as int), false),
                self.refs() == old(self).refs(),
                self.file_ids() == old(self).file_ids(),
            decreases symbols@.len() - i,
        {
            proof {
                assert(symbols@.take(i + 1).drop_last() =~= symbols@.take(i as int));
                assert(symbols@.take(i + 1).last() == symbols@[i as int]);
            }
            self.insert(symbols[i].clone());
            i = i + 1;
        }
        proof {
            assert(symbols@.take(symbols@.len() as int) =~= symbols@);
        }
        let ids = set_items(refs);
        let ghost rs = self.refs();
        let ghost fs = self.file_ids();
        let ghost mut done: Set<Seq<char>> = Set::empty();
        proof {
            assert(refs_with(rs, done, file@) =~= rs);
        }
        let mut j: usize = 0;
        while j < ids.len()
            invariant
                self.wf(),
                j <= ids@.len(),
                rs == old(self).refs(),
                fs == old(self).file_ids(),
                self.entries() == entries_with(old(self).entries(), symbols@),
                self.names() == index_with(old(self).names(), symbols@, true),
                self.files() == index_with(old(self).files(), symbols@, false),
                self.refs() == refs_with(rs, done, file@),
                self.file_ids() == ids_with(fs, file@, done),
                forall|x: Seq<char>| done.contains(x) <==> exists|a: int| 0 <= a < j && #[trigger] ids@[a]@ == x,
            decreases ids@.len() - j,
        {
            let ghost x = ids@[j as int]@;
            let ghost before_ids = self.file_ids();
            self.insert_id_ref(ids[j].clone(), String::from_str(file));
            proof {
                let next = done.insert(x);
                assert(self.refs() =~= refs_with(rs, next, file@)) by {
                    assert forall|k: Seq<char>| #[trigger] self.refs().contains_key(k) implies self.refs()[k]
                        =~= refs_with(rs, next, file@)[k] by {}
                }
                assert(self.file_ids() =~= ids_with(fs, file@, next)) by {
                    assert(members(self.file_ids(), file@) =~= members(fs, file@).union(next));
                }
                assert forall|y: Seq<char>| next.contains(y) <==> exists|a: int| 0 <= a < j + 1 && #[trigger] ids@[a]@ == y by {
                    if y == x {
                        assert(ids@[j as int]@ == y);
                    }
                }
                done = next;
            }
            j = j + 1;
        }
        proof {
            assert(done =~= string_set(*refs)) by {
                assert forall|y: Seq<char>| #[trigger] string_set(*refs).contains(y) implies done.contains(y) by {
                    let a = choose|a: int| 0 <= a < ids@.len() && ids@[a]@ == y;
                }
                assert forall|y: Seq<char>| #[trigger] done.contains(y) implies string_set(*refs).contains(y) by {
                    let a = choose|a: int| 0 <= a < j && #[trigger] ids@[a]@ == y;
                }
            }
        }
        symbols.len()
    }

    /// Forgets a file: every key listed under it leaves the store and the
    /// name index, and the file leaves both identifier indices.
    pub fn remove_file(&mut self, file: &str)
        requires
            old(self).wf(),
        ensures
            final(self).wf(),
            final(self).entries() == old(self).entries().remove_keys(
                members(old(self).files(), file@),
            ),
            final(self).names() == names_without(
                old(self).names(),
                old(self).entries(),
                members(old(self).files(), file@),
            ),
            final(self).files() == old(self).files().remove(file@),
            final(self).refs() == strike(old(self).refs(), file@),
            final(self).file_ids() == old(self).file_ids().remove(file@),
    {
        let ghost old_entries = self.entries();
        let ghost old_names = self.names();
        let ghost old_files = self.files();
        let ghost old_refs = self.refs();
        let ghost old_ids = self.file_ids();
        let ghost f = file@;
        let ghost gone = members(old_files, f);
        let ghost mut done: Set<Seq<char>> = Set::empty();
        proof {
            assert(old_entries.remove_keys(done) =~= old_entries);
            assert(names_without(old_names, old_entries, done) =~= old_names) by {
                assert forall|n: Seq<char>| #[trigger] old_names.contains_key(n) implies old_names[n].difference(
                    removed_with_name(old_entries, done, n),
                ) =~= old_names[n] by {}
            }
        }
        let keys: Vec<String> = match index_remove(&mut self.by_file, file) {
            Some(set) => set_items(&set),
            None => Vec::new(),
        };
        let mut i: usize = 0;
        while i < keys.len()
            invariant
                self.was_well_formed(old_entries, old_names, old_files, old_refs, old_ids, f),
                f == file@,
                gone == members(old_files, f),
                self.entries() == old_entries.remove_keys(done),
                self.names() == names_without(old_names, old_entries, done),
                self.refs() == old_refs,
                self.file_ids() == old_ids,
                self.files() == old_files.remove(f),
                i <= keys@.len(),
                forall|x: Seq<char>| done.contains(x) <==> exists|j: int| 0 <= j < i && #[trigger] keys@[j]@ == x,
                forall|a: int, b: int| 0 <= a < b < keys@.len() ==> keys@[a]@ != keys@[b]@,
                forall|j: int| 0 <= j < keys@.len() ==> #[trigger] gone.contains(keys@[j]@),
                forall|x: Seq<char>| #[trigger] gone.contains(x) ==> exists|j: int| 0 <= j < keys@.len() && keys@[j]@ == x,
            decreases keys@.len() - i,
        {
            let key = &keys[i];
            let ghost k = key@;
            let ghost pre_names = self.names();
            assert(!done.contains(k)) by {
                if done.contains(k) {
                    let j = choose|j: int| 0 <= j < i && #[trigger] keys@[j]@ == k;
                    assert(keys@[j]@ != keys@[i as int]@);
                }
            }
            let ghost next = done.insert(k);
            match symbols_remove(&mut self.symbols, key.as_str()) {
                Some(sym) => {
                    let ghost n = sym.name@;
                    assert(old_entries.contains_key(k) && old_entries[k] == sym);
                    assert(old_entries.remove_keys(done).remove(k) =~= old_entries.remove_keys(next));
                    assert(old_entries.contains_key(k) ==> indexed_in(old_entries, old_names, old_files, k));
                    assert(pre_names[n].contains(k) && pre_names.contains_key(n)) by {
                        assert(old_names[n].contains(k));
                        assert(!removed_with_name(old_entries, done, n).contains(k));
                        assert(old_names[n].difference(removed_with_name(old_entries, done, n)).contains(k));
                    }
                    match index_remove(&mut self.by_name, sym.name.as_str()) {
                        Some(mut set) => {
                            set_remove(&mut set, key.as_str());
                            if !set_is_empty(&set) {
                                index_insert(&mut self.by_name, sym.name.clone(), set);
                            }
                            proof {
                                assert forall|m: Seq<char>| m != n implies #[trigger] removed_with_name(old_entries, next, m)
                                    =~= removed_with_name(old_entries, done, m) by {}
                                assert(removed_with_name(old_entries, next, n) =~= removed_with_name(old_entries, done, n).insert(k));
                                assert(old_names[n].difference(removed_with_name(old_entries, next, n)) =~= pre_names[n].remove(k));
                                assert(self.names() =~= names_without(old_names, old_entries, next));
                            }
                        },
                        None => {
                            assert(false);
                        },
                    }
                },
                None => {
                    assert(!old_entries.contains_key(k));
                    assert(old_entries.remove_keys(done) =~= old_entries.remove_keys(next));
                    assert forall|m: Seq<char>| #[trigger] removed_with_name(old_entries, next, m)
                        =~= removed_with_name(old_entries, done, m) by {}
                    assert(names_without(old_names, old_entries, next) =~= names_without(old_names, old_entries, done));
                },
            }
            proof {
                done = next;
            }
            i = i + 1;
        }
        proof {
            assert(done =~= gone) by {
                assert forall|x: Seq<char>| gone.contains(x) implies done.contains(x) by {
                    let j = choose|j: int| 0 <= j < keys@.len() && keys@[j]@ == x;
                    assert(keys@[j]@ == x);
                }
            }
        }
        let ghost mut done_ids: Set<Seq<char>> = Set::empty();
        let ghost gone_ids = members(old_ids, f);
        proof {
            assert(strike_in(old_refs, done_ids, f) =~= old_refs);
        }
        let ids: Vec<String> = match index_remove(&mut self.file_to_ids, file) {
            Some(set) => set_items(&set),
            None => Vec::new(),
        };
        let mut i: usize = 0;
        while i < ids.len()
            invariant
                self.was_well_formed(old_entries, old_names, old_files, old_refs, old_ids, f),
                f == file@,
                gone == members(old_files, f),
                self.entries() == old_entries.remove_keys(gone),
                self.names() == names_without(old_names, old_entries, gone),
                self.files() == old_files.remove(f),
                self.file_ids() == old_ids.remove(f),
                self.refs() == strike_in(old_refs, done_ids, f),
                gone_ids == members(old_ids, f),
                i <= ids@.len(),
                forall|x: Seq<char>| done_ids.contains(x) <==> exists|j: int| 0 <= j < i && #[trigger] ids@[j]@ == x,
                forall|a: int, b: int| 0 <= a < b < ids@.len() ==> ids@[a]@ != ids@[b]@,
                forall|j: int| 0 <= j < ids@.len() ==> #[trigger] gone_ids.contains(ids@[j]@),
                forall|x: Seq<char>| #[trigger] gone_ids.contains(x) ==> exists|j: int| 0 <= j < ids@.len() && ids@[j]@ == x,
            decreases ids@.len() - i,
        {
            let id = &ids[i];
            let ghost d = id@;
            assert(!done_ids.contains(d)) by {
                if done_ids.contains(d) {
                    let j = choose|j: int| 0 <= j < i && #[trigger] ids@[j]@ == d;
                    assert(ids@[j]@ != ids@[i as int]@);
                }
            }
            let ghost next = done_ids.insert(d);
            match index_remove(&mut self.id_refs, id.as_str()) {
                Some(found) => {
                    let mut set = found;
                    assert(old_refs.contains_key(d));
                    assert(string_set(set) == old_refs[d]);
                    set_remove(&mut set, file);
                    assert(string_set(set) == old_refs[d].remove(f));
                    if !set_is_empty(&set) {
                        index_insert(&mut self.id_refs, id.clone(), set);
                    }
                    assert forall|x: Seq<char>| #[trigger] self.refs().contains_key(x) == strike_in(old_refs, next, f).contains_key(x) by {}
                    assert forall|x: Seq<char>| #[trigger] self.refs().contains_key(x) implies self.refs()[x] == strike_in(old_refs, next, f)[x] by {}
                    assert(self.refs() =~= strike_in(old_refs, next, f));
                },
                None => {
                    assert(!old_refs.contains_key(d));
                    assert(strike_in(old_refs, next, f) =~= strike_in(old_refs, done_ids, f));
                },
            }
            proof {
                done_ids = next;
            }
            i = i + 1;
        }
        proof {
            assert(done_ids =~= gone_ids) by {
                assert forall|x: Seq<char>| gone_ids.contains(x) implies done_ids.contains(x) by {
                    let j = choose|j: int| 0 <= j < ids@.len() && ids@[j]@ == x;
                    assert(ids@[j]@ == x);
                }
            }
            assert(self.refs() =~= strike(old_refs, f)) by {
                assert forall|id: Seq<char>| #[trigger] old_refs.contains_key(id) && !gone_ids.contains(id) implies old_refs[id].remove(f) =~= old_refs[id] by {
                    assert(members(old_refs, id).contains(f) <==> members(old_ids, f).contains(id));
                }
            }
            self.lemma_removed_wf(old_entries, old_names, old_files, old_refs, old_ids, f);
        }
    }

    /// The frame of `remove_file`: the state it started from was well formed.
    pub open spec fn was_well_formed(
        &self,
        old_entries: Map<Seq<char>, Symbol>,
        old_names: Map<Seq<char>, Set<Seq<char>>>,
        old_files: Map<Seq<char>, Set<Seq<char>>>,
        old_refs: Map<Seq<char>, Set<Seq<char>>>,
        old_ids: Map<Seq<char>, Set<Seq<char>>>,
        f: Seq<char>,
    ) -> bool {
        &&& old_entries.dom().finite()
        &&& forall|k: Seq<char>| #[trigger] old_entries.contains_key(k) ==> indexed_in(old_entries, old_names, old_files, k)
        &&& forall|id: Seq<char>, x: Seq<char>|
            #[trigger] members(old_refs, id).contains(x) <==> #[trigger] members(old_ids, x).contains(id)
        &&& no_empty_sets(old_names)
        &&& no_empty_sets(old_files)
        &&& no_empty_sets(old_refs)
        &&& no_empty_sets(old_ids)
    }

    proof fn lemma_removed_wf(
        &self,
        old_entries: Map<Seq<char>, Symbol>,
        old_names: Map<Seq<char>, Set<Seq<char>>>,
        old_files: Map<Seq<char>, Set<Seq<char>>>,
        old_refs: Map<Seq<char>, Set<Seq<char>>>,
        old_ids: Map<Seq<char>, Set<Seq<char>>>,
        f: Seq<char>,
    )
        requires
            self.was_well_formed(old_entries, old_names, old_files, old_refs, old_ids, f),
            self.entries() == old_entries.remove_keys(members(old_files, f)),
            self.names() == names_without(old_names, old_entries, members(old_files, f)),
            self.files() == old_files.remove(f),
            self.file_ids() == old_ids.remove(f),
            self.refs() == strike(old_refs, f),
        ensures
            self.wf(),
    {
        let gone = members(old_files, f);
        assert forall|k: Seq<char>| #[trigger] self.entries().contains_key(k) implies self.indexed(k) by {
            assert(indexed_in(old_entries, old_names, old_files, k));
            let s = old_entries[k];
            assert(!gone.contains(k));
            assert(!removed_with_name(old_entries, gone, s.name@).contains(k));
            assert(old_names[s.name@].difference(removed_with_name(old_entries, gone, s.name@)).contains(k));
            assert(s.file@ != f);
        }
        assert forall|id: Seq<char>, x: Seq<char>|
            #[trigger] members(self.refs(), id).contains(x) <==> #[trigger] members(
                self.file_ids(),
                x,
            ).contains(id) by {
            assert(members(old_refs, id).contains(x) <==> members(old_ids, x).contains(id));
            if x != f && members(old_refs, id).contains(x) {
                assert(old_refs[id].remove(f).contains(x));
            }
        }
        assert forall|n: Seq<char>| #[trigger] self.files().contains_key(n) implies self.files()[n] != Set::<Seq<char>>::empty() by {
            assert(old_files.contains_key(n));
        }
        assert forall|n: Seq<char>| #[trigger] self.file_ids().contains_key(n) implies self.file_ids()[n] != Set::<Seq<char>>::empty() by {
            assert(old_ids.contains_key(n));
        }
        assert(self.entries().dom() =~= old_entries.dom().difference(gone));
        assert(self.entries().dom().finite());
        assert(no_empty_sets(self.names()));
        assert(no_empty_sets(self.refs()));
    }

    /// The symbol of this file and name, if the table has one under that key.
    pub fn get(&self, file: &str, name: &str) -> (r: Option<Symbol>)
        ensures
            r == self.entries().get(key_of(file@, name@)),
    {
        let key = Self::make_key(file, name);
        symbols_get(&self.symbols, key.as_str())
    }

    /// The symbol is stored under a key listed for `file`.
    pub open spec fn listed_under(&self, file: Seq<char>, s: Symbol) -> bool {
        members(self.files(), file).contains(symbol_key(s)) && self.holds(s)
    }

    /// The symbols stored under the keys listed for a file, each once, in the
    /// order the file's key set is walked.
    pub fn list_by_file(&self, file: &str) -> (r: Vec<Symbol>)
        requires
            self.wf(),
        ensures
            r@.no_duplicates(),
            forall|s: Symbol| r@.contains(s) <==> self.listed_under(file@, s),
    {
        let mut r: Vec<Symbol> = Vec::new();
        match index_get_items(&self.by_file, file) {
            Some(keys) => {
                let ghost set = self.files()[file@];
                let mut i: usize = 0;
                while i < keys.len()
                    invariant
                        self.wf(),
                        self.files().contains_key(file@),
                        set == self.files()[file@],
                        i <= keys@.len(),
                        r@.no_duplicates(),
                        forall|a: int, b: int| 0 <= a < b < keys@.len() ==> keys@[a]@ != keys@[b]@,
                        forall|j: int| 0 <= j < keys@.len() ==> #[trigger] set.contains(keys@[j]@),
                        forall|x: Seq<char>| #[trigger] set.contains(x) ==> exists|j: int| 0 <= j < keys@.len() && keys@[j]@ == x,
                        forall|j: int| 0 <= j < r@.len() ==> self.holds(#[trigger] r@[j]) && exists|m: int| 0 <= m < i && keys@[m]@ == symbol_key(r@[j]),
                        forall|m: int| 0 <= m < i && #[trigger] self.entries().contains_key(keys@[m]@) ==> r@.contains(self.entries()[keys@[m]@]),
                    decreases keys@.len() - i,
                {
                    let ghost k = keys@[i as int]@;
                    match symbols_get(&self.symbols, keys[i].as_str()) {
                        Some(sym) => {
                            assert(self.indexed(k));
                            assert(symbol_key(sym) == k);
                            assert forall|j: int| 0 <= j < r@.len() implies r@[j] != sym by {
                                let m = choose|m: int| 0 <= m < i && keys@[m]@ == symbol_key(r@[j]);
                                assert(keys@[m]@ != keys@[i as int]@);
                            }
                            let ghost before = r@;
                            r.push(sym);
                            assert forall|j: int| 0 <= j < r@.len() implies self.holds(#[trigger] r@[j]) && exists|m: int| 0 <= m < i + 1 && keys@[m]@ == symbol_key(r@[j]) by {
                                if j < before.len() {
                                    assert(r@[j] == before[j]);
                                } else {
                                    assert(keys@[i as int]@ == symbol_key(r@[j]));
                                }
                            }
                            assert forall|m: int| 0 <= m < i + 1 && #[trigger] self.entries().contains_key(keys@[m]@) implies r@.contains(self.entries()[keys@[m]@]) by {
                                if m < i {
                                    assert(before.contains(self.entries()[keys@[m]@]));
                                    let j = choose|j: int| 0 <= j < before.len() && before[j] == self.entries()[keys@[m]@];
                                    assert(r@[j] == before[j]);
                                } else {
                                    assert(r@[before.len() as int] == sym);
                                }
                            }
                        },
                        None => {},
                    }
                    i = i + 1;
                }
                assert forall|s: Symbol| r@.contains(s) <==> self.listed_under(file@, s) by {
                    if r@.contains(s) {
                        let j = choose|j: int| 0 <= j < r@.len() && r@[j] == s;
                        assert(self.holds(r@[j]));
                        let m = choose|m: int| 0 <= m < i && keys@[m]@ == symbol_key(r@[j]);
                        assert(set.contains(keys@[m]@));
                    }
                    if self.listed_under(file@, s) {
                        let m = choose|m: int| 0 <= m < keys@.len() && keys@[m]@ == symbol_key(s);
                        assert(self.entries().contains_key(keys@[m]@));
                    }
                }
            },
            None => {},
        }
        r
    }

    /// Every stored symbol, each once, in the order the store is walked.
    pub fn all_symbols(&self) -> (r: Vec<Symbol>)
        requires
            self.wf(),
        ensures
            r@.no_duplicates(),
            forall|s: Symbol| r@.contains(s) <==> self.holds(s),
            r@.len() == self.entries().len(),
    {
        let items = symbols_items(&self.symbols);
        let mut r: Vec<Symbol> = Vec::new();
        let mut i: usize = 0;
        while i < items.len()
            invariant
                self.wf(),
                i <= items@.len(),
                r@.len() == i,
                forall|j: int| 0 <= j < items@.len() ==> #[trigger] self.entries().get(items@[j].0@) == Some(items@[j].1),
                forall|a: int, b: int| 0 <= a < b < items@.len() ==> items@[a].0@ != items@[b].0@,
                forall|j: int| 0 <= j < i ==> #[trigger] r@[j] == items@[j].1,
            decreases items@.len() - i,
        {
            r.push(items[i].1.clone());
            i = i + 1;
        }
        proof {
            let keys = items@.map_values(|p: (String, Symbol)| p.0@);
            assert forall|j: int| 0 <= j < r@.len() implies symbol_key(#[trigger] r@[j]) == keys[j] by {
                assert(self.entries().get(items@[j].0@) == Some(items@[j].1));
                assert(self.indexed(items@[j].0@));
            }
            assert(r@.no_duplicates()) by {
                assert forall|a: int, b: int| 0 <= a < r@.len() && 0 <= b < r@.len() && a != b implies r@[a] != r@[b] by {
                    assert(symbol_key(r@[a]) == keys[a]);
                    assert(symbol_key(r@[b]) == keys[b]);
                    if a < b {
                        assert(items@[a].0@ != items@[b].0@);
                    } else {
                        assert(items@[b].0@ != items@[a].0@);
                    }
                }
            }
            assert forall|s: Symbol| r@.contains(s) <==> self.holds(s) by {
                if r@.contains(s) {
                    let j = choose|j: int| 0 <= j < r@.len() && r@[j] == s;
                    assert(self.entries().get(items@[j].0@) == Some(items@[j].1));
                    assert(self.indexed(items@[j].0@));
                }
                if self.holds(s) {
                    assert(self.entries().contains_key(symbol_key(s)));
                    let j = choose|j: int| 0 <= j < items@.len() && items@[j].0@ == symbol_key(s);
                    assert(self.entries().get(items@[j].0@) == Some(items@[j].1));
                    assert(r@[j] == s);
                }
            }
            assert(keys.no_duplicates()) by {
                assert forall|a: int, b: int| 0 <= a < keys.len() && 0 <= b < keys.len() && a != b implies keys[a] != keys[b] by {
                    if a < b {
                        assert(items@[a].0@ != items@[b].0@);
                    } else {
                        assert(items@[b].0@ != items@[a].0@);
                    }
                }
            }
            keys.unique_seq_to_set();
            assert(keys.to_set() =~= self.entries().dom()) by {
                assert forall|k: Seq<char>| keys.to_set().contains(k) implies self.entries().dom().contains(k) by {
                    let j = choose|j: int| 0 <= j < keys.len() && keys[j] == k;
                    assert(self.entries().get(items@[j].0@) == Some(items@[j].1));
                }
                assert forall|k: Seq<char>| self.entries().dom().contains(k) implies keys.to_set().contains(k) by {
                    assert(self.entries().contains_key(k));
                    let j = choose|j: int| 0 <= j < items@.len() && items@[j].0@ == k;
                    assert(keys[j] == k);
                }
            }
        }
        r
    }

    /// The keys of the stored symbols whose names match the query.
    pub open spec fn matching_keys(&self, query: Seq<char>) -> Set<Seq<char>> {
        self.entries().dom().filter(|k: Seq<char>| matches_query(self.entries()[k], query))
    }

    /// The symbols whose names match the query, best score first, at most
    /// `limit` of them: no symbol left out scores above one that is kept.
    pub fn search(&self, query: &str, limit: usize) -> (r: Vec<Symbol>)
        requires
            self.wf(),
        ensures
            r@.len() == if limit < self.matching_keys(query@).len() {
                limit as nat
            } else {
                self.matching_keys(query@).len()
            },
            r@.no_duplicates(),
            forall|i: int|
                0 <= i < r@.len() ==> self.holds(#[trigger] r@[i]) && matches_query(r@[i], query@),
            forall|i: int, j: int|
                0 <= i < j < r@.len() ==> score_of(r@[i], query@) >= score_of(r@[j], query@),
            forall|s: Symbol, i: int|
                #![trigger self.holds(s), r@[i]]
                self.holds(s) && matches_query(s, query@) && !r@.contains(s) && 0 <= i < r@.len()
                    ==> score_of(s, query@) <= score_of(r@[i], query@),
    {
        let items = symbols_items(&self.symbols);
        let mut ranked: Vec<(i64, Symbol)> = Vec::new();
        let ghost q = query@;
        let mut i: usize = 0;
        while i < items.len()
            invariant
                self.wf(),
                q == query@,
                i <= items@.len(),
                forall|j: int| 0 <= j < items@.len() ==> #[trigger] self.entries().get(items@[j].0@) == Some(items@[j].1),
                forall|a: int, b: int| 0 <= a < b < items@.len() ==> items@[a].0@ != items@[b].0@,
                forall|j: int| 0 <= j < ranked@.len() ==> {
                    &&& self.holds(#[trigger] ranked@[j].1)
                    &&& matches_query(ranked@[j].1, q)
                    &&& ranked@[j].0 == score_of(ranked@[j].1, q)
                    &&& exists|m: int| 0 <= m < i && items@[m].0@ == symbol_key(ranked@[j].1)
                },
                forall|a: int, b: int| 0 <= a < b < ranked@.len() ==> symbol_key(ranked@[a].1) != symbol_key(ranked@[b].1),
                forall|m: int| 0 <= m < i && matches_query(#[trigger] items@[m].1, q) ==> exists|j: int| 0 <= j < ranked@.len() && ranked@[j].1 == items@[m].1,
            decreases items@.len() - i,
        {
            let ghost sym = items@[i as int].1;
            proof {
                assert(self.entries().get(items@[i as int].0@) == Some(sym));
                assert(self.indexed(items@[i as int].0@));
            }
            match clangd_match(items[i].1.name.as_str(), query) {
                Some(score) => {
                    let ghost before = ranked@;
                    ranked.push((score, items[i].1.clone()));
                    proof {
                        assert forall|j: int| 0 <= j < ranked@.len() implies {
                            &&& self.holds(#[trigger] ranked@[j].1)
                            &&& matches_query(ranked@[j].1, q)
                            &&& ranked@[j].0 == score_of(ranked@[j].1, q)
                            &&& exists|m: int| 0 <= m < i + 1 && items@[m].0@ == symbol_key(ranked@[j].1)
                        } by {
                            if j < before.len() {
                                assert(ranked@[j] == before[j]);
                            } else {
                                assert(items@[i as int].0@ == symbol_key(ranked@[j].1));
                            }
                        }
                        assert forall|a: int, b: int| 0 <= a < b < ranked@.len() implies symbol_key(ranked@[a].1) != symbol_key(ranked@[b].1) by {
                            if b == before.len() {
                                assert(ranked@[a] == before[a]);
                                let m = choose|m: int| 0 <= m < i && items@[m].0@ == symbol_key(before[a].1);
                                assert(items@[m].0@ != items@[i as int].0@);
                            } else {
                                assert(ranked@[a] == before[a]);
                                assert(ranked@[b] == before[b]);
                            }
                        }
                        assert forall|m: int| 0 <= m < i + 1 && matches_query(#[trigger] items@[m].1, q) implies exists|j: int| 0 <= j < ranked@.len() && ranked@[j].1 == items@[m].1 by {
                            if m < i {
                                let j = choose|j: int| 0 <= j < before.len() && before[j].1 == items@[m].1;
                                assert(ranked@[j] == before[j]);
                            } else {
                                assert(ranked@[before.len() as int].1 == items@[m].1);
                            }
                        }
                    }
                },
                None => {},
            }
            i = i + 1;
        }
        let ghost unsorted = ranked@;
        proof {
            self.lemma_ranked_count(items@, unsorted, q);
        }
        sort_by_score_desc(&mut ranked);
        proof {
            self.lemma_sorted_keeps(unsorted, ranked@, q);
        }
        let n = if limit < ranked.len() { limit } else { ranked.len() };
        let mut r: Vec<Symbol> = Vec::new();
        let mut k: usize = 0;
        while k < n
            invariant
                n <= ranked@.len(),
                k <= n,
                r@.len() == k,
                forall|j: int| 0 <= j < k ==> #[trigger] r@[j] == ranked@[j].1,
            decreases n - k,
        {
            r.push(ranked[k].1.clone());
            k = k + 1;
        }
        proof {
            assert forall|a: int, b: int| 0 <= a < r@.len() && 0 <= b < r@.len() && a != b implies r@[a] != r@[b] by {
                assert(r@[a] == ranked@[a].1);
                assert(r@[b] == ranked@[b].1);
            }
            assert forall|s: Symbol, i: int|
                #![trigger self.holds(s), r@[i]]
                self.holds(s) && matches_query(s, q) && !r@.contains(s) && 0 <= i < r@.len()
                    implies score_of(s, q) <= score_of(r@[i], q) by {
                let p = choose|p: int| 0 <= p < ranked@.len() && ranked@[p].1 == s;
                if p < n {
                    assert(r@[p] == s);
                }
                assert(r@[i] == ranked@[i].1);
                assert(ranked@[i].0 >= ranked@[p].0);
            }
        }
        r
    }

    /// Facts about the entries gathered by `search` before they are sorted:
    /// one per matching key.
    proof fn lemma_ranked_count(&self, items: Seq<(String, Symbol)>, ranked: Seq<(i64, Symbol)>, q: Seq<char>)
        requires
            self.wf(),
            forall|j: int| 0 <= j < items.len() ==> #[trigger] self.entries().get(items[j].0@) == Some(items[j].1),
            forall|k: Seq<char>| #[trigger] self.entries().contains_key(k) ==> exists|m: int| 0 <= m < items.len() && items[m].0@ == k,
            forall|j: int| 0 <= j < ranked.len() ==> {
                &&& self.holds(#[trigger] ranked[j].1)
                &&& matches_query(ranked[j].1, q)
                &&& ranked[j].0 == score_of(ranked[j].1, q)
            },
            forall|a: int, b: int| 0 <= a < b < ranked.len() ==> symbol_key(ranked[a].1) != symbol_key(ranked[b].1),
            forall|m: int| 0 <= m < items.len() && matches_query(#[trigger] items[m].1, q) ==> exists|j: int| 0 <= j < ranked.len() && ranked[j].1 == items[m].1,
        ensures
            ranked.len() == self.matching_keys(q).len(),
            ranked.no_duplicates(),
            forall|s: Symbol| self.holds(s) && matches_query(s, q) ==> exists|j: int| 0 <= j < ranked.len() && ranked[j].1 == s,
    {
        let keys = ranked.map_values(|p: (i64, Symbol)| symbol_key(p.1));
        assert(keys.no_duplicates()) by {
            assert forall|a: int, b: int| 0 <= a < keys.len() && 0 <= b < keys.len() && a != b implies keys[a] != keys[b] by {
                if a < b {
                    assert(symbol_key(ranked[a].1) != symbol_key(ranked[b].1));
                } else {
                    assert(symbol_key(ranked[b].1) != symbol_key(ranked[a].1));
                }
            }
        }
        assert(ranked.no_duplicates()) by {
            assert forall|a: int, b: int| 0 <= a < ranked.len() && 0 <= b < ranked.len() && a != b implies ranked[a] != ranked[b] by {
                assert(keys[a] != keys[b]);
            }
        }
        assert forall|s: Symbol| self.holds(s) && matches_query(s, q) implies exists|j: int| 0 <= j < ranked.len() && ranked[j].1 == s by {
            assert(self.entries().contains_key(symbol_key(s)));
            let m = choose|m: int| 0 <= m < items.len() && items[m].0@ == symbol_key(s);
            assert(self.entries().get(items[m].0@) == Some(items[m].1));
            assert(items[m].1 == s);
        }
        keys.unique_seq_to_set();
        assert(keys.to_set() =~= self.matching_keys(q)) by {
            assert forall|k: Seq<char>| keys.to_set().contains(k) implies self.matching_keys(q).contains(k) by {
                let j = choose|j: int| 0 <= j < keys.len() && keys[j] == k;
                assert(self.holds(ranked[j].1));
            }
            assert forall|k: Seq<char>| self.matching_keys(q).contains(k) implies keys.to_set().contains(k) by {
                let s = self.entries()[k];
                assert(self.indexed(k));
                assert(self.holds(s));
                let j = choose|j: int| 0 <= j < ranked.len() && ranked[j].1 == s;
                assert(keys[j] == k);
            }
        }
    }

    /// Sorting keeps the facts `search` needs: the same entries, each once.
    proof fn lemma_sorted_keeps(&self, before: Seq<(i64, Symbol)>, after: Seq<(i64, Symbol)>, q: Seq<char>)
        requires
            after.to_multiset() == before.to_multiset(),
            before.no_duplicates(),
            forall|j: int| 0 <= j < before.len() ==> {
                &&& self.holds(#[trigger] before[j].1)
                &&& matches_query(before[j].1, q)
                &&& before[j].0 == score_of(before[j].1, q)
            },
            forall|s: Symbol| self.holds(s) && matches_query(s, q) ==> exists|j: int| 0 <= j < before.len() && before[j].1 == s,
        ensures
            after.len() == before.len(),
            forall|j: int| 0 <= j < after.len() ==> {
                &&& self.holds(#[trigger] after[j].1)
                &&& matches_query(after[j].1, q)
                &&& after[j].0 == score_of(after[j].1, q)
            },
            forall|a: int, b: int| 0 <= a < after.len() && 0 <= b < after.len() && a != b ==> after[a].1 != after[b].1,
            forall|s: Symbol| self.holds(s) && matches_query(s, q) ==> exists|j: int| 0 <= j < after.len() && after[j].1 == s,
    {
        before.to_multiset_ensures();
        after.to_multiset_ensures();
        before.lemma_multiset_has_no_duplicates();
        after.lemma_multiset_has_no_duplicates_conv();
        assert(after.len() == before.len()) by {
            assert(after.to_multiset().len() == before.to_multiset().len());
        }
        assert forall|j: int| 0 <= j < after.len() implies {
            &&& self.holds(#[trigger] after[j].1)
            &&& matches_query(after[j].1, q)
            &&& after[j].0 == score_of(after[j].1, q)
        } by {
            assert(after.contains(after[j]));
            assert(after.to_multiset().count(after[j]) > 0);
            assert(before.to_multiset().count(after[j]) > 0);
            assert(before.contains(after[j]));
            let m = choose|m: int| 0 <= m < before.len() && before[m] == after[j];
        }
        assert forall|a: int, b: int| 0 <= a < after.len() && 0 <= b < after.len() && a != b implies after[a].1 != after[b].1 by {
            assert(after.contains(after[a]));
            assert(after.contains(after[b]));
            assert(after.to_multiset().count(after[a]) > 0);
            assert(after.to_multiset().count(after[b]) > 0);
            assert(before.to_multiset().count(after[a]) > 0);
            assert(before.to_multiset().count(after[b]) > 0);
            assert(before.contains(after[a]));
            assert(before.contains(after[b]));
            let ma = choose|m: int| 0 <= m < before.len() && before[m] == after[a];
            let mb = choose|m: int| 0 <= m < before.len() && before[m] == after[b];
            assert(after[a] != after[b]);
        }
        assert forall|s: Symbol| self.holds(s) && matches_query(s, q) implies exists|j: int| 0 <= j < after.len() && after[j].1 == s by {
            let m = choose|m: int| 0 <= m < before.len() && before[m].1 == s;
            assert(before.contains(before[m]));
            assert(before.to_multiset().count(before[m]) > 0);
            assert(after.to_multiset().count(before[m]) > 0);
            assert(after.contains(before[m]));
        }
    }

    /// The number of symbols stored.
    pub fn len(&self) -> (r: usize)
        ensures
            r == self.entries().len(),
    {
        symbols_len(&self.symbols)
    }

    /// Whether no symbol is stored.
    pub fn is_empty(&self) -> (r: bool)
        requires
            self.wf(),
        ensures
            r == (self.entries().dom() == Set::<Seq<char>>::empty()),
    {
        let n = symbols_len(&self.symbols);
        proof {
            if n == 0 {
                assert(self.entries().dom() =~= Set::<Seq<char>>::empty());
            } else {
                assert(self.entries().dom() != Set::<Seq<char>>::empty());
            }
        }
        n == 0
    }
}

impl Default for SymbolTable {
    fn default() -> (r: SymbolTable)
        ensures
            r.wf(),
            r.entries().dom() == Set::<Seq<char>>::empty(),
    {
        Self::new()
    }
}

/// Storing a symbol and then looking up its file and name gives that symbol back.
pub proof fn law_get_after_insert(before: SymbolTable, after: SymbolTable, s: Symbol)
    requires
        before.wf(),
        after.entries() == before.entries().insert(symbol_key(s), s),
    ensures
        after.entries().get(key_of(s.file@, s.name@)) == Some(s),
        after.holds(s),
{
}

/// Storing a symbol adds one to the count when its key was new, and leaves
/// the count alone when it replaces a symbol under the same key.
pub proof fn law_insert_len(before: SymbolTable, after: SymbolTable, s: Symbol)
    requires
        before.wf(),
        after.entries() == before.entries().insert(symbol_key(s), s),
    ensures
        after.entries().len() == before.entries().len() + if before.entries().contains_key(
            symbol_key(s),
        ) {
            0int
        } else {
            1int
        },
{
    if before.entries().contains_key(symbol_key(s)) {
        assert(after.entries().dom() =~= before.entries().dom());
    } else {
        assert(after.entries().dom() =~= before.entries().dom().insert(symbol_key(s)));
    }
}

/// Once a file is removed, no stored symbol belongs to it, neither file
/// index lists it, and no identifier is recorded as mentioned in it.
pub proof fn law_remove_file_forgets(before: SymbolTable, after: SymbolTable, f: Seq<char>)
    requires
        before.wf(),
        after.entries() == before.entries().remove_keys(members(before.files(), f)),
        after.files() == before.files().remove(f),
        after.refs() == strike(before.refs(), f),
        after.file_ids() == before.file_ids().remove(f),
    ensures
        forall|k: Seq<char>| #[trigger] after.entries().contains_key(k) ==> after.entries()[k].file@ != f,
        !after.files().contains_key(f),
        !after.file_ids().contains_key(f),
        forall|id: Seq<char>| !#[trigger] members(after.refs(), id).contains(f),
{
    assert forall|k: Seq<char>| #[trigger] after.entries().contains_key(k) implies after.entries()[k].file@ != f by {
        assert(before.entries().contains_key(k));
        assert(before.indexed(k));
        assert(!members(before.files(), f).contains(k));
    }
}

/// The keys of the stored symbols that belong to a file.
pub open spec fn keys_of_file(entries: Map<Seq<char>, Symbol>, f: Seq<char>) -> Set<Seq<char>> {
    entries.dom().filter(|k: Seq<char>| entries[k].file@ == f)
}

/// When every stored key listed under a file holds a symbol of that file
/// (no symbol of another file has since been stored under such a key),
/// removing the file drops exactly the symbols of that file: the count falls
/// by their number, every symbol of another file stays as it was, and no
/// removed key is left listed under its symbol's name.
pub proof fn law_remove_file_drops_its_symbols(before: SymbolTable, after: SymbolTable, f: Seq<char>)
    requires
        before.wf(),
        forall|k: Seq<char>|
            #[trigger] members(before.files(), f).contains(k) && before.entries().contains_key(k)
                ==> before.entries()[k].file@ == f,
        after.entries() == before.entries().remove_keys(members(before.files(), f)),
        after.names() == names_without(before.names(), before.entries(), members(before.files(), f)),
    ensures
        after.entries().dom() == before.entries().dom().difference(keys_of_file(before.entries(), f)),
        after.entries().len() == before.entries().len() - keys_of_file(before.entries(), f).len(),
        forall|k: Seq<char>|
            #[trigger] before.entries().contains_key(k) && before.entries()[k].file@ != f
                ==> after.entries().get(k) == before.entries().get(k),
        forall|k: Seq<char>|
            #[trigger] keys_of_file(before.entries(), f).contains(k) ==> !members(
                after.names(),
                before.entries()[k].name@,
            ).contains(k),
{
    let e = before.entries();
    let sf = keys_of_file(e, f);
    let gone = members(before.files(), f);
    assert forall|k: Seq<char>| #[trigger] e.contains_key(k) implies (gone.contains(k) <==> sf.contains(k)) by {
        assert(before.indexed(k));
    }
    assert(after.entries().dom() =~= e.dom().difference(sf));
    vstd::set_lib::lemma_len_subset(sf, e.dom());
    vstd::set_lib::lemma_set_difference_len(e.dom(), sf);
    assert(e.dom().intersect(sf) =~= sf);
    assert forall|k: Seq<char>| #[trigger] e.contains_key(k) && e[k].file@ != f implies after.entries().get(k) == e.get(k) by {
        assert(!sf.contains(k));
    }
    assert forall|k: Seq<char>| #[trigger] sf.contains(k) implies !members(after.names(), e[k].name@).contains(k) by {
        assert(removed_with_name(e, gone, e[k].name@).contains(k));
    }
}

/// Removing a file keeps every symbol whose key was not listed under that file.
pub proof fn law_remove_file_keeps_others(before: SymbolTable, after: SymbolTable, f: Seq<char>, k: Seq<char>)
    requires
        before.wf(),
        after.entries() == before.entries().remove_keys(members(before.files(), f)),
        before.entries().contains_key(k),
        !members(before.files(), f).contains(k),
    ensures
        after.entries().get(k) == before.entries().get(k),
{
}

/// Every stored symbol of a file is among the symbols listed for that file.
pub proof fn law_listed_complete(t: SymbolTable, s: Symbol)
    requires
        t.wf(),
        t.holds(s),
    ensures
        t.listed_under(s.file@, s),
{
    assert(t.entries().contains_key(symbol_key(s)));
    assert(t.indexed(symbol_key(s)));
}

/// The identifier indices mirror each other: a file is recorded for an
/// identifier exactly when the identifier is recorded for the file.
pub proof fn law_refs_mirror(t: SymbolTable, id: Seq<char>, f: Seq<char>)
    requires
        t.wf(),
    ensures
        members(t.refs(), id).contains(f) <==> members(t.file_ids(), f).contains(id),
{
}

} // verus!
