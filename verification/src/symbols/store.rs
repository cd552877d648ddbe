//! The concurrent maps and the hash sets the symbol table is built from, and
//! what their operations are trusted to do.
use vstd::prelude::*;
use dashmap::DashMap;
use std::collections::HashSet;
use crate::symbols::symbol::Symbol;

verus! {

/// `dashmap::DashMap`, a sharded concurrent hash map.
#[verifier::external_type_specification]
#[verifier::external_body]
#[verifier::reject_recursive_types(K)]
#[verifier::reject_recursive_types(V)]
#[verifier::reject_recursive_types(S)]
pub struct ExDashMap<K, V, S>(dashmap::DashMap<K, V, S>);

/// A concurrent map from keys to symbols.
pub type SymbolMap = DashMap<String, Symbol>;

/// A concurrent map from keys to sets of strings.
pub type IndexMap = DashMap<String, HashSet<String>>;

/// The entries of the map from keys to symbols, keys taken by their characters.
pub uninterp spec fn symbol_entries(m: DashMap<String, Symbol>) -> Map<Seq<char>, Symbol>;

/// The entries of a map from keys to sets of strings, everything taken by its characters.
pub uninterp spec fn index_entries(m: DashMap<String, HashSet<String>>) -> Map<
    Seq<char>,
    Set<Seq<char>>,
>;

/// The strings a hash set holds, taken by their characters.
pub uninterp spec fn string_set(s: HashSet<String>) -> Set<Seq<char>>;

/// `DashMap::new`: an empty map.
#[verifier::external_body]
pub(crate) fn symbols_new() -> (r: SymbolMap)
    ensures
        symbol_entries(r).dom() == Set::<Seq<char>>::empty(),
{
    DashMap::new()
}

/// `DashMap::insert`: the key now maps to the value, any earlier value replaced.
#[verifier::external_body]
pub(crate) fn symbols_insert(m: &mut DashMap<String, Symbol>, k: String, v: Symbol)
    ensures
        symbol_entries(*final(m)) == symbol_entries(*old(m)).insert(k@, v),
{
    m.insert(k, v);
}

/// `DashMap::remove`: the key is gone, and the value it had comes back.
#[verifier::external_body]
pub(crate) fn symbols_remove(m: &mut DashMap<String, Symbol>, k: &str) -> (r: Option<Symbol>)
    ensures
        symbol_entries(*final(m)) == symbol_entries(*old(m)).remove(k@),
        r == symbol_entries(*old(m)).get(k@),
{
    match m.remove(k) {
        Some((_, v)) => Some(v),
        None => None,
    }
}

/// `DashMap::get`, with a copy of the value found.
#[verifier::external_body]
pub(crate) fn symbols_get(m: &DashMap<String, Symbol>, k: &str) -> (r: Option<Symbol>)
    ensures
        r == symbol_entries(*m).get(k@),
{
    m.get(k).map(|e| e.value().clone())
}

/// `DashMap::len`: the number of entries.
#[verifier::external_body]
pub(crate) fn symbols_len(m: &DashMap<String, Symbol>) -> (r: usize)
    ensures
        r == symbol_entries(*m).len(),
{
    m.len()
}

/// `DashMap::iter`, with every entry copied out, in the order the shards are
/// walked; each key comes exactly once.
#[verifier::external_body]
pub(crate) fn symbols_items(m: &DashMap<String, Symbol>) -> (r: Vec<(String, Symbol)>)
    ensures
        forall|i: int|
            0 <= i < r@.len() ==> #[trigger] symbol_entries(*m).get(r@[i].0@) == Some(r@[i].1),
        forall|i: int, j: int| 0 <= i < j < r@.len() ==> r@[i].0@ != r@[j].0@,
        forall|k: Seq<char>|
            #[trigger] symbol_entries(*m).contains_key(k) ==> exists|i: int|
                0 <= i < r@.len() && r@[i].0@ == k,
{
    m.iter().map(|e| (e.key().clone(), e.value().clone())).collect()
}

/// `DashMap::new`: an empty map.
#[verifier::external_body]
pub(crate) fn index_new() -> (r: IndexMap)
    ensures
        index_entries(r).dom() == Set::<Seq<char>>::empty(),
{
    DashMap::new()
}

/// `DashMap::insert`: the key now maps to the set, any earlier set replaced.
#[verifier::external_body]
pub(crate) fn index_insert(m: &mut DashMap<String, HashSet<String>>, k: String, v: HashSet<String>)
    ensures
        index_entries(*final(m)) == index_entries(*old(m)).insert(k@, string_set(v)),
{
    m.insert(k, v);
}

/// `DashMap::remove`: the key is gone, and the set it had comes back.
#[verifier::external_body]
pub(crate) fn index_remove(m: &mut DashMap<String, HashSet<String>>, k: &str) -> (r: Option<
    HashSet<String>,
>)
    ensures
        index_entries(*final(m)) == index_entries(*old(m)).remove(k@),
        match r {
            Some(s) => index_entries(*old(m)).get(k@) == Some(string_set(s)),
            None => !index_entries(*old(m)).contains_key(k@),
        },
{
    match m.remove(k) {
        Some((_, v)) => Some(v),
        None => None,
    }
}

/// `DashMap::get`, with the members of the set found copied out, each once.
#[verifier::external_body]
pub(crate) fn index_get_items(m: &DashMap<String, HashSet<String>>, k: &str) -> (r: Option<
    Vec<String>,
>)
    ensures
        match r {
            Some(v) => {
                &&& index_entries(*m).contains_key(k@)
                &&& forall|i: int|
                    0 <= i < v@.len() ==> #[trigger] index_entries(*m)[k@].contains(v@[i]@)
                &&& forall|i: int, j: int| 0 <= i < j < v@.len() ==> v@[i]@ != v@[j]@
                &&& forall|x: Seq<char>|
                    #[trigger] index_entries(*m)[k@].contains(x) ==> exists|i: int|
                        0 <= i < v@.len() && v@[i]@ == x
            },
            None => !index_entries(*m).contains_key(k@),
        },
{
    m.get(k).map(|e| e.value().iter().cloned().collect())
}

/// `HashSet::new`: an empty set.
#[verifier::external_body]
pub(crate) fn set_new() -> (r: HashSet<String>)
    ensures
        string_set(r) == Set::<Seq<char>>::empty(),
{
    HashSet::new()
}

/// `HashSet::insert`: the string is now a member.
#[verifier::external_body]
pub(crate) fn set_insert(s: &mut HashSet<String>, x: String)
    ensures
        string_set(*final(s)) == string_set(*old(s)).insert(x@),
{
    s.insert(x);
}

/// `HashSet::remove`: the string is no longer a member.
#[verifier::external_body]
pub(crate) fn set_remove(s: &mut HashSet<String>, x: &str)
    ensures
        string_set(*final(s)) == string_set(*old(s)).remove(x@),
{
    s.remove(x);
}

/// `HashSet::is_empty`.
#[verifier::external_body]
pub(crate) fn set_is_empty(s: &HashSet<String>) -> (r: bool)
    ensures
        r == (string_set(*s) == Set::<Seq<char>>::empty()),
{
    s.is_empty()
}

/// `HashSet::iter`, with every member copied out once, in hash order.
#[verifier::external_body]
pub(crate) fn set_items(s: &HashSet<String>) -> (r: Vec<String>)
    ensures
        forall|i: int| 0 <= i < r@.len() ==> #[trigger] string_set(*s).contains(r@[i]@),
        forall|i: int, j: int| 0 <= i < j < r@.len() ==> r@[i]@ != r@[j]@,
        forall|x: Seq<char>|
            #[trigger] string_set(*s).contains(x) ==> exists|i: int| 0 <= i < r@.len() && r@[i]@ == x,
{
    s.iter().cloned().collect()
}

} // verus!
