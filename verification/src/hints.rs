//! The type hint map: the struct type names that a caller declares for the
//! paths whose struct type the binary format leaves open.

use crate::codec::{hint_table, no_hints, types_add, types_new};
use crate::text::{c_text, from_utf8_lossy, lossy_text, text_before_nul};
use uesave::Types;
use vstd::prelude::*;

verus! {

/// One hint as a caller hands it over: the text buffers of a property path
/// and of the struct type name declared for it. Each is read up to its first
/// NUL.
#[derive(Debug)]
pub struct KeyValuePair {
    pub key: Vec<u8>,
    pub value: Vec<u8>,
}

impl KeyValuePair {
    /// The path that the hint is for.
    pub open spec fn path(&self) -> Seq<char> {
        lossy_text(c_text(self.key@))
    }

    /// The struct type name that the hint declares.
    pub open spec fn kind(&self) -> Seq<char> {
        lossy_text(c_text(self.value@))
    }
}

/// The table that a sequence of hints builds: each path with the name that
/// the last hint for it declares.
pub open spec fn hint_map(pairs: Seq<KeyValuePair>) -> Map<Seq<char>, Seq<char>>
    decreases pairs.len(),
{
    if pairs.len() == 0 {
        no_hints()
    } else {
        hint_map(pairs.drop_last()).insert(pairs.last().path(), pairs.last().kind())
    }
}

/// Whether the hint at `i` is the last one for `path`.
pub open spec fn is_last_hint_for(pairs: Seq<KeyValuePair>, i: int, path: Seq<char>) -> bool {
    &&& 0 <= i < pairs.len()
    &&& pairs[i].path() == path
    &&& forall|j: int| i < j < pairs.len() ==> #[trigger] pairs[j].path() != path
}

/// A path is in the table exactly when some hint names that very path, and
/// the table then holds what the last such hint declares. No other path is
/// touched: there is no matching by prefix or pattern.
pub proof fn lemma_hint_map_exact(pairs: Seq<KeyValuePair>, path: Seq<char>)
    ensures
        hint_map(pairs).contains_key(path) <==> exists|i: int|
            0 <= i < pairs.len() && #[trigger] pairs[i].path() == path,
        forall|i: int| #[trigger]
            is_last_hint_for(pairs, i, path) ==> hint_map(pairs).contains_key(path) && hint_map(
                pairs,
            )[path] == pairs[i].kind(),
    decreases pairs.len(),
{
    if pairs.len() > 0 {
        let front = pairs.drop_last();
        lemma_hint_map_exact(front, path);
        if pairs.last().path() != path {
            if exists|i: int| 0 <= i < pairs.len() && #[trigger] pairs[i].path() == path {
                let i = choose|i: int| 0 <= i < pairs.len() && #[trigger] pairs[i].path() == path;
                assert(front[i].path() == path);
            }
            assert forall|i: int| #[trigger] is_last_hint_for(pairs, i, path) implies
                is_last_hint_for(front, i, path) by {
                assert forall|j: int| i < j < front.len() implies #[trigger] front[j].path()
                    != path by {
                    assert(pairs[j].path() != path);
                }
            }
        }
    }
}

/// Without hints the table is empty.
pub proof fn lemma_no_hints()
    ensures
        hint_map(Seq::<KeyValuePair>::empty()) == no_hints(),
{
}

/// The table handed to the binary reader.
pub struct TypeHintMap {
    types: Types,
}

impl View for TypeHintMap {
    type V = Map<Seq<char>, Seq<char>>;

    closed spec fn view(&self) -> Map<Seq<char>, Seq<char>> {
        hint_table(self.types)
    }
}

impl TypeHintMap {
    /// The table without entries.
    pub fn new() -> (hints: TypeHintMap)
        ensures
            hints@ == no_hints(),
    {
        TypeHintMap { types: types_new() }
    }

    /// Declares `kind` for `path`, in place of what was declared for it.
    pub fn add(&mut self, path: String, kind: String)
        ensures
            final(self)@ == old(self)@.insert(path@, kind@),
    {
        types_add(&mut self.types, path, kind);
    }

    /// Builds the table from a caller's hints, decoding each key and value as
    /// text without rejecting any.
    pub fn from_pairs(map: &[KeyValuePair]) -> (hints: TypeHintMap)
        ensures
            hints@ == hint_map(map@),
    {
        let mut hints = TypeHintMap::new();
        let mut i: usize = 0;
        while i < map.len()
            invariant
                i <= map.len(),
                hints@ == hint_map(map@.take(i as int)),
            decreases map.len() - i,
        {
            let key = from_utf8_lossy(text_before_nul(map[i].key.as_slice()));
            let value = from_utf8_lossy(text_before_nul(map[i].value.as_slice()));
            hints.add(key, value);
            assert(map@.take(i + 1).drop_last() =~= map@.take(i as int));
            i += 1;
        }
        assert(map@.take(i as int) =~= map@);
        hints
    }

    /// The table as the binary reader takes it.
    pub fn as_types(&self) -> (types: &Types)
        ensures
            hint_table(*types) == self@,
    {
        &self.types
    }
}

} // verus!
