//! The calls into `uesave` and `serde_json` that the library makes itself,
//! and the names under which it speaks of their results. The binary reader
//! and writer of `uesave` are not among them: they can panic on what they are
//! given, so the caller of this library runs them where a panic can be
//! caught and hands their results in.

use uesave::{Save, StructType, Types};
use vstd::prelude::*;

verus! {

/// `uesave::Save`, the parsed form of a save file. Nothing inside it is
/// visible to the verifier.
#[verifier::external_type_specification]
#[verifier::external_body]
pub struct ExSave(Save);

/// `uesave::Types`, the table that the binary reader consults for the struct
/// type at a path. Nothing inside it is visible to the verifier.
#[verifier::external_type_specification]
#[verifier::external_body]
pub struct ExTypes(Types);

/// The entries of a `uesave::Types`: the struct type name recorded at each
/// path.
pub uninterp spec fn hint_table(types: Types) -> Map<Seq<char>, Seq<char>>;

/// What `serde_json::to_string` returns for a tree.
pub uninterp spec fn tree_text(tree: Save) -> Result<Seq<char>, Seq<char>>;

/// What `serde_json::from_str` returns when asked for a tree.
pub uninterp spec fn text_tree(text: Seq<char>) -> Result<Save, Seq<char>>;

/// The table without entries.
pub open spec fn no_hints() -> Map<Seq<char>, Seq<char>> {
    Map::empty()
}

/// A text result taken by view.
pub open spec fn text_view(r: Result<String, String>) -> Result<Seq<char>, Seq<char>> {
    match r {
        Ok(text) => Ok(text@),
        Err(message) => Err(message@),
    }
}

/// A tree result with its failure taken by view.
pub open spec fn tree_view(r: Result<Save, String>) -> Result<Save, Seq<char>> {
    match r {
        Ok(tree) => Ok(tree),
        Err(message) => Err(message@),
    }
}

/// Calls `uesave::Types::new`, which makes a table without entries.
#[verifier::external_body]
pub(crate) fn types_new() -> (types: Types)
    ensures
        hint_table(types) == no_hints(),
{
    Types::new()
}

/// Calls `uesave::Types::add` with a named struct type. The table is a hash
/// map keyed by path and `add` is its `insert`, so an entry at the same path
/// is replaced and every other entry stays.
#[verifier::external_body]
pub(crate) fn types_add(types: &mut Types, path: String, name: String)
    ensures
        hint_table(*final(types)) == hint_table(*old(types)).insert(path@, name@),
{
    types.add(path, StructType::Struct(Some(name)))
}

/// Calls `serde_json::to_string` on a tree. A failure is handed on as the
/// text that `serde_json::Error` displays.
#[verifier::external_body]
pub(crate) fn to_json(tree: &Save) -> (r: Result<String, String>)
    ensures
        text_view(r) == tree_text(*tree),
{
    match serde_json::to_string(tree) {
        Ok(text) => Ok(text),
        Err(e) => Err(e.to_string()),
    }
}

/// Calls `serde_json::from_str` for a `uesave::Save`. A failure is handed on
/// as the text that `serde_json::Error` displays.
#[verifier::external_body]
pub(crate) fn from_json(text: &str) -> (r: Result<Save, String>)
    ensures
        tree_view(r) == text_tree(text@),
{
    match serde_json::from_str::<Save>(text) {
        Ok(tree) => Ok(tree),
        Err(e) => Err(e.to_string()),
    }
}

} // verus!
