//! The tools of an editor, by type.

use vstd::prelude::*;

verus! {

/// The type number that no type has.
pub const INVALID_TYPE: usize = 0;

/// The tools that are set up: for the number of a tool's type, the number under
/// which the tool itself is kept. Listed in the order in which they were added.
pub type Tools = indexmap::IndexMap<usize, u64, std::collections::hash_map::RandomState>;

/// Declares `indexmap::IndexMap`, a hash map that remembers the order of its
/// keys. Nothing is claimed of it here.
#[verifier::external_type_specification]
#[verifier::external_body]
#[verifier::reject_recursive_types(K)]
#[verifier::reject_recursive_types(V)]
#[verifier::reject_recursive_types(S)]
pub struct ExIndexMap<K, V, S>(indexmap::IndexMap<K, V, S>);

/// What an index map of tools holds.
pub uninterp spec fn tools_of(tools: Tools) -> Map<usize, u64>;

/// Calls the `default` of `indexmap::IndexMap`: a map that holds nothing.
#[verifier::external_body]
pub(crate) fn no_tools() -> (tools: Tools)
    ensures
        (tools_of(tools) == Map::<usize, u64>::empty()),
{
    indexmap::IndexMap::default()
}

/// Calls `indexmap::IndexMap::get`: the value held for the key, if there is one.
#[verifier::external_body]
pub(crate) fn tool_for(tools: &Tools, tool_type: usize) -> (tool: Option<u64>)
    ensures
        tool == (if tools_of(*tools).contains_key(tool_type) {
            Some(tools_of(*tools)[tool_type])
        } else {
            None
        }),
{
    tools.get(&tool_type).copied()
}

} // verus!
