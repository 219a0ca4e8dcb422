use crate::types::{McpError, McpTool};
use vstd::prelude::*;

verus! {

/// The results of a batch start, as recorded one outcome after another.
pub type StartResults = Vec<(String, Vec<String>)>;

/// What the recorded outcomes `v` say: each started server id to the names of its tools,
/// a later record for the same id replacing an earlier one.
pub open spec fn results_map(v: Seq<(String, Vec<String>)>) -> Map<Seq<char>, Seq<Seq<char>>>
    decreases v.len(),
{
    if v.len() == 0 {
        Map::empty()
    } else {
        results_map(v.drop_last()).insert(
            v.last().0@,
            v.last().1@.map_values(|s: String| s@),
        )
    }
}

/// The names of `tools`, in order.
pub open spec fn names_of(tools: Seq<McpTool>) -> Seq<Seq<char>> {
    tools.map_values(|t: McpTool| t.name@)
}

/// The names of `tools`, in order.
pub fn tool_names(tools: &Vec<McpTool>) -> (names: Vec<String>)
    ensures
        names@.map_values(|s: String| s@) == names_of(tools@),
{
    let mut names: Vec<String> = Vec::new();
    let mut i: usize = 0;
    while i < tools.len()
        invariant
            i <= tools@.len(),
            names@.len() == i,
            forall|k: int| 0 <= k < i ==> (#[trigger] names@[k])@ == tools@[k].name@,
        decreases tools@.len() - i,
    {
        names.push(tools[i].name.clone());
        i = i + 1;
    }
    assert(names@.map_values(|s: String| s@) =~= names_of(tools@));
    names
}

/// Records in a batch start what came of starting `server_id`. A server that started maps
/// to the names of its tools; a failure is left out and does not disturb the other
/// results.
pub fn record_start(
    results: &mut StartResults,
    server_id: String,
    outcome: &Result<Vec<McpTool>, McpError>,
)
    ensures
        match outcome {
            Ok(tools) => results_map(final(results)@) == results_map(old(results)@).insert(
                server_id@,
                names_of(tools@),
            ),
            Err(_) => final(results)@ == old(results)@,
        },
{
    if let Ok(tools) = outcome {
        let names = tool_names(tools);
        results.push((server_id, names));
        proof {
            assert(final(results)@.drop_last() =~= old(results)@);
        }
    }
}

} // verus!
