//! Tool catalog builder: turns a session's raw tool listing into
//! caller-facing tool records.
//!
//! Each record carries a freshly generated id — unique within one listing
//! and deliberately not stable across listings — and copies the tool's
//! name, description and input schema verbatim, stamped with the server's
//! id and display name for provenance.

use vstd::prelude::*;
use vstd::string::StringExecFns;
use crate::descriptor::MCPServer;

verus! {

#[verifier::external_type_specification]
#[verifier::external_body]
pub struct ExJsonValue(serde_json::Value);

#[verifier::external_type_specification]
#[verifier::external_body]
#[verifier::reject_recursive_types(K)]
#[verifier::reject_recursive_types(V)]
pub struct ExJsonMap<K, V>(serde_json::Map<K, V>);

/// A structured JSON-schema object, carried through opaquely as the tool
/// provider sent it.
pub type ToolSchema = serde_json::Map<String, serde_json::Value>;

/// One tool as a session's raw listing reports it.
pub struct RawTool {
    pub name: String,
    pub description: Option<String>,
    pub input_schema: ToolSchema,
}

/// One caller-facing tool record: a fresh id, the tool's own fields
/// copied verbatim, and the originating server's identity.
#[allow(non_snake_case)]
pub struct MCPTool {
    pub id: String,
    pub serverId: String,
    pub serverName: String,
    pub name: String,
    pub description: Option<String>,
    pub inputSchema: ToolSchema,
}

/// Relies on nanoid's `format` over its 64-symbol url-safe alphabet with
/// size 21: the alphabet length is a power of two, so exactly `size`
/// characters are pushed.  The result is random; nothing relates one
/// call to another.
#[verifier::external_body]
fn fresh_tool_id() -> (r: String)
    ensures
        r@.len() == 21,
{
    nanoid::format(nanoid::rngs::default, &nanoid::alphabet::SAFE, 21)
}

/// Relies on serde_json's `Clone` for `Map<String, Value>`: the clone
/// equals the original.
#[verifier::external_body]
fn clone_schema(schema: &ToolSchema) -> (r: ToolSchema)
    ensures
        r == *schema,
{
    schema.clone()
}

/// Copies an optional description.
fn clone_description(d: &Option<String>) -> (r: Option<String>)
    ensures
        d matches Some(s) ==> (r matches Some(t) && t@ == s@),
        d is None ==> r is None,
{
    match d {
        Some(s) => Some(s.clone()),
        None => None,
    }
}

/// The length of the longest id among the records built so far.
spec fn max_id_len(s: Seq<MCPTool>) -> nat
    decreases s.len(),
{
    if s.len() == 0 {
        0
    } else {
        let rest = max_id_len(s.drop_last());
        if s.last().id@.len() > rest {
            s.last().id@.len()
        } else {
            rest
        }
    }
}

/// Every record's id is at most the longest id long.
proof fn lemma_id_len_bound(s: Seq<MCPTool>, i: int)
    requires
        0 <= i < s.len(),
    ensures
        s[i].id@.len() <= max_id_len(s),
    decreases s.len(),
{
    if i < s.len() - 1 {
        lemma_id_len_bound(s.drop_last(), i);
        assert(s.drop_last()[i] == s[i]);
    }
}

/// Whether `id` already names one of the records built so far.
fn id_taken(records: &Vec<MCPTool>, id: &String) -> (b: bool)
    ensures
        b == exists|i: int| 0 <= i < records@.len() && records@[i].id@ == id@,
{
    let mut i: usize = 0;
    while i < records.len()
        invariant
            i <= records@.len(),
            forall|j: int| 0 <= j < i ==> records@[j].id@ != id@,
        decreases records@.len() - i,
    {
        if records[i].id == *id {
            proof {
                assert(records@[i as int].id@ == id@);
            }
            return true;
        }
        i += 1;
    }
    false
}

/// Draws a fresh id that names none of the records built so far.
///
/// A drawn id is kept as it came.  In the vanishingly unlikely event that
/// it collides with an id already chosen, it is extended with further
/// fresh draws until it is longer than every chosen id; strings of
/// different lengths always differ.
fn fresh_distinct_id(records: &Vec<MCPTool>) -> (r: String)
    ensures
        r@.len() >= 21,
        forall|i: int| 0 <= i < records@.len() ==> records@[i].id@ != r@,
{
    let mut id = fresh_tool_id();
    while id_taken(records, &id)
        invariant
            id@.len() >= 21,
        decreases max_id_len(records@) + 21 - id@.len(),
    {
        proof {
            let i = choose|i: int| 0 <= i < records@.len() && records@[i].id@ == id@;
            lemma_id_len_bound(records@, i);
        }
        let suffix = fresh_tool_id();
        id.append(suffix.as_str());
    }
    id
}

/// What one built record owes to the listing entry it came from: the
/// server's identity stamped on, and name, description and schema copied
/// verbatim.
pub open spec fn record_matches(rec: MCPTool, server: &MCPServer, tool: RawTool) -> bool {
    &&& rec.serverId@ == server.id@
    &&& rec.serverName@ == server.name@
    &&& rec.name@ == tool.name@
    &&& match (rec.description, tool.description) {
        (Some(a), Some(b)) => a@ == b@,
        (None, None) => true,
        _ => false,
    }
    &&& rec.inputSchema == tool.input_schema
}

/// Builds one caller-facing record per listed tool.
///
/// Record ids are freshly generated, at least the standard id length,
/// and unique within this one response; nothing makes them stable across
/// two listings of the same server.
pub fn make_mcp_tool_list(server: &MCPServer, tools: &Vec<RawTool>) -> (records: Vec<MCPTool>)
    ensures
        records@.len() == tools@.len(),
        forall|i: int| 0 <= i < tools@.len() ==> record_matches(records@[i], server, tools@[i]),
        forall|i: int| 0 <= i < records@.len() ==> records@[i].id@.len() >= 21,
        forall|i: int, j: int| 0 <= i < j < records@.len() ==> records@[i].id@ != records@[j].id@,
{
    let mut records: Vec<MCPTool> = Vec::new();
    let mut i: usize = 0;
    while i < tools.len()
        invariant
            i <= tools@.len(),
            records@.len() == i,
            forall|j: int| 0 <= j < i ==> record_matches(records@[j], server, tools@[j]),
            forall|j: int| 0 <= j < i ==> records@[j].id@.len() >= 21,
            forall|a: int, b: int| 0 <= a < b < i ==> records@[a].id@ != records@[b].id@,
        decreases tools@.len() - i,
    {
        let id = fresh_distinct_id(&records);
        let rec = MCPTool {
            id,
            serverId: server.id.clone(),
            serverName: server.name.clone(),
            name: tools[i].name.clone(),
            description: clone_description(&tools[i].description),
            inputSchema: clone_schema(&tools[i].input_schema),
        };
        records.push(rec);
        i += 1;
    }
    records
}

} // verus!
