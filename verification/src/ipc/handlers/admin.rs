//! Requests on the program itself: its end, its memory as a whole, the facts
//! about the user, and the audit of tools.

use crate::ipc::handlers::chat::execute::{arg_or, arg_text_or};
use crate::ipc::handlers::chat::modes::{arg, arg_text};
use crate::ipc::protocol::{error, is_error, IPCResponse};
use crate::json::{json_views, Json, JsonV, Number};
use crate::llm::types::text_view;
use crate::text;
use vstd::prelude::*;

verus! {

/// How many bytes of a call and of its result an audit keeps.
pub const AUDIT_BYTES: usize = 500;

/// The answer to a request to end: it is taken, and the program ends after so
/// many milliseconds, later where not all is known to be written.
pub fn handle_graceful_shutdown(id: &str, written: bool) -> (r: (IPCResponse, u64))
    ensures
        r.0 matches IPCResponse::Acknowledged { id: i } && i@ == id@,
        r.1 == (if written {
            300u64
        } else {
            1500u64
        }),
{
    let delay: u64 = if written {
        300
    } else {
        1500
    };
    (IPCResponse::Acknowledged { id: id.to_owned() }, delay)
}

/// The answer to a question for a fact about the user.
pub fn handle_get_user_fact(id: &str, key: &str, value: Option<String>) -> (r: IPCResponse)
    ensures
        r matches IPCResponse::UserFact { id: i, key: k, value: v }
            && i@ == id@ && k@ == key@ && v == value,
{
    IPCResponse::UserFact { id: id.to_owned(), key: key.to_owned(), value }
}

/// The answer to a fact about the user, whatever became of it.
pub fn handle_set_user_fact(id: &str) -> (r: IPCResponse)
    ensures
        r matches IPCResponse::Acknowledged { id: i }
            && i@ == id@,
{
    IPCResponse::Acknowledged { id: id.to_owned() }
}

/// What was counted in the memory; what could not be counted is absent.
#[derive(Debug)]
pub struct MemoryCounts {
    pub nodes: Option<i64>,
    pub edges: Option<i64>,
    pub embeddings: Option<i64>,
    pub pinned: Option<i64>,
    /// The bits of the mean of all votes.
    pub rating: Option<u64>,
    pub bytes: Option<u64>,
    pub last_trained_at: Option<i64>,
}

/// A number that may be absent, or zero.
pub open spec fn count(n: Option<i64>) -> i64 {
    match n {
        Some(c) => c,
        None => 0,
    }
}

/// A number that may be absent, or zero.
pub fn count_or_zero(n: Option<i64>) -> (r: i64)
    ensures
        r == count(n),
{
    match n {
        Some(c) => c,
        None => 0,
    }
}

/// A number from zero up that may be absent, or zero.
pub open spec fn size(n: Option<u64>) -> u64 {
    match n {
        Some(c) => c,
        None => 0,
    }
}

/// A number from zero up that may be absent, or zero.
pub fn size_or_zero(n: Option<u64>) -> (r: u64)
    ensures
        r == size(n),
{
    match n {
        Some(c) => c,
        None => 0,
    }
}

/// The answer to a question for the state of the memory; absent counts are
/// those of a memory that cannot be reached.
pub fn handle_get_memory_health(
    id: &str,
    counts: &Option<MemoryCounts>,
    gnn_available: bool,
) -> (r: IPCResponse)
    ensures
        match *counts {
            None => is_error(r, id@, "DB unavailable"@),
            Some(c) => r matches IPCResponse::MemoryHealth {
                id: i,
                node_count,
                edge_count,
                embedding_count,
                pinned_count,
                avg_confidence,
                db_size_bytes,
                gnn_available: g,
                last_trained_at,
            } && i@ == id@ && node_count == count(c.nodes) && edge_count == count(c.edges)
                && embedding_count == count(c.embeddings) && pinned_count == count(c.pinned)
                && avg_confidence == size(c.rating) && db_size_bytes == size(c.bytes) && g
                == gnn_available && last_trained_at == c.last_trained_at,
        },
{
    match counts {
        None => error(id, "DB unavailable".to_owned()),
        Some(c) => IPCResponse::MemoryHealth {
            id: id.to_owned(),
            node_count: count_or_zero(c.nodes),
            edge_count: count_or_zero(c.edges),
            embedding_count: count_or_zero(c.embeddings),
            pinned_count: count_or_zero(c.pinned),
            avg_confidence: size_or_zero(c.rating),
            db_size_bytes: size_or_zero(c.bytes),
            gnn_available,
            last_trained_at: c.last_trained_at,
        },
    }
}

/// The answer to a pinning of a node, and the fact that it is kept as: its key
/// and its value.
pub fn handle_set_node_pinned(id: &str, node_id: &str, pinned: bool) -> (r: (
    IPCResponse,
    String,
    String,
))
    ensures
        r.0 matches IPCResponse::Acknowledged { id: i } && i@ == id@,
        r.1@ == "node_pinned:"@ + node_id@,
        r.2@ == (if pinned {
            "true"@
        } else {
            "false"@
        }),
{
    let mut key = "node_pinned:".to_owned();
    key.append(node_id);
    let value = (if pinned {
        "true"
    } else {
        "false"
    }).to_owned();
    (IPCResponse::Acknowledged { id: id.to_owned() }, key, value)
}

/// The answer to a removal of a node, whatever became of it.
pub fn handle_delete_node(id: &str) -> (r: IPCResponse)
    ensures
        r matches IPCResponse::Acknowledged { id: i }
            && i@ == id@,
{
    IPCResponse::Acknowledged { id: id.to_owned() }
}

/// The answer to a new summary of a node, whatever became of it.
pub fn handle_update_node_summary(id: &str) -> (r: IPCResponse)
    ensures
        r matches IPCResponse::Acknowledged { id: i }
            && i@ == id@,
{
    IPCResponse::Acknowledged { id: id.to_owned() }
}

// ---------------------------------------------------------------------------
// Taking the memory elsewhere
// ---------------------------------------------------------------------------

/// A node as it is kept.
#[derive(Debug)]
pub struct NodeRow {
    pub id: String,
    pub node_type: String,
    pub title: String,
    pub created_at: i64,
    pub updated_at: i64,
    /// What is noted of it, as JSON text.
    pub metadata_json: Option<String>,
}

/// The model of a node.
#[verifier::ext_equal]
pub struct NodeRowV {
    pub id: Seq<char>,
    pub node_type: Seq<char>,
    pub title: Seq<char>,
    pub created_at: i64,
    pub updated_at: i64,
    pub metadata_json: Option<Seq<char>>,
}

impl View for NodeRow {
    type V = NodeRowV;

    open spec fn view(&self) -> NodeRowV {
        NodeRowV {
            id: self.id@,
            node_type: self.node_type@,
            title: self.title@,
            created_at: self.created_at,
            updated_at: self.updated_at,
            metadata_json: text_view(self.metadata_json),
        }
    }
}

/// A node as it is taken elsewhere.
pub open spec fn node_out(n: NodeRowV) -> JsonV {
    JsonV::Object(
        seq![
            ("id"@, JsonV::Text(n.id)),
            ("node_type"@, JsonV::Text(n.node_type)),
            ("title"@, JsonV::Text(n.title)),
            ("created_at"@, JsonV::integer(n.created_at)),
            ("updated_at"@, JsonV::integer(n.updated_at)),
            ("metadata_json"@, JsonV::text_or_null(n.metadata_json)),
        ],
    )
}

/// A node as it is brought in, with a default for what is missing.
pub open spec fn node_in(v: JsonV) -> NodeRowV {
    NodeRowV {
        id: arg(v, "id"@),
        node_type: arg_or(v, "node_type"@, "concept"@),
        title: arg(v, "title"@),
        created_at: count(v.signed_at("created_at"@)),
        updated_at: count(v.signed_at("updated_at"@)),
        metadata_json: v.text_at("metadata_json"@),
    }
}

/// A node that was taken elsewhere comes back as it was.
pub proof fn a_node_comes_back(n: NodeRowV)
    ensures
        node_in(node_out(n)) == n,
{
    let v = node_out(n);
    let m = v->Object_0;
    reveal_strlit("id");
    reveal_strlit("node_type");
    reveal_strlit("title");
    reveal_strlit("created_at");
    reveal_strlit("updated_at");
    reveal_strlit("metadata_json");
    reveal_with_fuel(JsonV::find, 7);
    assert("id"@.len() == 2);
    assert("node_type"@.len() == 9);
    assert("title"@.len() == 5);
    assert("created_at"@.len() == 10 && "created_at"@[0] == 'c');
    assert("updated_at"@.len() == 10 && "updated_at"@[0] == 'u');
    assert("metadata_json"@.len() == 13);
    assert(m.skip(1)[0] == m[1]);
    assert(m.skip(1).skip(1)[0] == m[2]);
    assert(m.skip(1).skip(1).skip(1)[0] == m[3]);
    assert(m.skip(1).skip(1).skip(1).skip(1)[0] == m[4]);
    assert(m.skip(1).skip(1).skip(1).skip(1).skip(1)[0] == m[5]);
    assert(v.get("id"@) == Some(m[0].1));
    assert(v.get("node_type"@) == Some(m[1].1));
    assert(v.get("title"@) == Some(m[2].1));
    assert(v.get("created_at"@) == Some(m[3].1));
    assert(v.get("updated_at"@) == Some(m[4].1));
    assert(v.get("metadata_json"@) == Some(m[5].1));
    assert(node_in(v) =~= n);
}

/// A node as it is taken elsewhere.
pub fn export_node(n: &NodeRow) -> (r: Json)
    ensures
        r@ == node_out(n@),
{
    let r = Json::Object(
        vec![
            ("id".to_owned(), Json::Text(n.id.clone())),
            ("node_type".to_owned(), Json::Text(n.node_type.clone())),
            ("title".to_owned(), Json::Text(n.title.clone())),
            ("created_at".to_owned(), Json::integer(n.created_at)),
            ("updated_at".to_owned(), Json::integer(n.updated_at)),
            ("metadata_json".to_owned(), Json::text_or_null(n.metadata_json.clone())),
        ],
    );
    proof {
        reveal_with_fuel(Json::model, 3);
        assert(r@->Object_0 =~= node_out(n@)->Object_0);
    }
    r
}

/// What is known of a node as it is taken elsewhere.
pub open spec fn object_out(
    node_id: Seq<char>,
    summary: Option<Seq<char>>,
    key_facts_json: Option<Seq<char>>,
    tags_json: Option<Seq<char>>,
) -> JsonV {
    JsonV::Object(
        seq![
            ("node_id"@, JsonV::Text(node_id)),
            ("summary"@, JsonV::text_or_null(summary)),
            ("key_facts_json"@, JsonV::text_or_null(key_facts_json)),
            ("tags_json"@, JsonV::text_or_null(tags_json)),
        ],
    )
}

/// What is known of a node as it is taken elsewhere.
pub fn export_object(
    node_id: String,
    summary: Option<String>,
    key_facts_json: Option<String>,
    tags_json: Option<String>,
) -> (r: Json)
    ensures
        r@ == object_out(
            node_id@,
            text_view(summary),
            text_view(key_facts_json),
            text_view(tags_json),
        ),
{
    let ghost want = object_out(
        node_id@,
        text_view(summary),
        text_view(key_facts_json),
        text_view(tags_json),
    );
    let r = Json::Object(
        vec![
            ("node_id".to_owned(), Json::Text(node_id)),
            ("summary".to_owned(), Json::text_or_null(summary)),
            ("key_facts_json".to_owned(), Json::text_or_null(key_facts_json)),
            ("tags_json".to_owned(), Json::text_or_null(tags_json)),
        ],
    );
    proof {
        reveal_with_fuel(Json::model, 3);
        assert(r@->Object_0 =~= want->Object_0);
    }
    r
}

/// An edge as it is taken elsewhere.
pub open spec fn edge_out(
    id: Seq<char>,
    source_id: Seq<char>,
    target_id: Seq<char>,
    relationship: Seq<char>,
    strength: u64,
) -> JsonV {
    JsonV::Object(
        seq![
            ("id"@, JsonV::Text(id)),
            ("source_id"@, JsonV::Text(source_id)),
            ("target_id"@, JsonV::Text(target_id)),
            ("relationship"@, JsonV::Text(relationship)),
            ("strength"@, JsonV::Num(Number::Fraction(strength))),
        ],
    )
}

/// An edge as it is taken elsewhere, with the bits of its strength.
pub fn export_edge(
    id: String,
    source_id: String,
    target_id: String,
    relationship: String,
    strength: u64,
) -> (r: Json)
    ensures
        r@ == edge_out(id@, source_id@, target_id@, relationship@, strength),
{
    let ghost want = edge_out(id@, source_id@, target_id@, relationship@, strength);
    let r = Json::Object(
        vec![
            ("id".to_owned(), Json::Text(id)),
            ("source_id".to_owned(), Json::Text(source_id)),
            ("target_id".to_owned(), Json::Text(target_id)),
            ("relationship".to_owned(), Json::Text(relationship)),
            ("strength".to_owned(), Json::Num(Number::Fraction(strength))),
        ],
    );
    proof {
        reveal_with_fuel(Json::model, 3);
        assert(r@->Object_0 =~= want->Object_0);
    }
    r
}

/// The memory as it is taken elsewhere.
pub open spec fn memory_out(
    now: i64,
    nodes: Seq<JsonV>,
    objects: Seq<JsonV>,
    edges: Seq<JsonV>,
) -> JsonV {
    JsonV::Object(
        seq![
            ("version"@, JsonV::Num(Number::Unsigned(1))),
            ("exported_at"@, JsonV::integer(now)),
            ("nodes"@, JsonV::List(nodes)),
            ("object_memories"@, JsonV::List(objects)),
            ("edges"@, JsonV::List(edges)),
        ],
    )
}

/// What a memory holds, as it is taken elsewhere.
#[derive(Debug)]
pub struct Exported {
    pub nodes: Vec<Json>,
    pub objects: Vec<Json>,
    pub edges: Vec<Json>,
}

/// The answer to a request for all that the memory holds; absent where it
/// cannot be reached.
pub fn handle_export_memory(id: &str, now: i64, all: Option<Exported>) -> (r: IPCResponse)
    ensures
        match all {
            None => is_error(r, id@, "DB unavailable"@),
            Some(a) => r matches IPCResponse::MemoryExport { id: i, data } && i@ == id@ && data@
                == memory_out(
                now,
                json_views(a.nodes@),
                json_views(a.objects@),
                json_views(a.edges@),
            ),
        },
{
    match all {
        None => error(id, "DB unavailable".to_owned()),
        Some(a) => {
            let ghost want = memory_out(
                now,
                json_views(a.nodes@),
                json_views(a.objects@),
                json_views(a.edges@),
            );
            let ghost before = a;
            let data = Json::Object(
                vec![
                    ("version".to_owned(), Json::Num(Number::Unsigned(1))),
                    ("exported_at".to_owned(), Json::integer(now)),
                    ("nodes".to_owned(), Json::List(a.nodes)),
                    ("object_memories".to_owned(), Json::List(a.objects)),
                    ("edges".to_owned(), Json::List(a.edges)),
                ],
            );
            proof {
                reveal_with_fuel(Json::model, 4);
                assert(Json::List(before.nodes)@->List_0 =~= json_views(before.nodes@));
                assert(Json::List(before.objects)@->List_0 =~= json_views(before.objects@));
                assert(Json::List(before.edges)@->List_0 =~= json_views(before.edges@));
                assert(data@->Object_0 =~= want->Object_0);
            }
            IPCResponse::MemoryExport { id: id.to_owned(), data }
        },
    }
}

/// The items of the list under a key, and none where there is no list.
pub open spec fn items_at(data: JsonV, key: Seq<char>) -> Seq<JsonV> {
    match data.get(key) {
        Some(JsonV::List(items)) => items,
        _ => Seq::empty(),
    }
}

/// What is taken elsewhere can be brought in again: the nodes and the edges come
/// back as they were, in order.
pub proof fn an_export_can_be_imported(
    now: i64,
    rows: Seq<NodeRowV>,
    objects: Seq<JsonV>,
    edges: Seq<JsonV>,
)
    ensures
        ({
            let data = memory_out(now, rows.map_values(|n: NodeRowV| node_out(n)), objects, edges);
            &&& items_at(data, "nodes"@).map_values(|v: JsonV| node_in(v)) == rows
            &&& items_at(data, "edges"@) == edges
        }),
{
    let nodes = rows.map_values(|n: NodeRowV| node_out(n));
    let data = memory_out(now, nodes, objects, edges);
    let m = data->Object_0;
    reveal_strlit("version");
    reveal_strlit("exported_at");
    reveal_strlit("nodes");
    reveal_strlit("object_memories");
    reveal_strlit("edges");
    reveal_with_fuel(JsonV::find, 6);
    assert("version"@.len() == 7);
    assert("exported_at"@.len() == 11);
    assert("nodes"@.len() == 5 && "nodes"@[0] == 'n');
    assert("object_memories"@.len() == 15);
    assert("edges"@.len() == 5 && "edges"@[0] == 'e');
    assert(m.skip(1)[0] == m[1]);
    assert(m.skip(1).skip(1)[0] == m[2]);
    assert(m.skip(1).skip(1).skip(1)[0] == m[3]);
    assert(m.skip(1).skip(1).skip(1).skip(1)[0] == m[4]);
    assert(data.get("nodes"@) == Some(m[2].1));
    assert(data.get("edges"@) == Some(m[4].1));
    let back = nodes.map_values(|v: JsonV| node_in(v));
    assert forall|i: int| 0 <= i < rows.len() implies #[trigger] back[i] == rows[i] by {
        a_node_comes_back(rows[i]);
    }
    assert(back =~= rows);
}

/// The models of a list of nodes.
pub open spec fn row_views(l: Seq<NodeRow>) -> Seq<NodeRowV> {
    l.map_values(|n: NodeRow| n@)
}

fn import_node(v: &Json) -> (r: NodeRow)
    ensures
        r@ == node_in(v@),
{
    NodeRow {
        id: arg_text(v, "id"),
        node_type: arg_text_or(v, "node_type", "concept"),
        title: arg_text(v, "title"),
        created_at: count_or_zero(v.signed_at("created_at")),
        updated_at: count_or_zero(v.signed_at("updated_at")),
        metadata_json: v.text_at("metadata_json"),
    }
}

/// The nodes that are brought in.
pub fn import_nodes(data: &Json) -> (r: Vec<NodeRow>)
    ensures
        row_views(r@) == items_at(data@, "nodes"@).map_values(|v: JsonV| node_in(v)),
{
    let ghost all = items_at(data@, "nodes"@);
    let ghost want = all.map_values(|v: JsonV| node_in(v));
    let mut out: Vec<NodeRow> = Vec::new();
    assert(row_views(out@) =~= want.take(0));
    if let Some(Json::List(items)) = data.get("nodes") {
        assert(all == Json::List(*items)@->List_0);
        assert(all.len() == items@.len());
        for i in 0..items.len()
            invariant
                all.len() == items@.len(),
                want == all.map_values(|v: JsonV| node_in(v)),
                forall|j: int| 0 <= j < all.len() ==> #[trigger] all[j] == items@[j]@,
                row_views(out@) == want.take(i as int),
        {
            let n = import_node(&items[i]);
            assert(all[i as int] == items@[i as int]@);
            assert(want[i as int] == n@);
            let ghost before = out@;
            out.push(n);
            assert(row_views(out@) =~= row_views(before).push(n@));
            assert(want.take(i + 1) =~= want.take(i as int).push(n@));
        }
    } else {
        assert(want.len() == 0);
    }
    assert(want.take(want.len() as int) =~= want);
    out
}

/// An edge that is brought in.
#[derive(Debug)]
pub struct EdgeRow {
    pub id: String,
    pub source_id: String,
    pub target_id: String,
    pub relationship: String,
    /// The strength; one where it is absent.
    pub strength: Option<Number>,
}

/// The model of an edge.
#[verifier::ext_equal]
pub struct EdgeRowV {
    pub id: Seq<char>,
    pub source_id: Seq<char>,
    pub target_id: Seq<char>,
    pub relationship: Seq<char>,
    pub strength: Option<Number>,
}

impl View for EdgeRow {
    type V = EdgeRowV;

    open spec fn view(&self) -> EdgeRowV {
        EdgeRowV {
            id: self.id@,
            source_id: self.source_id@,
            target_id: self.target_id@,
            relationship: self.relationship@,
            strength: self.strength,
        }
    }
}

/// An edge as it is brought in, with a default for what is missing.
pub open spec fn edge_in(v: JsonV) -> EdgeRowV {
    EdgeRowV {
        id: arg(v, "id"@),
        source_id: arg(v, "source_id"@),
        target_id: arg(v, "target_id"@),
        relationship: arg_or(v, "relationship"@, "relates_to"@),
        strength: match v.get("strength"@) {
            Some(JsonV::Num(n)) => Some(n),
            _ => None,
        },
    }
}

/// An edge that was taken elsewhere comes back as it was.
pub proof fn an_edge_comes_back(
    id: Seq<char>,
    source_id: Seq<char>,
    target_id: Seq<char>,
    relationship: Seq<char>,
    strength: u64,
)
    ensures
        edge_in(edge_out(id, source_id, target_id, relationship, strength)) == (EdgeRowV {
            id,
            source_id,
            target_id,
            relationship,
            strength: Some(Number::Fraction(strength)),
        }),
{
    let v = edge_out(id, source_id, target_id, relationship, strength);
    let m = v->Object_0;
    reveal_strlit("id");
    reveal_strlit("source_id");
    reveal_strlit("target_id");
    reveal_strlit("relationship");
    reveal_strlit("strength");
    reveal_with_fuel(JsonV::find, 6);
    assert("id"@.len() == 2);
    assert("source_id"@.len() == 9 && "source_id"@[0] == 's');
    assert("target_id"@.len() == 9 && "target_id"@[0] == 't');
    assert("relationship"@.len() == 12);
    assert("strength"@.len() == 8);
    assert(m.skip(1)[0] == m[1]);
    assert(m.skip(1).skip(1)[0] == m[2]);
    assert(m.skip(1).skip(1).skip(1)[0] == m[3]);
    assert(m.skip(1).skip(1).skip(1).skip(1)[0] == m[4]);
    assert(v.get("id"@) == Some(m[0].1));
    assert(v.get("source_id"@) == Some(m[1].1));
    assert(v.get("target_id"@) == Some(m[2].1));
    assert(v.get("relationship"@) == Some(m[3].1));
    assert(v.get("strength"@) == Some(m[4].1));
}

/// The models of a list of edges.
pub open spec fn edge_views(l: Seq<EdgeRow>) -> Seq<EdgeRowV> {
    l.map_values(|n: EdgeRow| n@)
}

fn import_edge(v: &Json) -> (r: EdgeRow)
    ensures
        r@ == edge_in(v@),
{
    EdgeRow {
        id: arg_text(v, "id"),
        source_id: arg_text(v, "source_id"),
        target_id: arg_text(v, "target_id"),
        relationship: arg_text_or(v, "relationship", "relates_to"),
        strength: match v.get("strength") {
            Some(Json::Num(n)) => Some(*n),
            _ => None,
        },
    }
}

/// The edges that are brought in.
pub fn import_edges(data: &Json) -> (r: Vec<EdgeRow>)
    ensures
        edge_views(r@) == items_at(data@, "edges"@).map_values(|v: JsonV| edge_in(v)),
{
    let ghost all = items_at(data@, "edges"@);
    let ghost want = all.map_values(|v: JsonV| edge_in(v));
    let mut out: Vec<EdgeRow> = Vec::new();
    assert(edge_views(out@) =~= want.take(0));
    if let Some(Json::List(items)) = data.get("edges") {
        assert(all == Json::List(*items)@->List_0);
        assert(all.len() == items@.len());
        for i in 0..items.len()
            invariant
                all.len() == items@.len(),
                want == all.map_values(|v: JsonV| edge_in(v)),
                forall|j: int| 0 <= j < all.len() ==> #[trigger] all[j] == items@[j]@,
                edge_views(out@) == want.take(i as int),
        {
            let n = import_edge(&items[i]);
            assert(all[i as int] == items@[i as int]@);
            assert(want[i as int] == n@);
            let ghost before = out@;
            out.push(n);
            assert(edge_views(out@) =~= edge_views(before).push(n@));
            assert(want.take(i + 1) =~= want.take(i as int).push(n@));
        }
    } else {
        assert(want.len() == 0);
    }
    assert(want.take(want.len() as int) =~= want);
    out
}

/// A node that is there already is replaced; otherwise it is left.
pub fn import_replaces(conflict: &str) -> (r: bool)
    ensures
        r == (conflict@ == "overwrite"@),
{
    text::same(conflict, "overwrite")
}

/// How many of the first `n` outcomes changed something, changed nothing, and
/// failed. An outcome is the number of rows that changed, or a failure.
pub open spec fn tally(outcomes: Seq<Option<usize>>, n: nat) -> (nat, nat, nat)
    decreases n,
{
    if n == 0 {
        (0, 0, 0)
    } else {
        let (i, s, e) = tally(outcomes, (n - 1) as nat);
        match outcomes[n - 1] {
            Some(0) => (i, s + 1, e),
            Some(_) => (i + 1, s, e),
            None => (i, s, e + 1),
        }
    }
}

/// Every node that was brought in is counted once.
pub proof fn every_node_is_counted(outcomes: Seq<Option<usize>>, n: nat)
    ensures
        tally(outcomes, n).0 + tally(outcomes, n).1 + tally(outcomes, n).2 == n,
    decreases n,
{
    if n > 0 {
        every_node_is_counted(outcomes, (n - 1) as nat);
    }
}

/// The answer to a memory that was brought in, from what came of each node; no
/// outcome where the memory cannot be reached.
pub fn handle_import_memory(id: &str, outcomes: &Vec<Option<usize>>) -> (r: IPCResponse)
    ensures
        r matches IPCResponse::MemoryImportResult { id: i, imported, skipped, errors } && i@ == id@
            && (imported as nat, skipped as nat, errors as nat) == tally(
            outcomes@,
            outcomes@.len(),
        ),
{
    let mut imported: usize = 0;
    let mut skipped: usize = 0;
    let mut errors: usize = 0;
    for i in 0..outcomes.len()
        invariant
            (imported as nat, skipped as nat, errors as nat) == tally(outcomes@, i as nat),
    {
        proof {
            every_node_is_counted(outcomes@, i as nat);
        }
        match outcomes[i] {
            Some(0) => {
                skipped = skipped + 1;
            },
            Some(_) => {
                imported = imported + 1;
            },
            None => {
                errors = errors + 1;
            },
        }
    }
    IPCResponse::MemoryImportResult { id: id.to_owned(), imported, skipped, errors }
}

// ---------------------------------------------------------------------------
// The audit of tools
// ---------------------------------------------------------------------------

/// What an audit keeps of a text: its first bytes. None where the cut falls
/// inside a character.
pub open spec fn audit_text(s: Seq<char>) -> Option<Seq<char>> {
    if text::byte_count(s) > AUDIT_BYTES {
        text::byte_cut(s, AUDIT_BYTES as int)
    } else {
        Some(s)
    }
}

/// What an audit keeps of a text.
pub fn audit_cut(s: &str) -> (r: Option<String>)
    ensures
        match r {
            Some(t) => audit_text(s@) == Some(t@),
            None => audit_text(s@) is None,
        },
{
    if text::byte_len(s) > AUDIT_BYTES {
        text::cut_at_byte(s, AUDIT_BYTES)
    } else {
        Some(s.to_owned())
    }
}

/// The answer to a call for the audit, whatever became of it.
pub fn handle_log_tool_audit(id: &str) -> (r: IPCResponse)
    ensures
        r matches IPCResponse::Acknowledged { id: i }
            && i@ == id@,
{
    IPCResponse::Acknowledged { id: id.to_owned() }
}

/// How many calls of the audit are told: as many as asked for, or fifty. A number
/// too large for the database becomes a negative one, which is no limit.
pub fn audit_limit(limit: Option<usize>) -> (r: i64)
    ensures
        r as int == (match limit {
            Some(n) => if n <= i64::MAX {
                n as int
            } else {
                n - 0x1_0000_0000_0000_0000
            },
            None => 50,
        }),
{
    match limit {
        Some(n) => {
            let n: u64 = n as u64;
            if n <= i64::MAX as u64 {
                n as i64
            } else {
                -((u64::MAX - n) as i64) - 1
            }
        },
        None => 50,
    }
}

/// A call of the audit as it is told.
pub open spec fn audit_out(
    id: Seq<char>,
    timestamp: i64,
    tool_name: Seq<char>,
    args_json: Option<Seq<char>>,
    result_summary: Option<Seq<char>>,
    conversation_id: Option<Seq<char>>,
) -> JsonV {
    JsonV::Object(
        seq![
            ("id"@, JsonV::Text(id)),
            ("timestamp"@, JsonV::integer(timestamp)),
            ("tool_name"@, JsonV::Text(tool_name)),
            ("args_json"@, JsonV::text_or_null(args_json)),
            ("result_summary"@, JsonV::text_or_null(result_summary)),
            ("conversation_id"@, JsonV::text_or_null(conversation_id)),
        ],
    )
}

/// A call of the audit as it is told.
pub fn audit_entry(
    id: String,
    timestamp: i64,
    tool_name: String,
    args_json: Option<String>,
    result_summary: Option<String>,
    conversation_id: Option<String>,
) -> (r: Json)
    ensures
        r@ == audit_out(
            id@,
            timestamp,
            tool_name@,
            text_view(args_json),
            text_view(result_summary),
            text_view(conversation_id),
        ),
{
    let ghost want = audit_out(
        id@,
        timestamp,
        tool_name@,
        text_view(args_json),
        text_view(result_summary),
        text_view(conversation_id),
    );
    let r = Json::Object(
        vec![
            ("id".to_owned(), Json::Text(id)),
            ("timestamp".to_owned(), Json::integer(timestamp)),
            ("tool_name".to_owned(), Json::Text(tool_name)),
            ("args_json".to_owned(), Json::text_or_null(args_json)),
            ("result_summary".to_owned(), Json::text_or_null(result_summary)),
            ("conversation_id".to_owned(), Json::text_or_null(conversation_id)),
        ],
    );
    proof {
        reveal_with_fuel(Json::model, 3);
        assert(r@->Object_0 =~= want->Object_0);
    }
    r
}

/// The answer to a question for the audit.
pub fn handle_get_tool_audit_log(id: &str, entries: Vec<Json>) -> (r: IPCResponse)
    ensures
        r matches IPCResponse::ToolAuditLog { id: i, entries: ent }
            && i@ == id@ && ent == entries,
{
    IPCResponse::ToolAuditLog { id: id.to_owned(), entries }
}

} // verus!
