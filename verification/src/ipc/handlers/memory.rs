//! Requests on the memory.

use crate::ipc::protocol::{error, is_error, IPCResponse};
use crate::json::Json;
use vstd::prelude::*;

verus! {

/// The text that stands for a node in a search by meaning: its title, and what
/// is noted of it.
pub fn semantic_text(title: &str, metadata: &Option<String>) -> (r: String)
    ensures
        r@ == (match *metadata {
            Some(m) => title@ + "\n"@ + m@,
            None => title@,
        }),
{
    let mut t = title.to_owned();
    if let Some(m) = metadata {
        t.append("\n");
        t.append(m);
    }
    t
}

/// The answer to a new node.
pub fn handle_create_node(id: &str, outcome: Result<Json, String>) -> (r: Result<
    IPCResponse,
    String,
>)
    ensures
        match outcome {
            Ok(node) => r matches Ok(a) && (
            a matches IPCResponse::NodeCreated { id: i, node: n }
            && i@ == id@ && n == node),
            Err(e) => r == Err::<IPCResponse, String>(e),
        },
{
    match outcome {
        Ok(node) => Ok(IPCResponse::NodeCreated { id: id.to_owned(), node }),
        Err(e) => Err(e),
    }
}

/// The first of a list, as many as asked for, or twenty.
pub open spec fn first_nodes(nodes: Seq<Json>, limit: Option<usize>) -> Seq<Json> {
    let n = match limit {
        Some(n) => n as int,
        None => 20,
    };
    if n < nodes.len() {
        nodes.take(n)
    } else {
        nodes
    }
}

/// The answer to a query: the nodes that were found, as many as asked for.
pub fn handle_query_memory(
    id: &str,
    limit: Option<usize>,
    outcome: Result<Vec<Json>, String>,
) -> (r: Result<IPCResponse, String>)
    ensures
        match outcome {
            Ok(nodes) => r matches Ok(a) && (a matches IPCResponse::MemoryResults {
                id: i,
                nodes: n,
            } && i@ == id@ && n@ == first_nodes(nodes@, limit)),
            Err(e) => r == Err::<IPCResponse, String>(e),
        },
{
    match outcome {
        Ok(found) => {
            let mut nodes = found;
            let n: usize = match limit {
                Some(n) => n,
                None => 20,
            };
            nodes.truncate(n);
            assert(nodes@ =~= first_nodes(found@, limit));
            Ok(IPCResponse::MemoryResults { id: id.to_owned(), nodes })
        },
        Err(e) => Err(e),
    }
}

/// The answer to a question for a node: what is known of it, if it is there.
pub fn handle_get_node(
    id: &str,
    node_id: &str,
    outcome: Result<Option<(Json, Option<Json>)>, String>,
) -> (r: Result<IPCResponse, String>)
    ensures
        match outcome {
            Ok(Some((node, object))) => r matches Ok(a) && (a matches IPCResponse::NodeDetails {
                id: i,
                node: n,
                object_memory: o,
            } && i@ == id@ && n == node && o == object),
            Ok(None) => r matches Ok(a) && is_error(a, id@, "Node not found: "@ + node_id@),
            Err(e) => r == Err::<IPCResponse, String>(e),
        },
{
    match outcome {
        Ok(Some((node, object_memory))) => Ok(
            IPCResponse::NodeDetails { id: id.to_owned(), node, object_memory },
        ),
        Ok(None) => {
            let mut m = "Node not found: ".to_owned();
            m.append(node_id);
            Ok(error(id, m))
        },
        Err(e) => Err(e),
    }
}

/// The answer to a question for the nodes around one.
pub fn handle_get_connected_nodes(id: &str, outcome: Result<(Vec<Json>, Vec<Json>), String>) -> (r:
    Result<IPCResponse, String>)
    ensures
        match outcome {
            Ok((nodes, edges)) => r matches Ok(a) && (a matches IPCResponse::ConnectedNodes {
                id: i,
                nodes: n,
                edges: e,
            } && i@ == id@ && n == nodes && e == edges),
            Err(e) => r == Err::<IPCResponse, String>(e),
        },
{
    match outcome {
        Ok((nodes, edges)) => Ok(IPCResponse::ConnectedNodes { id: id.to_owned(), nodes, edges }),
        Err(e) => Err(e),
    }
}

/// How many nodes are looked at, and how many are told, in a search by meaning.
pub fn search_size(limit: Option<usize>) -> (r: (usize, usize))
    ensures
        r.1 == (match limit {
            Some(n) => n,
            None => 10,
        }),
        r.0 == (if r.1 * 8 > usize::MAX {
            usize::MAX as int
        } else {
            r.1 * 8
        }),
{
    let told: usize = match limit {
        Some(n) => n,
        None => 10,
    };
    let seen: usize = if told > usize::MAX / 8 {
        usize::MAX
    } else {
        told * 8
    };
    (seen, told)
}

/// The answer to a search by meaning.
pub fn handle_search_embeddings(
    id: &str,
    outcome: Result<Vec<Json>, String>,
) -> (r: Result<
    IPCResponse,
    String,
>)
    ensures
        match outcome {
            Ok(results) => r matches Ok(a) && (
            a matches IPCResponse::EmbeddingResults { id: i, results: res }
            && i@ == id@ && res == results),
            Err(e) => r == Err::<IPCResponse, String>(e),
        },
{
    match outcome {
        Ok(results) => Ok(IPCResponse::EmbeddingResults { id: id.to_owned(), results }),
        Err(e) => Err(e),
    }
}

/// The answer to a vote on a node.
pub fn handle_submit_memory_feedback(
    id: &str,
    outcome: Result<Json, String>,
) -> (r: Result<
    IPCResponse,
    String,
>)
    ensures
        match outcome {
            Ok(details) => r matches Ok(a) && (
            a matches IPCResponse::FeedbackRecorded { id: i, success: s, details: d }
            && i@ == id@ && s && d == details),
            Err(e) => r == Err::<IPCResponse, String>(e),
        },
{
    match outcome {
        Ok(details) => Ok(IPCResponse::FeedbackRecorded { id: id.to_owned(), success: true, details }),
        Err(e) => Err(e),
    }
}

} // verus!
