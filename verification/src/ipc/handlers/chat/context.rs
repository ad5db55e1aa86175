//! What a chat sends and notes before the model is called.

use crate::ipc::handlers::chat::prompt::{turns, ActivePlugin};
use crate::ipc::protocol::{error, is_error, IPCResponse};
use crate::json::{json_views, Json, JsonV};
use crate::text;
use vstd::prelude::*;

verus! {

/// How many of the things that were looked up are noted as used.
pub const MAX_RETRIEVED: usize = 4;

// ---------------------------------------------------------------------------
// What was looked up
// ---------------------------------------------------------------------------

/// The things that were looked up, and none where there is no list of them.
pub open spec fn looked_up(packet: Option<JsonV>) -> Seq<JsonV> {
    match packet {
        Some(p) => match p.get("memory"@) {
            Some(JsonV::List(items)) => items,
            _ => Seq::empty(),
        },
        None => Seq::empty(),
    }
}

/// The ids among the first `n` things, up to four.
pub open spec fn ids_among(items: Seq<JsonV>, n: nat) -> Seq<Seq<char>>
    decreases n,
{
    if n == 0 {
        Seq::empty()
    } else {
        let before = ids_among(items, (n - 1) as nat);
        match items[n - 1].text_at("node_id"@) {
            Some(i) => if before.len() < MAX_RETRIEVED {
                before.push(i)
            } else {
                before
            },
            None => before,
        }
    }
}

/// The model of a packet that may be absent.
pub open spec fn packet_view(packet: Option<Json>) -> Option<JsonV> {
    match packet {
        Some(p) => Some(p@),
        None => None,
    }
}

/// The ids of the first things that were looked up, which are noted as used.
pub fn retrieved_ids(packet: &Option<Json>) -> (r: Vec<String>)
    ensures
        ({
            let items = looked_up(packet_view(*packet));
            text::views(r@) == ids_among(items, items.len())
        }),
        r@.len() <= MAX_RETRIEVED,
{
    broadcast use text::views_push;

    let ghost all = looked_up(packet_view(*packet));
    let mut out: Vec<String> = Vec::new();
    assert(text::views(out@) =~= Seq::empty());
    if let Some(p) = packet {
        if let Some(Json::List(items)) = p.get("memory") {
            assert(all == Json::List(*items)@->List_0);
            for i in 0..items.len()
                invariant
                    all.len() == items@.len(),
                    forall|j: int| 0 <= j < all.len() ==> #[trigger] all[j] == items@[j]@,
                    text::views(out@) == ids_among(all, i as nat),
                    out@.len() <= MAX_RETRIEVED,
            {
                assert(all[i as int] == items@[i as int]@);
                assert(text::views(out@).len() == out@.len());
                if let Some(n) = items[i].text_at("node_id") {
                    if out.len() < MAX_RETRIEVED {
                        out.push(n);
                    }
                }
            }
        }
    }
    out
}

/// The pairs of different places in a list of `n`, those with the same first
/// place next to each other.
pub open spec fn pairs(n: nat, i: nat, j: nat) -> Seq<(usize, usize)>
    decreases n - i, n - j,
{
    if i >= n {
        Seq::empty()
    } else if j >= n {
        pairs(n, i + 1, i + 2)
    } else {
        seq![(i as usize, j as usize)] + pairs(n, i, j + 1)
    }
}

/// The pairs of things that are linked because they were looked up together.
pub fn related_pairs(count: usize) -> (r: Vec<(usize, usize)>)
    requires
        count <= MAX_RETRIEVED,
    ensures
        r@ == pairs(count as nat, 0, 1),
{
    let mut out: Vec<(usize, usize)> = Vec::new();
    let mut i: usize = 0;
    let ghost all = pairs(count as nat, 0, 1);
    assert(out@ + all =~= all);
    while i < count
        invariant
            count <= MAX_RETRIEVED,
            i <= count,
            all == out@ + pairs(count as nat, i as nat, (i + 1) as nat),
        decreases count - i,
    {
        let mut j: usize = i + 1;
        while j < count
            invariant
                count <= MAX_RETRIEVED,
                i < count,
                i < j <= count,
                all == out@ + pairs(count as nat, i as nat, j as nat),
            decreases count - j,
        {
            let ghost before = out@;
            out.push((i, j));
            assert(before + pairs(count as nat, i as nat, j as nat) =~= out@ + pairs(
                count as nat,
                i as nat,
                (j + 1) as nat,
            ));
            j = j + 1;
        }
        i = i + 1;
    }
    assert(out@ + Seq::<(usize, usize)>::empty() =~= out@);
    out
}

proof fn pairs_hold(n: nat, i: nat, j: nat, a: int, b: int)
    requires
        n <= usize::MAX,
        i < j,
    ensures
        pairs(n, i, j).contains((a as usize, b as usize)) && 0 <= a <= usize::MAX && 0 <= b
            <= usize::MAX <==> (0 <= a < b < n && (a > i || (a == i && b >= j))),
    decreases n - i, n - j,
{
    let p = (a as usize, b as usize);
    if i >= n {
    } else if j >= n {
        pairs_hold(n, i + 1, i + 2, a, b);
    } else {
        let rest = pairs(n, i, j + 1);
        pairs_hold(n, i, j + 1, a, b);
        let all = pairs(n, i, j);
        if rest.contains(p) {
            let k = choose|k: int| 0 <= k < rest.len() && rest[k] == p;
            assert(all[k + 1] == p);
        }
        if all.contains(p) && !rest.contains(p) {
            let k = choose|k: int| 0 <= k < all.len() && all[k] == p;
            if k > 0 {
                assert(rest[k - 1] == p);
            }
        }
        if p == (i as usize, j as usize) {
            assert(all[0] == p);
        }
    }
}

/// Every two things that were looked up together are linked, and nothing else.
pub proof fn all_are_linked(n: nat, a: int, b: int)
    requires
        n <= MAX_RETRIEVED,
        0 <= a < n,
        0 <= b < n,
    ensures
        pairs(n, 0, 1).contains((a as usize, b as usize)) <==> a < b,
{
    pairs_hold(n, 0, 1, a, b);
}

/// What tells the user interface what was looked up.
pub fn context_curated(id: &str, conversation_id: &str, packet: &Option<Json>) -> (r: IPCResponse)
    ensures
        r matches IPCResponse::ContextCurated { id: i, conversation_id: c, nodes } && i@ == id@
            && c@ == conversation_id@ && nodes@ == (match packet_view(*packet) {
            Some(p) => match p.get("memory"@) {
                Some(v) => v,
                None => JsonV::List(Seq::empty()),
            },
            None => JsonV::List(Seq::empty()),
        }),
{
    let none = Json::List(Vec::new());
    proof {
        reveal_with_fuel(Json::model, 2);
        assert(none@->List_0 =~= Seq::<JsonV>::empty());
    }
    let nodes = match packet {
        Some(p) => match p.get("memory") {
            Some(v) => v.copy(),
            None => none,
        },
        None => none,
    };
    IPCResponse::ContextCurated {
        id: id.to_owned(),
        conversation_id: conversation_id.to_owned(),
        nodes,
    }
}

// ---------------------------------------------------------------------------
// The user
// ---------------------------------------------------------------------------

/// A fact about the user as the user interface gets it.
pub open spec fn fact_json(f: (Seq<char>, Seq<char>)) -> JsonV {
    JsonV::Object(seq![("key"@, JsonV::Text(f.0)), ("value"@, JsonV::Text(f.1))])
}

/// What tells the user interface the facts about the user.
pub fn user_facts_loaded(
    id: &str,
    conversation_id: &str,
    facts: &Vec<(String, String)>,
) -> (r: IPCResponse)
    ensures
        r matches IPCResponse::UserFactsLoaded { id: i, conversation_id: c, facts: f } && i@ == id@
            && c@ == conversation_id@ && json_views(f@) == turns(facts@).map_values(
            |t: (Seq<char>, Seq<char>)| fact_json(t),
        ),
{
    let ghost want = turns(facts@).map_values(|t: (Seq<char>, Seq<char>)| fact_json(t));
    let mut out: Vec<Json> = Vec::new();
    assert(json_views(out@) =~= want.take(0));
    for i in 0..facts.len()
        invariant
            want == turns(facts@).map_values(|t: (Seq<char>, Seq<char>)| fact_json(t)),
            json_views(out@) == want.take(i as int),
    {
        let j = Json::Object(
            vec![
                ("key".to_owned(), Json::Text(facts[i].0.clone())),
                ("value".to_owned(), Json::Text(facts[i].1.clone())),
            ],
        );
        proof {
            reveal_with_fuel(Json::model, 3);
            assert(turns(facts@)[i as int] == (facts@[i as int].0@, facts@[i as int].1@));
            assert(j@->Object_0 =~= want[i as int]->Object_0);
        }
        let ghost before = out@;
        out.push(j);
        assert(json_views(out@) =~= json_views(before).push(j@));
        assert(want.take(i + 1) =~= want.take(i as int).push(j@));
    }
    assert(want.take(want.len() as int) =~= want);
    IPCResponse::UserFactsLoaded {
        id: id.to_owned(),
        conversation_id: conversation_id.to_owned(),
        facts: out,
    }
}

// ---------------------------------------------------------------------------
// Plugins and the local server
// ---------------------------------------------------------------------------

/// A registered plugin, with whether it is installed and enabled.
#[derive(Debug)]
pub struct RegisteredPlugin {
    pub plugin: ActivePlugin,
    pub installed: bool,
    pub enabled: bool,
}

/// The plugins of a list that are installed and enabled.
pub open spec fn usable(list: Seq<RegisteredPlugin>) -> Seq<ActivePlugin>
    decreases list.len(),
{
    if list.len() == 0 {
        Seq::empty()
    } else {
        let rest = usable(list.skip(1));
        if list[0].installed && list[0].enabled {
            seq![list[0].plugin] + rest
        } else {
            rest
        }
    }
}

/// The plugins that a prompt tells of: those with a server, and then all that
/// are installed and enabled.
pub fn active_plugins(servers: Vec<ActivePlugin>, registered: Vec<RegisteredPlugin>) -> (r: Vec<
    ActivePlugin,
>)
    ensures
        r@ == servers@ + usable(registered@),
{
    let mut out = servers;
    let mut left = registered;
    let ghost all = servers@ + usable(registered@);
    while left.len() > 0
        invariant
            all == out@ + usable(left@),
        decreases left@.len(),
    {
        let ghost before = left@;
        let ghost old_out = out@;
        let p = left.remove(0);
        assert(left@ =~= before.skip(1));
        if p.installed && p.enabled {
            out.push(p.plugin);
            assert(out@ + usable(left@) =~= old_out + usable(before));
        }
    }
    assert(out@ + Seq::<ActivePlugin>::empty() =~= out@);
    out
}

/// The answer where the local server that a model needs could not be started.
pub fn local_server_problem(id: &str, outcome: &Result<bool, String>) -> (r: Option<IPCResponse>)
    ensures
        match *outcome {
            Ok(true) => r is None,
            Ok(false) => r matches Some(a) && is_error(
                a,
                id@,
                "Not enough free RAM to start Ollama. Free at least 6 GiB and try again."@,
            ),
            Err(e) => r matches Some(a) && is_error(a, id@, "Failed to start Ollama: "@ + e@),
        },
{
    match outcome {
        Ok(up) => if *up {
            None
        } else {
            Some(
                error(
                    id,
                    "Not enough free RAM to start Ollama. Free at least 6 GiB and try again.".to_owned(),
                ),
            )
        },
        Err(e) => {
            let mut m = "Failed to start Ollama: ".to_owned();
            m.append(e);
            Some(error(id, m))
        },
    }
}

} // verus!
