//! Snapshots of the accessibility tree of a window. Each element that a
//! snapshot shows gets an id, by which later actions find it again.

use crate::computer_use::actions::WINDOWS_ONLY;
use crate::text;
use vstd::prelude::*;

verus! {

/// How deep a snapshot goes below the window.
pub const MAX_DEPTH: usize = 12;

/// How many elements a search gives.
pub const MAX_HITS: usize = 10;

/// An element as the desktop describes it; what it refused to tell is absent.
#[derive(Debug)]
pub struct UiElement {
    /// The place of the element among those that the desktop handed out.
    pub handle: usize,
    pub offscreen: bool,
    pub role: Option<String>,
    pub name: Option<String>,
    pub bounds: Option<[i32; 4]>,
    pub value: Option<String>,
    pub accelerator: Option<String>,
    pub can_invoke: bool,
    pub can_toggle: bool,
    pub can_select: bool,
    pub can_edit: bool,
    pub children: Vec<UiElement>,
}

/// An element as a snapshot shows it.
#[derive(Debug)]
pub struct UiNode {
    pub id: String,
    pub role: String,
    pub name: String,
    pub value: Option<String>,
    pub bounds: [i32; 4],
    pub shortcut: Option<String>,
    pub invoke_hint: Option<String>,
    pub children: Vec<UiNode>,
}

/// The model of a node.
#[verifier::ext_equal]
pub struct NodeV {
    pub id: Seq<char>,
    pub role: Seq<char>,
    pub name: Seq<char>,
    pub value: Option<Seq<char>>,
    pub bounds: [i32; 4],
    pub shortcut: Option<Seq<char>>,
    pub invoke_hint: Option<Seq<char>>,
    pub children: Seq<NodeV>,
}

impl UiNode {
    /// The model of a node.
    pub open spec fn model(self) -> NodeV
        decreases self,
    {
        NodeV {
            id: self.id@,
            role: self.role@,
            name: self.name@,
            value: opt(self.value),
            bounds: self.bounds,
            shortcut: opt(self.shortcut),
            invoke_hint: opt(self.invoke_hint),
            children: Seq::new(
                self.children@.len(),
                |i: int|
                    if 0 <= i < self.children@.len() {
                        self.children@[i].model()
                    } else {
                        arbitrary()
                    },
            ),
        }
    }
}

/// The models of a list of nodes.
pub open spec fn node_views(nodes: Seq<UiNode>) -> Seq<NodeV> {
    nodes.map_values(|n: UiNode| n.model())
}

/// The model of an optional string.
pub open spec fn opt(s: Option<String>) -> Option<Seq<char>> {
    match s {
        Some(v) => Some(v@),
        None => None,
    }
}

/// An optional text, unless it is empty.
pub open spec fn non_empty(s: Option<String>) -> Option<Seq<char>> {
    match s {
        Some(v) => if v@.len() == 0 {
            None
        } else {
            Some(v@)
        },
        None => None,
    }
}

/// The elements that the last snapshot gave an id to, by their handles. The
/// one at place `i` has the id `e` followed by `i`.
#[derive(Debug)]
pub struct Registry {
    pub handles: Vec<usize>,
}

/// The id of the element at a place of the registry.
pub open spec fn element_id(i: nat) -> Seq<char> {
    "e"@ + text::decimal(i)
}

impl Registry {
    /// The element with an id.
    pub open spec fn element(self, id: Seq<char>) -> Option<usize> {
        if exists|i: int| 0 <= i < self.handles@.len() && id == #[trigger] element_id(i as nat) {
            let i = choose|i: int|
                0 <= i < self.handles@.len() && id == #[trigger] element_id(i as nat);
            Some(self.handles@[i])
        } else {
            None
        }
    }
}

proof fn decimal_not_empty(n: nat)
    ensures
        text::decimal(n).len() > 0,
{
}

proof fn decimal_injective(a: nat, b: nat)
    requires
        text::decimal(a) == text::decimal(b),
    ensures
        a == b,
    decreases a,
{
    let x = text::decimal(a);
    let y = text::decimal(b);
    assert(x.last() == y.last());
    assert(x.last() == text::digit(a % 10));
    assert(y.last() == text::digit(b % 10));
    assert(a % 10 == b % 10);
    if a >= 10 && b >= 10 {
        assert(x.drop_last() =~= text::decimal(a / 10));
        assert(y.drop_last() =~= text::decimal(b / 10));
        decimal_injective(a / 10, b / 10);
    } else if a >= 10 {
        decimal_not_empty(a / 10);
        assert(x.len() > 1);
    } else if b >= 10 {
        decimal_not_empty(b / 10);
        assert(y.len() > 1);
    }
}

/// No two elements of a snapshot have one id.
pub proof fn ids_are_distinct(i: nat, j: nat)
    requires
        element_id(i) == element_id(j),
    ensures
        i == j,
{
    let e = "e"@;
    assert(element_id(i).skip(e.len() as int) =~= text::decimal(i));
    assert(element_id(j).skip(e.len() as int) =~= text::decimal(j));
    decimal_injective(i, j);
}

/// The id that a snapshot gave to an element leads back to it.
pub proof fn id_finds_its_element(r: Registry, i: int)
    requires
        0 <= i < r.handles@.len(),
    ensures
        r.element(element_id(i as nat)) == Some(r.handles@[i]),
{
    let id = element_id(i as nat);
    let k = choose|k: int| 0 <= k < r.handles@.len() && id == #[trigger] element_id(k as nat);
    ids_are_distinct(i as nat, k as nat);
}

/// A registry without elements.
pub fn reset_registry() -> (r: Registry)
    ensures
        r.handles@ == Seq::<usize>::empty(),
{
    Registry { handles: Vec::new() }
}

/// The id that the next element will get.
fn next_id(registry: &Registry) -> (r: String)
    ensures
        r@ == element_id(registry.handles@.len()),
{
    let mut id = "e".to_owned();
    id.append(&text::number(registry.handles.len() as u64));
    id
}

/// Gives an id to an element.
pub fn stash(registry: &mut Registry, handle: usize) -> (r: String)
    ensures
        final(registry).handles@ == old(registry).handles@.push(handle),
        r@ == element_id(old(registry).handles@.len()),
{
    let id = next_id(registry);
    registry.handles.push(handle);
    id
}

/// The element with an id.
pub fn element_for_id(registry: &Registry, id: &str) -> (r: Option<usize>)
    ensures
        r == registry.element(id@),
{
    for i in 0..registry.handles.len()
        invariant
            forall|j: int| 0 <= j < i ==> id@ != #[trigger] element_id(j as nat),
    {
        let mut known = "e".to_owned();
        known.append(&text::number(i as u64));
        if text::same(id, &known) {
            proof {
                id_finds_its_element(*registry, i as int);
            }
            return Some(registry.handles[i]);
        }
    }
    None
}

/// What an element invites to.
pub open spec fn hint(el: UiElement) -> Option<Seq<char>> {
    if el.can_invoke {
        Some("click"@)
    } else if el.can_toggle {
        Some("toggle"@)
    } else if el.can_select {
        Some("select"@)
    } else if el.can_edit {
        Some("edit"@)
    } else {
        None
    }
}

/// The handles that a snapshot of an element registers, in the order of the ids.
pub open spec fn visited(el: UiElement, depth: nat, max_depth: nat, offscreen_too: bool) -> Seq<
    usize,
>
    decreases max_depth - depth + 1, 0nat,
{
    if el.offscreen && !offscreen_too {
        Seq::empty()
    } else if depth < max_depth {
        seq![el.handle] + visited_list(el.children@, depth + 1, max_depth, offscreen_too)
    } else {
        seq![el.handle]
    }
}

/// The handles that a snapshot of a list of elements registers.
pub open spec fn visited_list(
    els: Seq<UiElement>,
    depth: nat,
    max_depth: nat,
    offscreen_too: bool,
) -> Seq<usize>
    decreases max_depth - depth + 1, els.len() + 1,
{
    if els.len() == 0 {
        Seq::empty()
    } else if depth <= max_depth {
        visited_list(els.drop_last(), depth, max_depth, offscreen_too) + visited(
            els.last(),
            depth,
            max_depth,
            offscreen_too,
        )
    } else {
        Seq::empty()
    }
}

/// What a snapshot shows of an element, if the next id is that of `first`.
pub open spec fn shown(
    el: UiElement,
    depth: nat,
    max_depth: nat,
    offscreen_too: bool,
    first: nat,
) -> Option<NodeV>
    decreases max_depth - depth + 1, 0nat,
{
    if el.offscreen && !offscreen_too {
        None
    } else {
        Some(
            NodeV {
                id: element_id(first),
                role: match el.role {
                    Some(r) => r@,
                    None => "Unknown"@,
                },
                name: match el.name {
                    Some(n) => n@,
                    None => Seq::empty(),
                },
                value: non_empty(el.value),
                bounds: match el.bounds {
                    Some(b) => b,
                    None => [0i32, 0i32, 0i32, 0i32],
                },
                shortcut: non_empty(el.accelerator),
                invoke_hint: hint(el),
                children: if depth < max_depth {
                    shown_list(el.children@, depth + 1, max_depth, offscreen_too, first + 1)
                } else {
                    Seq::empty()
                },
            },
        )
    }
}

/// What a snapshot shows of a list of elements.
pub open spec fn shown_list(
    els: Seq<UiElement>,
    depth: nat,
    max_depth: nat,
    offscreen_too: bool,
    first: nat,
) -> Seq<NodeV>
    decreases max_depth - depth + 1, els.len() + 1,
{
    if els.len() == 0 || depth > max_depth {
        Seq::empty()
    } else {
        let front = els.drop_last();
        let before = shown_list(front, depth, max_depth, offscreen_too, first);
        let next = first + visited_list(front, depth, max_depth, offscreen_too).len();
        match shown(els.last(), depth, max_depth, offscreen_too, next) {
            Some(n) => before.push(n),
            None => before,
        }
    }
}

fn keep_text(s: &Option<String>) -> (r: Option<String>)
    ensures
        opt(r) == non_empty(*s),
{
    match s {
        Some(v) => if v.as_str().is_empty() {
            None
        } else {
            Some(v.clone())
        },
        None => None,
    }
}

fn hint_of(el: &UiElement) -> (r: Option<String>)
    ensures
        opt(r) == hint(*el),
{
    if el.can_invoke {
        Some("click".to_owned())
    } else if el.can_toggle {
        Some("toggle".to_owned())
    } else if el.can_select {
        Some("select".to_owned())
    } else if el.can_edit {
        Some("edit".to_owned())
    } else {
        None
    }
}

/// The snapshot of an element and of what is below it. An element that is off
/// the screen is left out with all below it, unless those are asked for.
pub fn serialize(
    el: &UiElement,
    depth: usize,
    max_depth: usize,
    include_offscreen: bool,
    registry: &mut Registry,
) -> (r: Option<UiNode>)
    requires
        depth <= max_depth < usize::MAX,
    ensures
        match r {
            Some(n) => shown(
                *el,
                depth as nat,
                max_depth as nat,
                include_offscreen,
                old(registry).handles@.len(),
            ) == Some(n.model()),
            None => shown(
                *el,
                depth as nat,
                max_depth as nat,
                include_offscreen,
                old(registry).handles@.len(),
            ) is None,
        },
        final(registry).handles@ == old(registry).handles@ + visited(
            *el,
            depth as nat,
            max_depth as nat,
            include_offscreen,
        ),
    decreases max_depth - depth,
{
    let ghost start = registry.handles@;
    if el.offscreen && !include_offscreen {
        assert(start + Seq::<usize>::empty() =~= start);
        return None;
    }
    let id = stash(registry, el.handle);
    let role = match &el.role {
        Some(r) => r.clone(),
        None => "Unknown".to_owned(),
    };
    let name = match &el.name {
        Some(n) => n.clone(),
        None => String::new(),
    };
    let bounds = match el.bounds {
        Some(b) => b,
        None => [0i32, 0i32, 0i32, 0i32],
    };
    let mut children: Vec<UiNode> = Vec::new();
    let ghost els = el.children@;
    let ghost d = (depth + 1) as nat;
    let ghost m = max_depth as nat;
    let ghost base = registry.handles@;
    if depth < max_depth {
        assert(els.take(0) =~= Seq::empty());
        assert(node_views(children@) =~= Seq::empty());
        assert(base + Seq::<usize>::empty() =~= base);
        for i in 0..el.children.len()
            invariant
                els == el.children@,
                d == depth + 1,
                m == max_depth,
                depth < max_depth < usize::MAX,
                node_views(children@) == shown_list(
                    els.take(i as int),
                    d,
                    m,
                    include_offscreen,
                    base.len(),
                ),
                registry.handles@ == base + visited_list(
                    els.take(i as int),
                    d,
                    m,
                    include_offscreen,
                ),
        {
            let ghost before = registry.handles@;
            let ghost kept = children@;
            proof {
                assert(els.take(i + 1).drop_last() =~= els.take(i as int));
                assert(els.take(i + 1).last() == els[i as int]);
            }
            if let Some(node) = serialize(
                &el.children[i],
                depth + 1,
                max_depth,
                include_offscreen,
                registry,
            ) {
                children.push(node);
                assert(node_views(children@) =~= node_views(kept).push(node.model()));
            }
            proof {
                let more = visited(els[i as int], d, m, include_offscreen);
                let done = visited_list(els.take(i as int), d, m, include_offscreen);
                assert(base + done + more =~= base + (done + more));
            }
        }
        assert(els.take(els.len() as int) =~= els);
        proof {
            let done = visited_list(els, d, m, include_offscreen);
            assert(start.push(el.handle) + done =~= start + (seq![el.handle] + done));
        }
    } else {
        assert(start.push(el.handle) =~= start + seq![el.handle]);
        assert(node_views(children@) =~= Seq::empty());
    }
    let node = UiNode {
        id,
        role,
        name,
        value: keep_text(&el.value),
        bounds,
        shortcut: keep_text(&el.accelerator),
        invoke_hint: hint_of(el),
        children,
    };
    assert(node.model().children =~= node_views(children@));
    Some(node)
}

pub const EMPTY_TREE: &'static str = "empty tree";

/// The snapshot of the window in front, where there is no desktop.
pub fn snapshot_foreground(include_offscreen: bool) -> (r: Result<UiNode, String>)
    ensures
        r matches Err(e) && e@ == WINDOWS_ONLY@,
{
    Err(WINDOWS_ONLY.to_owned())
}

/// The snapshot of a window with a title, where there is no desktop.
pub fn snapshot_window(title_substr: &str) -> (r: Result<UiNode, String>)
    ensures
        r matches Err(e) && e@ == WINDOWS_ONLY@,
{
    Err(WINDOWS_ONLY.to_owned())
}

/// The snapshot of a window. The ids of the one before are given up.
pub fn snapshot(
    root: &UiElement,
    include_offscreen: bool,
    registry: &mut Registry,
) -> (r: Result<UiNode, String>)
    ensures
        final(registry).handles@ == visited(*root, 0, MAX_DEPTH as nat, include_offscreen),
        match r {
            Ok(n) => shown(*root, 0, MAX_DEPTH as nat, include_offscreen, 0) == Some(n.model()),
            Err(e) => shown(*root, 0, MAX_DEPTH as nat, include_offscreen, 0) is None && e@
                == EMPTY_TREE@,
        },
{
    *registry = reset_registry();
    let r = serialize(root, 0, MAX_DEPTH, include_offscreen, registry);
    proof {
        let v = visited(*root, 0, MAX_DEPTH as nat, include_offscreen);
        assert(Seq::<usize>::empty() + v =~= v);
    }
    match r {
        Some(n) => Ok(n),
        None => Err(EMPTY_TREE.to_owned()),
    }
}

/// An element of the last snapshot, by its name and its kind.
#[derive(Debug)]
pub struct UiHit {
    pub id: String,
    pub name: String,
    pub role: String,
}

/// The places of the first elements of a list whose names hold a query, in
/// any case; at most `most` of them.
pub open spec fn hits(elements: Seq<UiHit>, query: Seq<char>, most: nat) -> Seq<int>
    decreases elements.len(),
{
    if elements.len() == 0 {
        Seq::empty()
    } else {
        let before = hits(elements.drop_last(), query, most);
        if before.len() < most && text::occurs(
            text::lower(elements.last().name@),
            text::lower(query),
        ) {
            before.push(elements.len() - 1)
        } else {
            before
        }
    }
}

/// The first ten elements of the last snapshot whose names hold `query`, in
/// any case.
pub fn find_element(elements: &Vec<UiHit>, query: &str) -> (r: Vec<usize>)
    ensures
        r@.map_values(|i: usize| i as int) == hits(elements@, query@, MAX_HITS as nat),
{
    let q = text::to_lower(query);
    let mut out: Vec<usize> = Vec::new();
    assert(elements@.take(0) =~= Seq::empty());
    assert(out@.map_values(|i: usize| i as int) =~= Seq::empty());
    for i in 0..elements.len()
        invariant
            q@ == text::lower(query@),
            out@.map_values(|i: usize| i as int) == hits(
                elements@.take(i as int),
                query@,
                MAX_HITS as nat,
            ),
    {
        proof {
            assert(elements@.take(i + 1).drop_last() =~= elements@.take(i as int));
        }
        if out.len() < MAX_HITS && text::contains(&text::to_lower(&elements[i].name), &q) {
            let ghost before = out@;
            out.push(i);
            assert(out@.map_values(|i: usize| i as int) =~= before.map_values(
                |i: usize| i as int,
            ).push(i as int));
        }
    }
    assert(elements@.take(elements@.len() as int) =~= elements@);
    out
}

} // verus!
