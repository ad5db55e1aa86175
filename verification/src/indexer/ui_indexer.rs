//! Indexing the window in front.

use crate::json::{Json, JsonV};
use crate::llm::types::text_view;
use crate::outside;
use crate::text;
use vstd::prelude::*;

verus! {

/// An indexer of windows, with a handle of the memory.
#[derive(Debug)]
pub struct UiIndexer<M> {
    pub memory: M,
}

/// What is kept of a window.
#[derive(Debug)]
pub struct WindowEntry {
    pub metadata: Json,
    pub summary: String,
    pub snapshot: Json,
}

/// The window that was described, if it was and has a title.
pub open spec fn window_in(printed: Seq<char>) -> Option<Seq<char>> {
    let t = text::trim(printed);
    if t.len() == 0 || t == "{}"@ {
        None
    } else {
        match outside::json_member(t, "title"@) {
            Some(title) => if title.len() == 0 {
                None
            } else {
                Some(t)
            },
            None => None,
        }
    }
}

/// The first `n` of some values that could be told, without those that could
/// not.
pub open spec fn told(values: Seq<Option<Json>>, n: nat) -> Seq<JsonV>
    decreases n,
{
    if n == 0 {
        Seq::empty()
    } else {
        let before = told(values, (n - 1) as nat);
        match values[n - 1] {
            Some(v) => before.push(v@),
            None => before,
        }
    }
}

impl<M> UiIndexer<M> {
    /// An indexer of windows.
    pub fn new(memory: M) -> (r: Self)
        ensures
            r.memory == memory,
    {
        UiIndexer { memory }
    }

    /// The description of the window in front, from what was printed; none where
    /// there is no window with a title.
    pub fn capture_window(printed: &[u8]) -> (r: Option<String>)
        ensures
            text_view(r) == window_in(outside::lossy_text(printed@)),
    {
        let t = text::trimmed(&outside::utf8_lossy(printed));
        if t.as_str().is_empty() || text::same(&t, "{}") {
            return None;
        }
        match outside::text_in_json(&t, "title") {
            Some(title) => if title.as_str().is_empty() {
                None
            } else {
                Some(t)
            },
            None => None,
        }
    }

    /// The title of the window in front and its description.
    pub fn capture_and_index(printed: &[u8]) -> (r: Option<(String, String)>)
        ensures
            match window_in(outside::lossy_text(printed@)) {
                Some(t) => r matches Some((title, info)) && info@ == t && Some(title@)
                    == outside::json_member(t, "title"@) && title@.len() > 0,
                None => r is None,
            },
    {
        match Self::capture_window(printed) {
            Some(info) => match outside::text_in_json(&info, "title") {
                Some(title) => Some((title, info)),
                None => None,
            },
            None => None,
        }
    }

    /// What is kept of a window.
    pub fn index_ui_state(window_title: &str, window_info: &str) -> (r: WindowEntry)
        ensures
            r.metadata@ == JsonV::Object(seq![("window_title"@, JsonV::Text(window_title@))]),
            r.summary@ == "UI state for window: "@ + window_title@,
            r.snapshot@ == JsonV::Object(
                seq![
                    ("title"@, JsonV::Text(window_title@)),
                    ("info"@, JsonV::Text(window_info@)),
                ],
            ),
    {
        let metadata = Json::Object(
            vec![("window_title".to_owned(), Json::Text(window_title.to_owned()))],
        );
        let snapshot = Json::Object(
            vec![
                ("title".to_owned(), Json::Text(window_title.to_owned())),
                ("info".to_owned(), Json::Text(window_info.to_owned())),
            ],
        );
        proof {
            reveal_with_fuel(Json::model, 3);
            assert(metadata@->Object_0 =~= seq![("window_title"@, JsonV::Text(window_title@))]);
            assert(snapshot@->Object_0 =~= seq![
                ("title"@, JsonV::Text(window_title@)),
                ("info"@, JsonV::Text(window_info@)),
            ]);
        }
        let mut summary = "UI state for window: ".to_owned();
        summary.append(window_title);
        WindowEntry { metadata, summary, snapshot }
    }

    /// The windows that are told: the first ones, without those that cannot be
    /// told.
    pub fn get_recent_ui_states(states: &Vec<Option<Json>>, limit: usize) -> (r: Vec<Json>)
        ensures
            crate::json::json_views(r@) == told(
                states@,
                if limit < states@.len() {
                    limit as nat
                } else {
                    states@.len()
                },
            ),
    {
        let n: usize = if limit < states.len() {
            limit
        } else {
            states.len()
        };
        let mut out: Vec<Json> = Vec::new();
        assert(crate::json::json_views(out@) =~= Seq::empty());
        for i in 0..n
            invariant
                n <= states@.len(),
                crate::json::json_views(out@) == told(states@, i as nat),
        {
            if let Some(v) = &states[i] {
                let c = v.copy();
                let ghost before = out@;
                out.push(c);
                assert(crate::json::json_views(out@) =~= crate::json::json_views(before).push(c@));
            }
        }
        out
    }
}

} // verus!
