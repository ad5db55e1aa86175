//! The choice of the cheapest model that a provider lists. Work on the side,
//! such as finding a title, goes to that model.

use crate::llm::types::text_view;
use crate::strmap::StrMap;
use crate::text;
use vstd::prelude::*;

verus! {

/// How long a choice is remembered, in milliseconds.
pub const CACHE_TTL_MS: u64 = 3_600_000;

/// What the names of cheap models hold, from the cheapest on.
pub open spec fn cheap_hints() -> Seq<Seq<char>> {
    seq![
        "nova-fast"@,
        "openai-fast"@,
        "haiku"@,
        "nano"@,
        "mini"@,
        "flash-lite"@,
        "flash"@,
        "small"@,
        "fast"@,
        "turbo"@,
        "8b"@,
        "7b"@,
        "3b"@,
    ]
}

/// A model that a provider lists.
#[derive(Debug, Clone)]
pub struct ModelEntry {
    pub id: String,
}

/// The name of the model at `i` holds the hint `h`, in any case.
pub open spec fn hinted(entries: Seq<ModelEntry>, i: int, h: Seq<char>) -> bool {
    text::occurs(text::lower(entries[i].id@), h)
}

/// The model at `i` is the first one with the hint at `k`, and no model has
/// an earlier hint.
pub open spec fn is_cheapest(entries: Seq<ModelEntry>, i: int, k: int) -> bool {
    &&& 0 <= i < entries.len()
    &&& 0 <= k < cheap_hints().len()
    &&& hinted(entries, i, cheap_hints()[k])
    &&& forall|j: int| 0 <= j < i ==> !#[trigger] hinted(entries, j, cheap_hints()[k])
    &&& forall|j: int, h: int|
        0 <= j < entries.len() && 0 <= h < k ==> !#[trigger] hinted(entries, j, cheap_hints()[h])
}

/// What the choice among the listed models is.
pub open spec fn ranked(entries: Seq<ModelEntry>, r: Option<Seq<char>>) -> bool {
    match r {
        Some(id) => exists|i: int, k: int| #[trigger]
            is_cheapest(entries, i, k) && id == entries[i].id@,
        None => forall|j: int, h: int|
            0 <= j < entries.len() && 0 <= h < cheap_hints().len() ==> !#[trigger] hinted(
                entries,
                j,
                cheap_hints()[h],
            ),
    }
}

/// The cheapest of the listed models, if the name of one tells.
pub fn rank_cheapest(entries: &[ModelEntry]) -> (r: Option<String>)
    ensures
        ranked(entries@, text_view(r)),
{
    let hints = [
        "nova-fast",
        "openai-fast",
        "haiku",
        "nano",
        "mini",
        "flash-lite",
        "flash",
        "small",
        "fast",
        "turbo",
        "8b",
        "7b",
        "3b",
    ];
    assert(text::slice_views(hints@) =~= cheap_hints());
    for k in 0..hints.len()
        invariant
            text::slice_views(hints@) == cheap_hints(),
            forall|j: int, h: int|
                0 <= j < entries@.len() && 0 <= h < k ==> !#[trigger] hinted(
                    entries@,
                    j,
                    cheap_hints()[h],
                ),
    {
        assert(text::slice_views(hints@)[k as int] == hints@[k as int]@);
        for i in 0..entries.len()
            invariant
                0 <= k < cheap_hints().len(),
                text::slice_views(hints@) == cheap_hints(),
                hints@[k as int]@ == cheap_hints()[k as int],
                hints@.len() == cheap_hints().len(),
                forall|j: int, h: int|
                    0 <= j < entries@.len() && 0 <= h < k ==> !#[trigger] hinted(
                        entries@,
                        j,
                        cheap_hints()[h],
                    ),
                forall|j: int|
                    0 <= j < i ==> !#[trigger] hinted(entries@, j, cheap_hints()[k as int]),
        {
            if text::contains(&text::to_lower(&entries[i].id), hints[k]) {
                assert(hinted(entries@, i as int, cheap_hints()[k as int]));
                assert(is_cheapest(entries@, i as int, k as int));
                return Some(entries[i].id.clone());
            }
        }
    }
    None
}

/// A choice, and when it was made.
#[derive(Debug)]
pub struct CachedPick {
    pub model: Option<String>,
    pub at_ms: u64,
}

/// How long it may take to list the models of a provider, in seconds.
pub const LIST_SECS: u64 = 5;

/// The choices that are remembered, by the address of the provider.
#[derive(Debug)]
pub struct ModelCache {
    pub picks: StrMap<CachedPick>,
}

/// What is to be done to find the cheapest model of a provider.
#[derive(Debug)]
pub enum CheapestStep {
    /// The choice is remembered.
    Known(Option<String>),
    /// The list is to be fetched from `url`, with a bearer token if any.
    /// It may take so long.
    Ask { key: String, url: String, bearer: Option<String>, timeout_secs: u64 },
}

/// The address of a provider, without slashes at its end.
pub open spec fn provider_key(base_url: Seq<char>) -> Seq<char> {
    text::strip_end(base_url, '/')
}

impl ModelCache {
    /// The choice for `key` is remembered and not too old at `now_ms`.
    pub open spec fn fresh(self, key: Seq<char>, now_ms: u64) -> bool {
        self.picks@.contains_key(key) && now_ms - self.picks@[key].at_ms < CACHE_TTL_MS
    }

    /// A cache that remembers nothing.
    pub fn new() -> (r: Self)
        ensures
            r.picks@ == Map::<Seq<char>, CachedPick>::empty(),
    {
        ModelCache { picks: StrMap::new() }
    }

    /// What is to be done at `now_ms` to find the cheapest model at `base_url`.
    pub fn cheapest_model(&self, base_url: &str, api_key: &str, now_ms: u64) -> (r: CheapestStep)
        ensures
            match r {
                CheapestStep::Known(model) => {
                    &&& self.fresh(provider_key(base_url@), now_ms)
                    &&& model == self.picks@[provider_key(base_url@)].model
                },
                CheapestStep::Ask { key, url, bearer, timeout_secs } => {
                    &&& !self.fresh(provider_key(base_url@), now_ms)
                    &&& key@ == provider_key(base_url@)
                    &&& url@ == key@ + "/models"@
                    &&& timeout_secs == LIST_SECS
                    &&& text_view(bearer) == (if text::blank(api_key@) {
                        None
                    } else {
                        Some("Bearer "@ + api_key@)
                    })
                },
            },
    {
        let key = text::stripped_end(base_url, '/');
        if let Some(hit) = self.picks.get(&key) {
            if now_ms < hit.at_ms || now_ms - hit.at_ms < CACHE_TTL_MS {
                return CheapestStep::Known(hit.model.clone());
            }
        }
        let mut url = key.clone();
        url.append("/models");
        let bearer = if text::is_blank(api_key) {
            None
        } else {
            let mut b = "Bearer ".to_owned();
            b.append(api_key);
            Some(b)
        };
        CheapestStep::Ask { key, url, bearer, timeout_secs: LIST_SECS }
    }

    /// Remembers, from `now_ms` on, the choice among the listed models, or
    /// that there was no list.
    pub fn note_reply(
        &mut self,
        key: String,
        listed: Option<&[ModelEntry]>,
        now_ms: u64,
    ) -> (r: Option<String>)
        ensures
            match listed {
                Some(entries) => ranked(entries@, text_view(r)),
                None => r is None,
            },
            final(self).picks@.contains_key(key@),
            text_view(final(self).picks@[key@].model) == text_view(r),
            final(self).picks@[key@].at_ms == now_ms,
            final(self).picks@ == old(self).picks@.insert(key@, final(self).picks@[key@]),
    {
        let pick = match listed {
            Some(entries) => rank_cheapest(entries),
            None => None,
        };
        self.picks.insert(key, CachedPick { model: pick.clone(), at_ms: now_ms });
        pick
    }
}

/// A choice that was noted is what the next question for it gives, until it
/// is too old.
pub proof fn noted_choice_is_known(
    before: Map<Seq<char>, CachedPick>,
    after: ModelCache,
    key: Seq<char>,
    noted_ms: u64,
    now_ms: u64,
)
    requires
        after.picks@.contains_key(key),
        after.picks@ == before.insert(key, after.picks@[key]),
        after.picks@[key].at_ms == noted_ms,
    ensures
        after.fresh(key, now_ms) <==> now_ms - noted_ms < CACHE_TTL_MS,
{
}

} // verus!
