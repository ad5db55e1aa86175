//! What is decided when the program starts.

use crate::llm::types::{text_view, LLMConfig, LLMConfigV};
use crate::text;
use vstd::prelude::*;

verus! {

/// How often the window in front is looked at where nothing is said, in seconds.
pub const DEFAULT_POLL_SECS: u64 = 30;

/// A text, or another one where it is blank.
pub open spec fn said(t: Seq<char>, other: Seq<char>) -> Seq<char> {
    if text::blank(t) {
        other
    } else {
        t
    }
}

/// A configuration with what was saved in place of what is set: the key, the
/// address, the model and the key for embeddings, each unless it is blank.
pub open spec fn merged(c: LLMConfigV, saved: Option<LLMConfigV>) -> LLMConfigV {
    match saved {
        Some(s) => LLMConfigV {
            api_key: said(s.api_key, c.api_key),
            base_url: said(s.base_url, c.base_url),
            model: said(s.model, c.model),
            embedding_api_key: said(s.embedding_api_key, c.embedding_api_key),
            ..c
        },
        None => c,
    }
}

/// Puts what was saved into a configuration.
pub fn merge_config(config: &mut LLMConfig, saved: Option<LLMConfig>)
    ensures
        final(config)@ == merged(
            old(config)@,
            match saved {
                Some(s) => Some(s@),
                None => None,
            },
        ),
{
    if let Some(s) = saved {
        if !text::is_blank(&s.api_key) {
            config.api_key = s.api_key;
        }
        if !text::is_blank(&s.base_url) {
            config.base_url = s.base_url;
        }
        if !text::is_blank(&s.model) {
            config.model = s.model;
        }
        if !text::is_blank(&s.embedding_api_key) {
            config.embedding_api_key = s.embedding_api_key;
        }
    }
}

/// How often the window in front is looked at, in seconds.
pub open spec fn poll_interval(setting: Option<Seq<char>>) -> u64 {
    match setting {
        Some(v) => match text::unsigned_value(v, u64::MAX as nat) {
            Some(n) => n as u64,
            None => DEFAULT_POLL_SECS,
        },
        None => DEFAULT_POLL_SECS,
    }
}

/// How often the window in front is looked at, in seconds.
pub fn poll_seconds(setting: &Option<String>) -> (r: u64)
    ensures
        r == poll_interval(text_view(*setting)),
{
    match setting {
        Some(v) => match text::parse_unsigned(v, u64::MAX) {
            Some(n) => n,
            None => DEFAULT_POLL_SECS,
        },
        None => DEFAULT_POLL_SECS,
    }
}

/// What is saved wins over what is set, and saving it again changes nothing.
pub proof fn saved_settings_settle(c: LLMConfigV, s: LLMConfigV)
    ensures
        merged(merged(c, Some(s)), Some(s)) == merged(c, Some(s)),
        !text::blank(s.api_key) ==> merged(c, Some(s)).api_key == s.api_key,
        !text::blank(s.model) ==> merged(c, Some(s)).model == s.model,
        merged(c, None) == c,
{
}

} // verus!
