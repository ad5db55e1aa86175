//! Indexing pages of the web.

use crate::json::{Json, JsonV};
use crate::text;
use vstd::prelude::*;

verus! {

/// How many lines of a page make up its summary.
pub const SUMMARY_LINES: usize = 12;

/// How many characters of a page are kept as its excerpt.
pub const EXCERPT_CHARS: usize = 1200;

/// An indexer of pages, with a handle of the memory.
#[derive(Debug)]
pub struct BrowserIndexer<M> {
    pub memory: M,
}

/// What is kept of a page.
#[derive(Debug)]
pub struct PageEntry {
    /// What is noted of a page that is new.
    pub metadata: Json,
    pub summary: String,
    pub structure: String,
    pub tags: Vec<String>,
    /// The text that the page is found by.
    pub summary_text: String,
    /// The start of the page, unless it is empty.
    pub excerpt: Option<String>,
}

/// The lines among the first `n` that are not blank, up to twelve.
pub open spec fn inked_lines(lines: Seq<Seq<char>>, n: nat) -> Seq<Seq<char>>
    decreases n,
{
    if n == 0 {
        Seq::empty()
    } else {
        let before = inked_lines(lines, (n - 1) as nat);
        if before.len() < SUMMARY_LINES && !text::blank(lines[n - 1]) {
            before.push(lines[n - 1])
        } else {
            before
        }
    }
}

/// The summary of a page: its first lines that are not blank.
pub open spec fn page_summary(content: Seq<char>) -> Seq<char> {
    let lines = text::lines(content);
    text::join(inked_lines(lines, lines.len()), " "@)
}

fn summarize(content: &str) -> (r: String)
    ensures
        r@ == page_summary(content@),
{
    broadcast use text::views_push;

    let lines = text::split_lines(content);
    let ghost all = text::views(lines@);
    let mut out: Vec<String> = Vec::new();
    assert(text::views(out@) =~= Seq::empty());
    assert(all.len() == lines@.len());
    for i in 0..lines.len()
        invariant
            all == text::views(lines@),
            text::views(out@) == inked_lines(all, i as nat),
    {
        assert(all[i as int] == lines@[i as int]@);
        assert(text::views(out@).len() == out@.len());
        if out.len() < SUMMARY_LINES && !text::is_blank(&lines[i]) {
            out.push(lines[i].clone());
        }
    }
    text::joined(&out, " ")
}

/// What is noted of a node names the address.
pub open spec fn is_at_url(metadata: Option<Json>, url: Seq<char>) -> bool {
    match metadata {
        Some(m) => m@.text_at("url"@) == Some(url),
        None => false,
    }
}

impl<M> BrowserIndexer<M> {
    /// An indexer of pages.
    pub fn new(memory: M) -> (r: Self)
        ensures
            r.memory == memory,
    {
        BrowserIndexer { memory }
    }

    /// The first of the pages with a title that has the address.
    pub fn find_page(found: &Vec<Option<Json>>, url: &str) -> (r: Option<usize>)
        ensures
            match r {
                Some(i) => i < found@.len() && is_at_url(found@[i as int], url@) && forall|j: int|
                    0 <= j < i ==> !is_at_url(#[trigger] found@[j], url@),
                None => forall|j: int|
                    0 <= j < found@.len() ==> !is_at_url(#[trigger] found@[j], url@),
            },
    {
        for i in 0..found.len()
            invariant
                forall|j: int| 0 <= j < i ==> !is_at_url(#[trigger] found@[j], url@),
        {
            if let Some(m) = &found[i] {
                if let Some(u) = m.text_at("url") {
                    if text::same(&u, url) {
                        return Some(i);
                    }
                }
            }
        }
        None
    }

    /// What is kept of a page.
    pub fn index_url(url: &str, title: &str, content: &str) -> (r: PageEntry)
        ensures
            r.metadata@ == JsonV::Object(seq![("url"@, JsonV::Text(url@))]),
            r.summary@ == page_summary(content@),
            r.structure@ == "URL: "@ + url@ + "\nTitle: "@ + title@,
            text::views(r.tags@) == seq!["web"@, "browser"@],
            r.summary_text@ == url@ + " "@ + title@ + " "@ + page_summary(content@),
            match r.excerpt {
                Some(e) => content@.len() > 0 && e@ == text::head(content@, EXCERPT_CHARS as nat),
                None => content@.len() == 0,
            },
    {
        let metadata = Json::Object(vec![("url".to_owned(), Json::Text(url.to_owned()))]);
        proof {
            reveal_with_fuel(Json::model, 3);
            assert(metadata@->Object_0 =~= seq![("url"@, JsonV::Text(url@))]);
        }
        let summary = summarize(content);
        let mut structure = "URL: ".to_owned();
        structure.append(url);
        structure.append("\nTitle: ");
        structure.append(title);
        let mut summary_text = url.to_owned();
        summary_text.append(" ");
        summary_text.append(title);
        summary_text.append(" ");
        summary_text.append(&summary);
        let mut tags: Vec<String> = Vec::new();
        tags.push("web".to_owned());
        tags.push("browser".to_owned());
        assert(text::views(tags@) =~= seq!["web"@, "browser"@]);
        let excerpt = if content.is_empty() {
            None
        } else {
            Some(text::take_chars(content, EXCERPT_CHARS))
        };
        PageEntry { metadata, summary, structure, tags, summary_text, excerpt }
    }
}

} // verus!
