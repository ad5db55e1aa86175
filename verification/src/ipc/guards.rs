//! What a chat message passes through before it reaches the model.

use crate::llm::types::{message_views, message_views_push, Message, MessageV};
use crate::text;
use vstd::prelude::*;

verus! {

/// The longest content that is passed on whole, in characters.
pub const MAX_CHAT_CHARS: usize = 12_000;

/// How much of the front of a longer content is kept.
pub const HEAD_KEEP_CHARS: usize = 7_000;

/// How much of the end of a longer content is kept.
pub const TAIL_KEEP_CHARS: usize = 2_000;

pub const EMPTY_AFTER_TRIMMING: &'static str = "Message is empty after trimming";

pub const EMPTY_AFTER_SANITIZATION: &'static str = "Message is empty after sanitization";

pub const REPEATED_LINES: &'static str =
    "Repeated lines were compacted to avoid looped context.";

pub const TOO_LONG: &'static str = "Input exceeded 12000 characters and was truncated.";

pub const REPETITIVE: &'static str =
    "Highly repetitive content detected; context was compacted.";

pub const TRUNCATION_MARK: &'static str = "[... truncated to avoid runaway context ...]";

pub const COMPACTION_MARK: &'static str = "[... repetitive content compacted ...]";

pub const SYSTEM_PROMPT: &'static str =
    "You are Rook. Avoid repetitive or looped replies. Use only relevant context. If the request is missing context, say what is missing instead of guessing. Be concise and actionable.";

/// A message that is fit to be sent, and what was done to it.
#[derive(Debug, Clone)]
pub struct SanitizedChatInput {
    pub content: String,
    pub warnings: Vec<String>,
}

/// The model of a sanitized message.
pub struct SanitizedV {
    pub content: Seq<char>,
    pub warnings: Seq<Seq<char>>,
}

impl View for SanitizedChatInput {
    type V = SanitizedV;

    open spec fn view(&self) -> SanitizedV {
        SanitizedV { content: self.content@, warnings: text::views(self.warnings@) }
    }
}

/// A text with its line ends written as line feeds.
pub open spec fn unix_newlines(s: Seq<char>) -> Seq<char> {
    text::replace(text::replace(s, "\r\n"@, "\n"@), "\r"@, "\n"@)
}

/// A line with one space between its words and none around them.
pub open spec fn squeeze(line: Seq<char>) -> Seq<char> {
    text::join(text::words(line), " "@)
}

/// How far the lines of a message have been compacted.
#[verifier::ext_equal]
pub struct Compaction {
    /// The lines that are kept.
    pub kept: Seq<Seq<char>>,
    /// The last line that differed from the one before it.
    pub previous: Seq<char>,
    /// How often `previous` has been repeated.
    pub repeated: nat,
    /// Whether a repeated line was dropped.
    pub dropped: bool,
}

/// Compaction before the first line.
pub open spec fn no_lines() -> Compaction {
    Compaction { kept: Seq::empty(), previous: Seq::empty(), repeated: 0, dropped: false }
}

/// Compaction takes one more line: of several empty lines the first is kept,
/// and of several equal lines, apart from case, the first two.
pub open spec fn compact_line(c: Compaction, raw: Seq<char>) -> Compaction {
    let line = squeeze(raw);
    if line.len() == 0 {
        if c.kept.len() > 0 && c.kept.last().len() == 0 {
            c
        } else {
            Compaction { kept: c.kept.push(line), ..c }
        }
    } else if text::lower(line) == text::lower(c.previous) {
        if c.repeated >= 1 {
            Compaction { repeated: c.repeated + 1, dropped: true, ..c }
        } else {
            Compaction { kept: c.kept.push(line), repeated: c.repeated + 1, ..c }
        }
    } else {
        Compaction { kept: c.kept.push(line), previous: line, repeated: 0, dropped: c.dropped }
    }
}

/// Compaction of a list of lines.
pub open spec fn compact_lines(lines: Seq<Seq<char>>) -> Compaction
    decreases lines.len(),
{
    if lines.len() == 0 {
        no_lines()
    } else {
        compact_line(compact_lines(lines.drop_last()), lines.last())
    }
}

/// The content that compaction of a text leaves.
pub open spec fn compacted(trimmed: Seq<char>) -> Seq<char> {
    text::trim(text::join(compact_lines(text::lines(trimmed)).kept, "\n"@))
}

/// The content with its middle cut out where it is too long.
pub open spec fn shortened(s: Seq<char>) -> Seq<char> {
    if s.len() > MAX_CHAT_CHARS {
        text::head(s, HEAD_KEEP_CHARS as nat) + "\n\n"@ + TRUNCATION_MARK@ + "\n\n"@ + text::tail(
            s,
            TAIL_KEEP_CHARS as nat,
        )
    } else {
        s
    }
}

/// The words of a text, in small letters.
pub open spec fn lower_words(s: Seq<char>) -> Seq<Seq<char>> {
    text::words(s).map_values(|w: Seq<char>| text::lower(w))
}

/// Fewer than a third of the words of a text are different ones.
pub open spec fn repetitive(s: Seq<char>) -> bool {
    let w = lower_words(s);
    w.len() >= 20 && w.to_set().len() * 3 < w.len()
}

/// The content cut down to its first words where it is repetitive and whole.
pub open spec fn thinned(s: Seq<char>) -> Seq<char> {
    if repetitive(s) && !text::occurs(s, TRUNCATION_MARK@) {
        let w = text::words(s);
        let first = if w.len() <= 400 {
            w
        } else {
            w.take(400)
        };
        text::join(first, " "@) + "\n\n"@ + COMPACTION_MARK@
    } else {
        s
    }
}

/// A list of one warning, or of none.
pub open spec fn warning_if(given: bool, w: Seq<char>) -> Seq<Seq<char>> {
    if given {
        seq![w]
    } else {
        Seq::empty()
    }
}

/// What becomes of a chat message: its sanitized form, or why it is refused.
pub open spec fn sanitized(input: Seq<char>) -> Result<SanitizedV, Seq<char>> {
    let trimmed = text::trim(unix_newlines(input));
    let whole = compacted(trimmed);
    let short = shortened(whole);
    if trimmed.len() == 0 {
        Err(EMPTY_AFTER_TRIMMING@)
    } else if whole.len() == 0 {
        Err(EMPTY_AFTER_SANITIZATION@)
    } else {
        Ok(
            SanitizedV {
                content: thinned(short),
                warnings: warning_if(
                    compact_lines(text::lines(trimmed)).dropped,
                    REPEATED_LINES@,
                ) + warning_if(whole.len() > MAX_CHAT_CHARS, TOO_LONG@) + warning_if(
                    repetitive(short),
                    REPETITIVE@,
                ),
            },
        )
    }
}

/// The lines of a message that compaction keeps, and whether it dropped a
/// repeated one.
fn compact(lines: &Vec<String>) -> (r: (Vec<String>, bool))
    ensures
        text::views(r.0@) == compact_lines(text::views(lines@)).kept,
        r.1 == compact_lines(text::views(lines@)).dropped,
{
    broadcast use text::views_push;

    let ghost all = text::views(lines@);
    let mut kept: Vec<String> = Vec::new();
    let mut previous = String::new();
    let mut repeated: usize = 0;
    let mut dropped = false;
    assert(all.take(0) =~= Seq::empty());
    assert(text::views(kept@) =~= Seq::empty());
    for i in 0..lines.len()
        invariant
            all == text::views(lines@),
            compact_lines(all.take(i as int)) == (Compaction {
                kept: text::views(kept@),
                previous: previous@,
                repeated: repeated as nat,
                dropped,
            }),
            repeated <= i,
    {
        proof {
            assert(all.take(i + 1).drop_last() =~= all.take(i as int));
            assert(all.take(i + 1).last() == lines@[i as int]@);
        }
        let line = text::joined(&text::split_words(&lines[i]), " ");
        if line.as_str().is_empty() {
            if kept.len() > 0 && kept[kept.len() - 1].as_str().is_empty() {
                assert(text::views(kept@).last().len() == 0);
            } else {
                assert(kept@.len() > 0 ==> text::views(kept@).last() == kept@.last()@);
                kept.push(line);
            }
        } else if text::same_ignoring_case(&line, &previous) {
            repeated = repeated + 1;
            if repeated >= 2 {
                dropped = true;
            } else {
                kept.push(line);
            }
        } else {
            previous = line.clone();
            repeated = 0;
            kept.push(line);
        }
    }
    assert(all.take(all.len() as int) =~= all);
    (kept, dropped)
}

/// Brings a chat message into a form that is fit to be sent: line ends and
/// spaces are evened out, repeated lines dropped, the middle of a very long
/// text cut out and a repetitive text thinned. Each step leaves a warning.
pub fn sanitize_chat_message(input: &str) -> (r: Result<SanitizedChatInput, String>)
    ensures
        match r {
            Ok(s) => sanitized(input@) == Ok::<SanitizedV, Seq<char>>(s@),
            Err(e) => sanitized(input@) == Err::<SanitizedV, Seq<char>>(e@),
        },
{
    broadcast use text::views_push;

    proof {
        reveal_strlit("\r\n");
        reveal_strlit("\r");
    }
    let normalized = text::replaced(&text::replaced(input, "\r\n", "\n"), "\r", "\n");
    let trimmed = text::trimmed(&normalized);
    if trimmed.as_str().is_empty() {
        return Err(EMPTY_AFTER_TRIMMING.to_owned());
    }
    let (kept, dropped) = compact(&text::split_lines(&trimmed));
    let mut warnings: Vec<String> = Vec::new();
    if dropped {
        warnings.push(REPEATED_LINES.to_owned());
    }
    let mut content = text::trimmed(&text::joined(&kept, "\n"));
    if content.as_str().is_empty() {
        return Err(EMPTY_AFTER_SANITIZATION.to_owned());
    }
    if text::char_len(&content) > MAX_CHAT_CHARS {
        warnings.push(TOO_LONG.to_owned());
        let mut short = text::take_chars(&content, HEAD_KEEP_CHARS);
        short.append("\n\n");
        short.append(TRUNCATION_MARK);
        short.append("\n\n");
        short.append(&text::last_chars(&content, TAIL_KEEP_CHARS));
        content = short;
    }
    if looks_repetitive(&content) {
        warnings.push(REPETITIVE.to_owned());
        if !text::contains(&content, TRUNCATION_MARK) {
            let mut first = text::split_words(&content);
            let ghost all = first@;
            if first.len() > 400 {
                first.truncate(400);
                assert(text::views(first@) =~= text::views(all).take(400));
            }
            content = text::joined(&first, " ");
            content.append("\n\n");
            content.append(COMPACTION_MARK);
        }
    }
    let r = SanitizedChatInput { content, warnings };
    assert(r@.warnings =~= sanitized(input@)->Ok_0.warnings);
    Ok(r)
}

/// Whether fewer than a third of the words of a text are different ones.
pub fn looks_repetitive(text: &str) -> (r: bool)
    ensures
        r == repetitive(text@),
{
    let words = text::split_words(text);
    if words.len() < 20 {
        return false;
    }
    let mut seen: Vec<String> = Vec::new();
    let ghost all = lower_words(text@);
    assert(all.take(0).to_set() =~= text::views(seen@).to_set());
    for i in 0..words.len()
        invariant
            text::views(words@) == text::words(text@),
            all == lower_words(text@),
            text::views(seen@).no_duplicates(),
            text::views(seen@).to_set() == all.take(i as int).to_set(),
    {
        broadcast use text::views_push;

        let w = text::to_lower(&words[i]);
        proof {
            assert(text::views(words@)[i as int] == words@[i as int]@);
            assert(all.take(i + 1) =~= all.take(i as int).push(w@));
            all.take(i as int).lemma_push_to_set_commute(w@);
            text::views(seen@).lemma_push_to_set_commute(w@);
        }
        if !text::holds(&seen, &w) {
            seen.push(w);
        } else {
            assert(text::views(seen@).to_set().insert(w@) =~= text::views(seen@).to_set());
        }
    }
    proof {
        assert(all.take(all.len() as int) =~= all);
        text::views(seen@).unique_seq_to_set();
    }
    (seen.len() as u128) * 3 < words.len() as u128
}

/// The messages for a chat: the system prompt, the context unless it is
/// blank, and the sanitized input under its warnings.
pub open spec fn chat_messages(s: SanitizedV, context: Option<Seq<char>>) -> Seq<MessageV> {
    let system = MessageV::plain("system"@, SYSTEM_PROMPT@);
    let user = MessageV::plain(
        "user"@,
        if s.warnings.len() > 0 {
            "Input notes: "@ + text::join(s.warnings, " "@) + "\n\n"@ + s.content
        } else {
            s.content
        },
    );
    match context {
        Some(c) => if text::blank(c) {
            seq![system, user]
        } else {
            seq![system, MessageV::plain("system"@, c), user]
        },
        None => seq![system, user],
    }
}

/// The messages for a chat without context, and the warnings on the input.
pub fn build_chat_messages(input: &str) -> (r: Result<(Vec<Message>, Vec<String>), String>)
    ensures
        match r {
            Ok((messages, warnings)) => {
                &&& sanitized(input@) is Ok
                &&& message_views(messages@) == chat_messages(sanitized(input@)->Ok_0, None)
                &&& text::views(warnings@) == sanitized(input@)->Ok_0.warnings
            },
            Err(e) => sanitized(input@) == Err::<SanitizedV, Seq<char>>(e@),
        },
{
    build_chat_messages_with_context(input, None)
}

/// The model of an optional string slice.
pub open spec fn slice_view(s: Option<&str>) -> Option<Seq<char>> {
    match s {
        Some(v) => Some(v@),
        None => None,
    }
}

/// The messages for a chat, and the warnings on the input.
pub fn build_chat_messages_with_context(
    input: &str,
    curated_context: Option<&str>,
) -> (r: Result<(Vec<Message>, Vec<String>), String>)
    ensures
        match r {
            Ok((messages, warnings)) => {
                &&& sanitized(input@) is Ok
                &&& message_views(messages@) == chat_messages(
                    sanitized(input@)->Ok_0,
                    slice_view(curated_context),
                )
                &&& text::views(warnings@) == sanitized(input@)->Ok_0.warnings
            },
            Err(e) => sanitized(input@) == Err::<SanitizedV, Seq<char>>(e@),
        },
{
    broadcast use message_views_push;

    let s = match sanitize_chat_message(input) {
        Ok(s) => s,
        Err(e) => {
            return Err(e);
        },
    };
    let user_content = if s.warnings.len() > 0 {
        let mut noted = "Input notes: ".to_owned();
        noted.append(&text::joined(&s.warnings, " "));
        noted.append("\n\n");
        noted.append(&s.content);
        noted
    } else {
        s.content.clone()
    };
    let mut messages: Vec<Message> = Vec::new();
    messages.push(Message::text("system", SYSTEM_PROMPT.to_owned()));
    if let Some(context) = curated_context {
        if !text::is_blank(context) {
            messages.push(Message::text("system", context.to_owned()));
        }
    }
    messages.push(Message::text("user", user_content));
    assert(message_views(messages@) =~= chat_messages(s@, slice_view(curated_context)));
    Ok((messages, s.warnings))
}

/// What compaction has seen of lines that are not blank shows in what it keeps.
spec fn keeps_ink(c: Compaction) -> bool {
    exists|k: int| 0 <= k < c.kept.len() && text::inked(#[trigger] c.kept[k])
}

proof fn compaction_keeps_ink(lines: Seq<Seq<char>>)
    ensures
        compact_lines(lines).previous.len() > 0 ==> keeps_ink(compact_lines(lines)),
        (exists|k: int| 0 <= k < lines.len() && text::inked(#[trigger] lines[k])) ==> keeps_ink(
            compact_lines(lines),
        ),
    decreases lines.len(),
{
    if lines.len() > 0 {
        let front = lines.drop_last();
        let c = compact_lines(front);
        let d = compact_lines(lines);
        let raw = lines.last();
        let line = squeeze(raw);
        compaction_keeps_ink(front);
        text::words_keep_ink(raw);
        if keeps_ink(c) {
            let k = choose|k: int| 0 <= k < c.kept.len() && text::inked(#[trigger] c.kept[k]);
            assert(d.kept[k] == c.kept[k]);
        }
        if line.len() > 0 {
            assert(text::words(raw).len() > 0);
            assert(text::inked(text::words(raw)[0]));
            text::join_keeps_ink(text::words(raw), " "@);
            if text::lower(line) == text::lower(c.previous) {
                assert(text::lower(line).len() == line.len());
                assert(text::lower(c.previous).len() == c.previous.len());
            } else {
                assert(d.kept.last() == line);
            }
        } else if text::inked(raw) {
            text::join_keeps_ink(text::words(raw), " "@);
        }
        if exists|k: int| 0 <= k < lines.len() && text::inked(#[trigger] lines[k]) {
            let k = choose|k: int| 0 <= k < lines.len() && text::inked(#[trigger] lines[k]);
            if k < front.len() {
                assert(front[k] == lines[k]);
            }
        }
    }
}

/// A message is refused exactly where it holds nothing but white space, and
/// then for being empty after trimming; every other message leaves content.
pub proof fn refuses_only_blank_messages(input: Seq<char>)
    ensures
        sanitized(input) is Ok <==> !text::blank(input),
        sanitized(input) matches Err(e) ==> e == EMPTY_AFTER_TRIMMING@,
        sanitized(input) matches Ok(s) ==> s.content.len() > 0,
{
    reveal_strlit("\r\n");
    reveal_strlit("\r");
    reveal_strlit("\n");
    reveal_strlit("\n\n");
    let once = text::replace(input, "\r\n"@, "\n"@);
    let even = unix_newlines(input);
    text::replace_keeps_ink(input, "\r\n"@, "\n"@);
    text::replace_keeps_ink(once, "\r"@, "\n"@);
    text::trim_keeps_ink(input);
    text::trim_keeps_ink(even);
    let trimmed = text::trim(even);
    if trimmed.len() > 0 {
        text::lines_keep_ink(trimmed);
        let lines = text::lines(trimmed);
        compaction_keeps_ink(lines);
        let kept = compact_lines(lines).kept;
        text::join_keeps_ink(kept, "\n"@);
        text::trim_keeps_ink(text::join(kept, "\n"@));
        assert(compacted(trimmed).len() > 0);
    }
}

/// However long a message is, what is passed on has at most 12,040 characters.
pub proof fn bounds_every_message(input: Seq<char>)
    ensures
        sanitized(input) matches Ok(s) ==> s.content.len() <= MAX_CHAT_CHARS + 40,
{
    reveal_strlit("\n\n");
    reveal_strlit(" ");
    reveal_strlit("[... truncated to avoid runaway context ...]");
    reveal_strlit("[... repetitive content compacted ...]");
    let short = shortened(compacted(text::trim(unix_newlines(input))));
    let w = text::words(short);
    assert(short.len() <= MAX_CHAT_CHARS);
    if w.len() <= 400 {
        assert(w.take(w.len() as int) =~= w);
        text::first_words_fit(short, w.len() as int, " "@);
    } else {
        text::first_words_fit(short, 400, " "@);
    }
}

} // verus!
