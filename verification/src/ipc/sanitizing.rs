//! What sanitizing leaves of a message is not changed by sanitizing it again.

use crate::ipc::guards::{
    compact_line, compact_lines, compacted, repetitive, sanitized, shortened, squeeze, thinned,
    unix_newlines, warning_if, Compaction, SanitizedV, MAX_CHAT_CHARS, REPEATED_LINES, REPETITIVE,
    TOO_LONG,
};
use crate::text;
use vstd::prelude::*;

verus! {

// ---------------------------------------------------------------------------
// Parts that are put together
// ---------------------------------------------------------------------------

proof fn join_front(parts: Seq<Seq<char>>, sep: Seq<char>)
    requires
        parts.len() >= 2,
    ensures
        text::join(parts, sep) == parts[0] + sep + text::join(parts.skip(1), sep),
    decreases parts.len(),
{
    let front = parts.drop_last();
    let rest = parts.skip(1);
    assert(rest.drop_last() =~= front.skip(1));
    assert(rest.last() == parts.last());
    if parts.len() == 2 {
        assert(text::join(front, sep) == parts[0]);
        assert(text::join(rest, sep) == parts[1]);
    } else {
        join_front(front, sep);
        assert(text::join(parts, sep) =~= parts[0] + sep + text::join(rest, sep));
    }
}

spec fn all_chars(s: Seq<char>, p: spec_fn(char) -> bool) -> bool {
    forall|i: int| 0 <= i < s.len() ==> p(#[trigger] s[i])
}

proof fn join_chars(parts: Seq<Seq<char>>, sep: Seq<char>, p: spec_fn(char) -> bool)
    requires
        forall|i: int| 0 <= i < parts.len() ==> all_chars(#[trigger] parts[i], p),
        all_chars(sep, p),
    ensures
        all_chars(text::join(parts, sep), p),
    decreases parts.len(),
{
    if parts.len() > 1 {
        join_chars(parts.drop_last(), sep, p);
        let front = text::join(parts.drop_last(), sep);
        assert(all_chars(parts.last(), p));
        assert(all_chars(front + sep, p));
        assert(all_chars(front + sep + parts.last(), p));
    } else if parts.len() == 1 {
        assert(all_chars(parts[0], p));
    }
}

spec fn starts_and_ends_in_ink(s: Seq<char>) -> bool {
    s.len() > 0 && !text::is_space(s[0]) && !text::is_space(s.last())
}

proof fn join_ends(parts: Seq<Seq<char>>, sep: Seq<char>)
    requires
        parts.len() > 0,
        parts[0].len() > 0,
        !text::is_space(parts[0][0]),
        parts.last().len() > 0,
        !text::is_space(parts.last().last()),
    ensures
        starts_and_ends_in_ink(text::join(parts, sep)),
{
    if parts.len() > 1 {
        join_front(parts, sep);
    }
}

proof fn trim_is_done(s: Seq<char>)
    requires
        starts_and_ends_in_ink(s),
    ensures
        text::trim(s) == s,
{
}

proof fn replace_nothing(s: Seq<char>, pat: Seq<char>, to: Seq<char>)
    requires
        pat.len() > 0,
        forall|i: int| 0 <= i < s.len() ==> #[trigger] s[i] != pat[0],
    ensures
        text::replace(s, pat, to) == s,
    decreases s.len(),
{
    if s.len() > 0 {
        if text::begins(s, pat) {
            assert(s.subrange(0, pat.len() as int)[0] == pat[0]);
        }
        replace_nothing(s.skip(1), pat, to);
        assert(seq![s[0]] + s.skip(1) =~= s);
    }
}

// ---------------------------------------------------------------------------
// Words
// ---------------------------------------------------------------------------

spec fn is_word(w: Seq<char>) -> bool {
    w.len() > 0 && all_chars(w, |c: char| !text::is_space(c))
}

proof fn word_ends_at(s: Seq<char>, n: int)
    requires
        0 <= n <= s.len(),
        forall|i: int| 0 <= i < n ==> !text::is_space(#[trigger] s[i]),
        n < s.len() ==> text::is_space(s[n]),
    ensures
        text::word_len(s) == n,
    decreases n,
{
    if n > 0 {
        word_ends_at(s.skip(1), n - 1);
    }
}

proof fn word_is_clean(s: Seq<char>)
    ensures
        text::word_len(s) <= s.len(),
        forall|i: int| 0 <= i < text::word_len(s) ==> !text::is_space(#[trigger] s[i]),
    decreases s.len(),
{
    if s.len() > 0 && !text::is_space(s[0]) {
        let t = s.skip(1);
        word_is_clean(t);
        assert forall|i: int| 0 <= i < text::word_len(s) implies !text::is_space(
            #[trigger] s[i],
        ) by {
            if i > 0 {
                assert(t[i - 1] == s[i]);
            }
        }
    }
}

proof fn words_are_words(s: Seq<char>)
    ensures
        forall|i: int| 0 <= i < text::words(s).len() ==> is_word(#[trigger] text::words(s)[i]),
    decreases s.len(),
{
    let t = text::trim_start(s);
    let n = text::word_len(t) as int;
    text::trim_start_len(s);
    word_is_clean(t);
    if t.len() > 0 {
        assert(n > 0);
        words_are_words(t.skip(n));
        assert(is_word(t.take(n)));
        assert forall|i: int| 0 <= i < text::words(s).len() implies is_word(
            #[trigger] text::words(s)[i],
        ) by {
            if i > 0 {
                assert(text::words(s)[i] == text::words(t.skip(n))[i - 1]);
            }
        }
    }
}

proof fn words_of_joined(ws: Seq<Seq<char>>)
    requires
        forall|i: int| 0 <= i < ws.len() ==> is_word(#[trigger] ws[i]),
    ensures
        text::words(text::join(ws, " "@)) == ws,
    decreases ws.len(),
{
    reveal_strlit(" ");
    let s = text::join(ws, " "@);
    if ws.len() == 0 {
        assert(s =~= Seq::empty());
        assert(text::words(s) =~= ws);
    } else {
        let w = ws[0];
        assert(is_word(w));
        let n = w.len() as int;
        let rest = ws.skip(1);
        if ws.len() == 1 {
            word_ends_at(s, n);
            assert(s.take(n) =~= w);
            assert(s.skip(n) =~= Seq::empty());
            assert(text::words(s.skip(n)) =~= Seq::empty());
            assert(text::words(s) =~= ws);
        } else {
            join_front(ws, " "@);
            let r = text::join(rest, " "@);
            assert(s[n] == ' ');
            assert forall|i: int| 0 <= i < n implies !text::is_space(#[trigger] s[i]) by {
                assert(s[i] == w[i]);
            }
            word_ends_at(s, n);
            assert(s[0] == w[0]);
            assert(s.take(n) =~= w);
            let t = s.skip(n);
            assert(t[0] == ' ');
            assert(t.skip(1) =~= r);
            assert(text::trim_start(t) == text::trim_start(r));
            words_of_joined(rest);
            assert(text::words(t) == text::words(r));
            assert(text::words(s) =~= ws);
        }
    }
}

// ---------------------------------------------------------------------------
// Lines
// ---------------------------------------------------------------------------

/// A line as compaction keeps it.
spec fn is_tidy(l: Seq<char>) -> bool {
    &&& squeeze(l) == l
    &&& all_chars(l, |c: char| text::is_space(c) ==> c == ' ')
    &&& l.len() > 0 ==> starts_and_ends_in_ink(l)
}

proof fn squeezed_is_tidy(raw: Seq<char>)
    ensures
        is_tidy(squeeze(raw)),
{
    let ws = text::words(raw);
    let l = squeeze(raw);
    let p = |c: char| text::is_space(c) ==> c == ' ';
    words_are_words(raw);
    words_of_joined(ws);
    reveal_strlit(" ");
    assert forall|i: int| 0 <= i < ws.len() implies all_chars(#[trigger] ws[i], p) by {
        assert(is_word(ws[i]));
    }
    join_chars(ws, " "@, p);
    if ws.len() > 0 {
        assert(is_word(ws[0]));
        assert(is_word(ws.last()));
        join_ends(ws, " "@);
    } else {
        assert(l =~= Seq::empty());
    }
}

spec fn lacks(l: Seq<char>, c: char) -> bool {
    forall|i: int| 0 <= i < l.len() ==> #[trigger] l[i] != c
}

proof fn line_ends_at(s: Seq<char>, n: int)
    requires
        0 <= n <= s.len(),
        forall|i: int| 0 <= i < n ==> #[trigger] s[i] != '\n',
        n < s.len() ==> s[n] == '\n',
    ensures
        text::index_of(s, '\n') == n,
    decreases n,
{
    if n > 0 {
        line_ends_at(s.skip(1), n - 1);
    }
}

proof fn lines_of_joined(ls: Seq<Seq<char>>)
    requires
        ls.len() > 0,
        ls.last().len() > 0,
        forall|i: int| 0 <= i < ls.len() ==> lacks(#[trigger] ls[i], '\n'),
        forall|i: int| 0 <= i < ls.len() ==> lacks(#[trigger] ls[i], '\r'),
    ensures
        text::lines(text::join(ls, "\n"@)) == ls,
    decreases ls.len(),
{
    reveal_strlit("\n");
    let s = text::join(ls, "\n"@);
    let l = ls[0];
    let n = l.len() as int;
    assert(lacks(l, '\n'));
    assert(lacks(l, '\r'));
    if ls.len() == 1 {
        line_ends_at(s, n);
        assert(text::lines(s) =~= ls);
    } else {
        let rest = ls.skip(1);
        join_front(ls, "\n"@);
        assert(s[n] == '\n');
        assert forall|i: int| 0 <= i < n implies #[trigger] s[i] != '\n' by {
            assert(s[i] == l[i]);
        }
        line_ends_at(s, n);
        assert(s.take(n) =~= l);
        assert(s.skip(n + 1) =~= text::join(rest, "\n"@));
        assert forall|i: int| 0 <= i < rest.len() implies lacks(#[trigger] rest[i], '\n') by {
            assert(lacks(ls[i + 1], '\n'));
        }
        assert forall|i: int| 0 <= i < rest.len() implies lacks(#[trigger] rest[i], '\r') by {
            assert(lacks(ls[i + 1], '\r'));
        }
        lines_of_joined(rest);
        assert(text::lines(s) =~= ls);
    }
}

// ---------------------------------------------------------------------------
// Compaction
// ---------------------------------------------------------------------------

/// The lines are as compaction leaves them.
spec fn are_kept(kept: Seq<Seq<char>>) -> bool {
    &&& forall|i: int| 0 <= i < kept.len() ==> is_tidy(#[trigger] kept[i])
    &&& forall|i: int|
        0 <= i < kept.len() - 1 ==> (#[trigger] kept[i]).len() > 0 || kept[i + 1].len() > 0
}

/// What compaction of kept lines comes to: nothing is dropped.
spec fn undropped(c: Compaction) -> Compaction {
    Compaction {
        repeated: if c.repeated >= 1 {
            1
        } else {
            0
        },
        dropped: false,
        ..c
    }
}

proof fn compaction_is_done(lines: Seq<Seq<char>>)
    ensures
        are_kept(compact_lines(lines).kept),
        compact_lines(compact_lines(lines).kept) == undropped(compact_lines(lines)),
        lines.len() > 0 && squeeze(lines[0]).len() > 0 ==> compact_lines(lines).kept.len() > 0
            && compact_lines(lines).kept[0].len() > 0,
        compact_lines(lines).kept.len() <= lines.len(),
    decreases lines.len(),
{
    if lines.len() > 0 {
        let front = lines.drop_last();
        compaction_is_done(front);
        let c = compact_lines(front);
        let d = compact_lines(lines);
        let line = squeeze(lines.last());
        squeezed_is_tidy(lines.last());
        if d.kept.len() > c.kept.len() {
            assert(d.kept =~= c.kept.push(line));
            assert(d.kept.drop_last() =~= c.kept);
            assert(compact_lines(d.kept) == compact_line(compact_lines(c.kept), line));
            assert forall|i: int| 0 <= i < d.kept.len() - 1 implies (#[trigger] d.kept[i]).len()
                > 0 || d.kept[i + 1].len() > 0 by {
                if i < c.kept.len() - 1 {
                    assert(c.kept[i].len() > 0 || c.kept[i + 1].len() > 0);
                }
            }
        }
        if lines.len() == 1 {
            assert(front =~= Seq::empty());
            assert(lines[0] == lines.last());
        }
    }
}

/// The lines without an empty one at the end.
spec fn without_empty_end(kept: Seq<Seq<char>>) -> Seq<Seq<char>> {
    if kept.len() > 0 && kept.last().len() == 0 {
        kept.drop_last()
    } else {
        kept
    }
}

proof fn trimmed_lines(kept: Seq<Seq<char>>)
    requires
        are_kept(kept),
        kept.len() > 0,
        kept[0].len() > 0,
    ensures
        ({
            let k = without_empty_end(kept);
            &&& k.len() > 0
            &&& k[0] == kept[0]
            &&& k.last().len() > 0
            &&& text::trim(text::join(kept, "\n"@)) == text::join(k, "\n"@)
            &&& starts_and_ends_in_ink(text::join(k, "\n"@))
        }),
{
    reveal_strlit("\n");
    let k = without_empty_end(kept);
    let whole = text::join(kept, "\n"@);
    let short = text::join(k, "\n"@);
    if kept.last().len() == 0 {
        assert(kept[kept.len() - 2].len() > 0 || kept[kept.len() - 2 + 1].len() > 0);
    }
    assert(is_tidy(k[0]));
    assert(is_tidy(kept[k.len() - 1]));
    join_ends(k, "\n"@);
    if kept.last().len() == 0 {
        assert(whole =~= short.push('\n'));
        assert(whole.drop_last() =~= short);
        assert(text::trim_start(whole) == whole);
        assert(text::trim_end(whole) == text::trim_end(short));
    }
    trim_is_done(short);
}

proof fn shorter_is_done(kept: Seq<Seq<char>>)
    requires
        are_kept(kept),
        compact_lines(kept).kept == kept,
        !compact_lines(kept).dropped,
    ensures
        compact_lines(without_empty_end(kept)).kept == without_empty_end(kept),
        !compact_lines(without_empty_end(kept)).dropped,
{
    let k = without_empty_end(kept);
    if kept.len() > 0 && kept.last().len() == 0 {
        assert(is_tidy(kept.last()));
        compaction_is_done(k);
        let c = compact_lines(k);
        assert(c.kept.len() <= k.len());
        assert(kept =~= c.kept.push(kept.last()));
        assert(c.kept =~= k);
    }
}

proof fn first_line_has_ink(t: Seq<char>)
    requires
        t.len() > 0,
        !text::is_space(t[0]),
    ensures
        text::lines(t).len() > 0,
        squeeze(text::lines(t)[0]).len() > 0,
{
    text::index_of_bounds(t, '\n');
    let n = text::index_of(t, '\n') as int;
    let l = text::lines(t)[0];
    assert(l.len() > 0 && l[0] == t[0]);
    assert(text::trim_start(l) == l);
    words_are_words(l);
    let ws = text::words(l);
    assert(ws.len() > 0);
    assert(is_word(ws[0]));
    if ws.len() > 1 {
        join_front(ws, " "@);
    }
}

/// Sanitizing is done once: what it leaves of a message, unless it was too long or
/// repetitive, it leaves as it is, without a warning.
pub proof fn sanitizing_again_changes_nothing(input: Seq<char>, r: SanitizedV)
    requires
        sanitized(input) == Ok::<SanitizedV, Seq<char>>(r),
        !r.warnings.contains(TOO_LONG@),
        !r.warnings.contains(REPETITIVE@),
    ensures
        sanitized(r.content) == Ok::<SanitizedV, Seq<char>>(
            SanitizedV { content: r.content, warnings: Seq::empty() },
        ),
{
    let t = text::trim(unix_newlines(input));
    let c = compact_lines(text::lines(t));
    let whole = compacted(t);
    let k = without_empty_end(c.kept);
    let first = warning_if(c.dropped, REPEATED_LINES@);
    let second = warning_if(whole.len() > MAX_CHAT_CHARS, TOO_LONG@);
    let third = warning_if(repetitive(shortened(whole)), REPETITIVE@);
    assert(r.warnings == first + second + third);
    if whole.len() > MAX_CHAT_CHARS {
        assert(r.warnings[first.len() as int] == TOO_LONG@);
    }
    if repetitive(shortened(whole)) {
        assert(r.warnings[(first.len() + second.len()) as int] == REPETITIVE@);
    }
    assert(r.content == whole);
    text::trim_keeps_ink(unix_newlines(input));
    trim_begins(unix_newlines(input));
    first_line_has_ink(t);
    compaction_is_done(text::lines(t));
    trimmed_lines(c.kept);
    shorter_is_done(c.kept);
    assert(whole == text::join(k, "\n"@));
    reveal_strlit("\n");
    reveal_strlit("\r");
    reveal_strlit("\r\n");
    assert forall|i: int| 0 <= i < k.len() implies lacks(#[trigger] k[i], '\n') && lacks(
        k[i],
        '\r',
    ) by {
        assert(is_tidy(c.kept[i]));
    }
    let p = |x: char| x != '\r';
    assert forall|i: int| 0 <= i < k.len() implies all_chars(#[trigger] k[i], p) by {
        assert(lacks(k[i], '\r'));
    }
    join_chars(k, "\n"@, p);
    assert(lacks(whole, '\r'));
    replace_nothing(whole, "\r\n"@, "\n"@);
    replace_nothing(whole, "\r"@, "\n"@);
    trim_is_done(whole);
    lines_of_joined(k);
    assert(compacted(whole) == whole);
    assert(thinned(whole) == whole);
    assert(sanitized(whole)->Ok_0.warnings =~= Seq::empty());
}

proof fn trim_begins(s: Seq<char>)
    ensures
        text::trim(s).len() > 0 ==> !text::is_space(text::trim(s)[0]),
{
    text::trim_start_len(s);
    trim_end_begins(text::trim_start(s));
}

proof fn trim_end_begins(s: Seq<char>)
    ensures
        text::trim_end(s).len() > 0 ==> s.len() > 0 && text::trim_end(s)[0] == s[0],
    decreases s.len(),
{
    if s.len() > 0 && text::is_space(s.last()) {
        trim_end_begins(s.drop_last());
    }
}

} // verus!
