//! What becomes of a message before it is sent.

use crate::ipc::guards::{
    chat_messages, compact_lines, compacted, no_lines, repetitive, sanitized, shortened, squeeze,
    thinned, unix_newlines, SanitizedV, COMPACTION_MARK, REPEATED_LINES, REPETITIVE, SYSTEM_PROMPT,
    TOO_LONG, TRUNCATION_MARK,
};
use crate::laws::wording::{
    nothing_is_replaced_without_a_place, places_are_replaced, texts_fall_into_words,
};
use crate::llm::types::MessageV;
use crate::text;
use vstd::prelude::*;

verus! {

/// The last line that is not blank, in small letters; empty where there is none.
pub open spec fn last_said(lines: Seq<Seq<char>>) -> Seq<char>
    decreases lines.len(),
{
    if lines.len() == 0 {
        Seq::empty()
    } else if squeeze(lines.last()).len() > 0 {
        text::lower(squeeze(lines.last()))
    } else {
        last_said(lines.drop_last())
    }
}

/// How often the last line that is not blank was said at the end, blank lines and the
/// case of letters aside.
pub open spec fn times_said(lines: Seq<Seq<char>>) -> nat
    decreases lines.len(),
{
    if lines.len() == 0 {
        0
    } else if squeeze(lines.last()).len() == 0 {
        times_said(lines.drop_last())
    } else if last_said(lines.drop_last()) == text::lower(squeeze(lines.last())) {
        times_said(lines.drop_last()) + 1
    } else {
        1
    }
}

proof fn runs_are_counted(lines: Seq<Seq<char>>)
    ensures
        ({
            let c = compact_lines(lines);
            &&& text::lower(c.previous) == last_said(lines)
            &&& c.previous.len() > 0 ==> times_said(lines) == c.repeated + 1
            &&& c.previous.len() == 0 ==> times_said(lines) == 0 && c.repeated == 0
        }),
    decreases lines.len(),
{
    if lines.len() > 0 {
        runs_are_counted(lines.drop_last());
        let c = compact_lines(lines.drop_last());
        assert(text::lower(c.previous).len() == c.previous.len());
        assert(text::lower(squeeze(lines.last())).len() == squeeze(lines.last()).len());
    } else {
        assert(text::lower(no_lines().previous) =~= Seq::empty());
    }
}

/// A line of a message stays, with single spaces between its words, unless it is said
/// for the third time or more in a row, or is blank behind a blank line.
pub proof fn lines_stay_unless_repeated(lines: Seq<Seq<char>>, line: Seq<char>)
    ensures
        ({
            let before = compact_lines(lines).kept;
            let after = compact_lines(lines.push(line)).kept;
            let l = squeeze(line);
            let again = times_said(lines.push(line));
            &&& l.len() > 0 && again <= 2 ==> after == before.push(l)
            &&& l.len() > 0 && again > 2 ==> after == before
            &&& l.len() == 0 && (before.len() == 0 || before.last().len() > 0) ==> after
                == before.push(l)
            &&& l.len() == 0 && before.len() > 0 && before.last().len() == 0 ==> after == before
            &&& compact_lines(lines.push(line)).dropped == (compact_lines(lines).dropped || (l.len()
                > 0 && again > 2))
        }),
        compact_lines(Seq::empty()).kept.len() == 0,
        !compact_lines(Seq::empty()).dropped,
{
    let all = lines.push(line);
    assert(all.drop_last() =~= lines);
    runs_are_counted(lines);
    runs_are_counted(all);
    let c = compact_lines(lines);
    assert(text::lower(c.previous).len() == c.previous.len());
    assert(text::lower(squeeze(line)).len() == squeeze(line).len());
}

/// Of a message of more than twelve thousand characters the first seven thousand and
/// the last two thousand are sent.
pub proof fn long_messages_keep_their_ends(s: Seq<char>)
    ensures
        s.len() <= 12_000 ==> shortened(s) == s,
        s.len() > 12_000 ==> shortened(s) == s.take(7_000) + "\n\n"@ + TRUNCATION_MARK@ + "\n\n"@
            + s.skip(s.len() - 2_000),
{
}

/// A message that says the same things over and over is cut to its first four hundred
/// words, and no other is.
pub proof fn only_repetition_is_thinned(s: Seq<char>)
    ensures
        !repetitive(s) ==> thinned(s) == s,
        repetitive(s) && !text::occurs(s, TRUNCATION_MARK@) ==> thinned(s) == text::join(
            if text::words(s).len() <= 400 {
                text::words(s)
            } else {
                text::words(s).take(400)
            },
            " "@,
        ) + "\n\n"@ + COMPACTION_MARK@,
        text::words(s).len() < 20 ==> !repetitive(s),
        text::words(s).len() >= 20 ==> (repetitive(s) <==> 3 * text::words(s).map_values(
            |w: Seq<char>| text::lower(w),
        ).to_set().len() < text::words(s).len()),
{
}

/// What is done to a message is told, each in one warning: that lines were dropped, that
/// it was too long, that it was repetitive.
pub proof fn what_is_done_is_told(input: Seq<char>)
    ensures
        sanitized(input) matches Ok(s) ==> ({
            let trimmed = text::trim(unix_newlines(input));
            let c = compact_lines(text::lines(trimmed));
            let whole = compacted(trimmed);
            &&& s.content == thinned(shortened(whole))
            &&& c.dropped ==> s.warnings.contains(REPEATED_LINES@)
            &&& whole.len() > 12_000 ==> s.warnings.contains(TOO_LONG@)
            &&& repetitive(shortened(whole)) ==> s.warnings.contains(REPETITIVE@)
            &&& s.warnings.len() == (if c.dropped {
                1int
            } else {
                0
            }) + (if whole.len() > 12_000 {
                1int
            } else {
                0
            }) + (if repetitive(shortened(whole)) {
                1int
            } else {
                0
            })
        }),
{
    if let Ok(s) = sanitized(input) {
        let trimmed = text::trim(unix_newlines(input));
        let c = compact_lines(text::lines(trimmed));
        let whole = compacted(trimmed);
        let a = if c.dropped {
            1int
        } else {
            0
        };
        let b = if whole.len() > 12_000 {
            1int
        } else {
            0
        };
        if c.dropped {
            assert(s.warnings[0] == REPEATED_LINES@);
        }
        if whole.len() > 12_000 {
            assert(s.warnings[a] == TOO_LONG@);
        }
        if repetitive(shortened(whole)) {
            assert(s.warnings[a + b] == REPETITIVE@);
        }
    }
}

proof fn nothing_to_replace(s: Seq<char>, pat: Seq<char>, to: Seq<char>)
    requires
        pat.len() > 0,
        forall|i: int| 0 <= i < s.len() ==> #[trigger] s[i] != pat[0],
    ensures
        text::replace(s, pat, to) == s,
    decreases s.len(),
{
    if s.len() > 0 {
        if text::begins(s, pat) {
            assert(s.subrange(0, pat.len() as int)[0] == s[0]);
        }
        assert forall|i: int| 0 <= i < s.skip(1).len() implies #[trigger] s.skip(1)[i] != pat[0] by {
            assert(s.skip(1)[i] == s[i + 1]);
        }
        nothing_to_replace(s.skip(1), pat, to);
        assert(text::replace(s, pat, to) =~= s);
    }
}

/// A message of one line, with single spaces between its words, not too long and not
/// repetitive, is sent as it is and without a warning.
pub proof fn an_ordinary_message_is_sent_as_it_is(input: Seq<char>)
    requires
        input.len() > 0,
        input.len() <= 12_000,
        squeeze(input) == input,
        text::trim(input) == input,
        !repetitive(input),
        forall|i: int| 0 <= i < input.len() ==> #[trigger] input[i] != '\n' && input[i] != '\r',
    ensures
        sanitized(input) matches Ok(s) && s.content == input && s.warnings.len() == 0,
{
    reveal_strlit("\r\n");
    reveal_strlit("\r");
    nothing_to_replace(input, "\r\n"@, "\n"@);
    nothing_to_replace(input, "\r"@, "\n"@);
    text::index_of_bounds(input, '\n');
    let lines = text::lines(input);
    assert(lines =~= seq![input]);
    assert(lines.drop_last() =~= Seq::empty());
    lines_stay_unless_repeated(Seq::empty(), input);
    assert(Seq::<Seq<char>>::empty().push(input) =~= lines);
    let c = compact_lines(lines);
    assert(text::lower(input).len() == input.len());
    reveal_with_fuel(times_said, 2);
    reveal_with_fuel(last_said, 2);
    assert(c.kept =~= seq![input]);
    assert(compacted(input) == input);
}

/// A line end is a line feed, however it was written.
pub proof fn line_ends_are_line_feeds(a: Seq<char>, b: Seq<char>)
    requires
        forall|i: int| 0 <= i < a.len() ==> #[trigger] a[i] != '\r' && a[i] != '\n',
        forall|i: int| 0 <= i < b.len() ==> #[trigger] b[i] != '\r' && b[i] != '\n',
    ensures
        unix_newlines(a + "\r\n"@ + b) == a + "\n"@ + b,
        unix_newlines(a + "\r"@ + b) == a + "\n"@ + b,
        unix_newlines(a + "\n"@ + b) == a + "\n"@ + b,
{
    reveal_strlit("\r\n");
    reveal_strlit("\r");
    reveal_strlit("\n");
    let crlf = a + "\r\n"@ + b;
    let cr = a + "\r"@ + b;
    let lf = a + "\n"@ + b;
    assert forall|j: int| 0 <= j < a.len() implies !text::match_at(crlf, "\r\n"@, j) by {
        if text::match_at(crlf, "\r\n"@, j) {
            assert(crlf.subrange(j, j + 2)[0] == a[j]);
        }
    }
    places_are_replaced(a, "\r\n"@, b, "\n"@);
    nothing_to_replace(b, "\r\n"@, "\n"@);
    nothing_to_replace(lf, "\r\n"@, "\n"@);
    nothing_to_replace(lf, "\r"@, "\n"@);
    if text::occurs(cr, "\r\n"@) {
        let j = choose|j: int| text::match_at(cr, "\r\n"@, j);
        assert(cr.subrange(j, j + 2)[1] == cr[j + 1]);
        assert(cr[j + 1] == '\n');
    }
    nothing_is_replaced_without_a_place(cr, "\r\n"@, "\n"@);
    assert forall|j: int| 0 <= j < a.len() implies !text::match_at(cr, "\r"@, j) by {
        if text::match_at(cr, "\r"@, j) {
            assert(cr.subrange(j, j + 1)[0] == a[j]);
        }
    }
    places_are_replaced(a, "\r"@, b, "\n"@);
    nothing_to_replace(b, "\r"@, "\n"@);
}

/// Between the words of a line one space stays, and the lines that are kept stay lines.
pub proof fn words_and_lines_stay_apart(a: Seq<char>, b: Seq<char>, t: Seq<char>)
    requires
        a.len() > 0,
        b.len() > 0,
        forall|i: int| 0 <= i < a.len() ==> !text::is_space(#[trigger] a[i]),
        forall|i: int| 0 <= i < b.len() ==> !text::is_space(#[trigger] b[i]),
    ensures
        squeeze(a + seq![' '] + b) == a + seq![' '] + b,
        squeeze(a + seq![' ', '\t'] + b) == a + seq![' '] + b,
        compacted(t) == text::trim(text::join(compact_lines(text::lines(t)).kept, "\n"@)),
{
    reveal_strlit(" ");
    let none = Seq::<char>::empty();
    assert(b + none =~= b);
    texts_fall_into_words(b, none, ' ');
    assert(text::words(b) =~= seq![b]);
    let one = seq![' '] + b;
    let two = seq![' ', '\t'] + b;
    starts_with_space(b, one, two);
    texts_fall_into_words(a, one, ' ');
    texts_fall_into_words(a, two, ' ');
    assert(a + seq![' '] + b =~= a + one);
    assert(a + seq![' ', '\t'] + b =~= a + two);
    let w = seq![a] + seq![b];
    assert(w.drop_last() =~= seq![a]);
    assert(text::join(seq![a], " "@) == a);
    assert(" "@ =~= seq![' ']);
    assert(text::join(w, " "@) =~= a + seq![' '] + b);
}

proof fn starts_with_space(b: Seq<char>, one: Seq<char>, two: Seq<char>)
    requires
        one == seq![' '] + b,
        two == seq![' ', '\t'] + b,
    ensures
        text::words(one) == text::words(b),
        text::words(two) == text::words(b),
{
    assert(one.skip(1) =~= b);
    assert(text::is_space(' ') && text::is_space('\t'));
    assert(text::trim_start(one) == text::trim_start(b));
    assert(two.skip(1) =~= seq!['\t'] + b);
    assert(two.skip(1).skip(1) =~= b);
    reveal_with_fuel(text::trim_start, 3);
    assert(text::trim_start(two) == text::trim_start(b));
}

/// A message goes behind the rules and what is known, and under its warnings.
pub proof fn a_message_follows_the_rules(s: SanitizedV, context: Option<Seq<char>>)
    ensures
        ({
            let m = chat_messages(s, context);
            &&& m[0] == MessageV::plain("system"@, SYSTEM_PROMPT@)
            &&& m.last().role == "user"@
            &&& s.warnings.len() == 0 ==> m.last().content == s.content
            &&& s.warnings.len() > 0 ==> m.last().content == "Input notes: "@ + text::join(
                s.warnings,
                " "@,
            ) + "\n\n"@ + s.content
            &&& context is Some && !text::blank(context->0) ==> m.len() == 3 && m[1]
                == MessageV::plain("system"@, context->0)
            &&& context is None || text::blank(context->0) ==> m.len() == 2
        }),
{
}

} // verus!
