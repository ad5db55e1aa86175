//! What a diff does to a file.

use crate::ipc::handlers::chat::patch::{
    applied, body_len, counted, header_len, hunk, patched, Hunk, Range,
};
use crate::text;
use vstd::prelude::*;

verus! {

/// What a line of a diff does to a line of a file.
pub enum Mark {
    Keep(Seq<char>),
    Take(Seq<char>),
    Put(Seq<char>),
}

/// The line of a diff for a mark.
pub open spec fn mark_line(m: Mark) -> Seq<char> {
    match m {
        Mark::Keep(l) => seq![' '] + l,
        Mark::Take(l) => seq!['-'] + l,
        Mark::Put(l) => seq!['+'] + l,
    }
}

/// The lines of a diff for a list of marks.
pub open spec fn mark_lines(marks: Seq<Mark>) -> Seq<Seq<char>> {
    marks.map_values(|m: Mark| mark_line(m))
}

/// The lines that a list of marks expects in the file.
pub open spec fn old_side(marks: Seq<Mark>) -> Seq<Seq<char>>
    decreases marks.len(),
{
    if marks.len() == 0 {
        Seq::empty()
    } else {
        match marks.last() {
            Mark::Keep(l) | Mark::Take(l) => old_side(marks.drop_last()).push(l),
            Mark::Put(_) => old_side(marks.drop_last()),
        }
    }
}

/// The lines that a list of marks leaves in the file.
pub open spec fn new_side(marks: Seq<Mark>) -> Seq<Seq<char>>
    decreases marks.len(),
{
    if marks.len() == 0 {
        Seq::empty()
    } else {
        match marks.last() {
            Mark::Keep(l) | Mark::Put(l) => new_side(marks.drop_last()).push(l),
            Mark::Take(_) => new_side(marks.drop_last()),
        }
    }
}

/// A change of a file: its marks stand for the lines behind the first `at`.
pub struct Change {
    pub at: int,
    pub marks: Seq<Mark>,
    /// The line of the diff in front of the marks.
    pub header: Seq<char>,
    /// The range that this line names.
    pub range: Range,
}

impl Change {
    /// How many lines of the file it covers.
    pub open spec fn covers(self) -> nat {
        old_side(self.marks).len()
    }

    /// Its range is written as diffs write it: the number of the first line that it
    /// covers and how many it covers, which may be left out where it is one line.
    /// Where it covers none, the number is that of the line in front of it.
    pub open spec fn is_named(self) -> bool {
        &&& 0 <= self.at < i64::MAX
        &&& self.covers() <= i64::MAX
        &&& text::begins(self.header, "@@"@)
        &&& self.range.0 == text::decimal(
            if self.covers() == 0 {
                self.at as nat
            } else {
                (self.at + 1) as nat
            },
        )
        &&& match self.range.1 {
            Some(l) => l == text::decimal(self.covers()),
            None => self.covers() == 1,
        }
    }
}

/// The changes follow each other in the file, from the line `from` on.
pub open spec fn in_order(changes: Seq<Change>, from: int, len: int) -> bool
    decreases changes.len(),
{
    if changes.len() == 0 {
        from <= len
    } else {
        from <= changes[0].at && in_order(
            changes.skip(1),
            changes[0].at + changes[0].covers(),
            len,
        )
    }
}

/// The lines of a diff that makes changes.
pub open spec fn diff_lines(changes: Seq<Change>) -> Seq<Seq<char>>
    decreases changes.len(),
{
    if changes.len() == 0 {
        Seq::empty()
    } else {
        seq![changes[0].header] + mark_lines(changes[0].marks) + diff_lines(changes.skip(1))
    }
}

/// For each line of such a diff the range of the hunk that begins there.
pub open spec fn diff_starts(changes: Seq<Change>) -> Seq<Option<Range>>
    decreases changes.len(),
{
    if changes.len() == 0 {
        Seq::empty()
    } else {
        seq![Some(changes[0].range)] + changes[0].marks.map_values(|m: Mark| None::<Range>)
            + diff_starts(changes.skip(1))
    }
}

/// The lines of a file from `from` on, with the lines that each change covers
/// replaced by those that it leaves, and all others as they are.
pub open spec fn changed(lines: Seq<Seq<char>>, changes: Seq<Change>, from: int) -> Seq<Seq<char>>
    decreases changes.len(),
{
    if changes.len() == 0 {
        lines.skip(from)
    } else {
        lines.subrange(from, changes[0].at) + new_side(changes[0].marks) + changed(
            lines,
            changes.skip(1),
            changes[0].at + changes[0].covers(),
        )
    }
}

proof fn digits_count(n: int, k: nat, s: Seq<char>)
    requires
        0 <= n,
        n * pow10(text::decimal(k).len()) + k <= i64::MAX,
    ensures
        counted(n, text::decimal(k) + s) == counted(n * pow10(text::decimal(k).len()) + k, s),
    decreases k,
{
    let d = text::decimal(k);
    reveal_with_fuel(pow10, 2);
    if k < 10 {
        assert(d =~= seq![text::digit(k)]);
        assert((d + s)[0] == text::digit(k));
        assert((d + s).skip(1) =~= s);
        assert(text::digit(k) as int == 48 + k);
        assert('0' <= text::digit(k) <= '9');
        assert(pow10(1) == 10);
    } else {
        let e = text::decimal(k / 10);
        let c = text::digit(k % 10);
        assert(d =~= e.push(c));
        assert(d + s =~= e + (seq![c] + s));
        let p = pow10(e.len());
        assert(pow10(d.len()) == p * 10);
        assert(n * (p * 10) + k == (n * p + k / 10) * 10 + k % 10) by (nonlinear_arith)
            requires
                k == (k / 10) * 10 + k % 10,
        ;
        pow10_positive(e.len());
        assert(n * p >= 0) by (nonlinear_arith)
            requires
                n >= 0,
                p >= 1,
        ;
        digits_count(n, k / 10, seq![c] + s);
        let m = n * p + k / 10;
        assert((seq![c] + s)[0] == c);
        assert((seq![c] + s).skip(1) =~= s);
        assert(c as int == 48 + k % 10);
        assert('0' <= c <= '9');
    }
}

spec fn pow10(n: nat) -> int
    decreases n,
{
    if n == 0 {
        1
    } else {
        pow10((n - 1) as nat) * 10
    }
}

proof fn pow10_positive(n: nat)
    ensures
        pow10(n) >= 1,
    decreases n,
{
    if n > 0 {
        pow10_positive((n - 1) as nat);
    }
}

/// A line number is read as it is written.
pub proof fn numbers_are_read_back(k: nat)
    requires
        k <= i64::MAX,
    ensures
        counted(0, text::decimal(k)) == Ok::<int, Seq<char>>(k as int),
{
    assert(0 * pow10(text::decimal(k).len()) == 0);
    digits_count(0, k, Seq::empty());
    assert(text::decimal(k) + Seq::<char>::empty() =~= text::decimal(k));
}

/// A hunk takes away the lines that it keeps or takes, and puts in their place
/// those that it keeps or puts, in order.
pub proof fn a_hunk_has_two_sides(marks: Seq<Mark>)
    ensures
        hunk(mark_lines(marks)) == Some(
            Hunk { taken: old_side(marks).len(), lines: new_side(marks) },
        ),
    decreases marks.len(),
{
    let body = mark_lines(marks);
    if marks.len() > 0 {
        a_hunk_has_two_sides(marks.drop_last());
        assert(body.drop_last() =~= mark_lines(marks.drop_last()));
        let line = body.last();
        assert(line == mark_line(marks.last()));
        reveal_strlit("\\");
        let l = match marks.last() {
            Mark::Keep(l) | Mark::Take(l) | Mark::Put(l) => l,
        };
        assert(line.skip(1) =~= l);
        if text::begins(line, "\\"@) {
            assert(line.subrange(0, 1)[0] == '\\');
        }
    }
}

proof fn the_body_ends_at_the_next_hunk(marks: Seq<Mark>, rest: Seq<Seq<char>>)
    requires
        rest.len() == 0 || text::begins(rest[0], "@@"@),
    ensures
        body_len(mark_lines(marks) + rest) == marks.len(),
    decreases marks.len(),
{
    let body = mark_lines(marks);
    let all = body + rest;
    if marks.len() == 0 {
        assert(all =~= rest);
    } else {
        the_body_ends_at_the_next_hunk(marks.skip(1), rest);
        assert(all.skip(1) =~= mark_lines(marks.skip(1)) + rest);
        reveal_strlit("@@");
        assert(all[0] == mark_line(marks[0]));
        if text::begins(all[0], "@@"@) {
            assert(all[0].subrange(0, 2)[0] == '@');
        }
    }
}

proof fn starts_fit(changes: Seq<Change>)
    ensures
        diff_lines(changes).len() == diff_starts(changes).len(),
    decreases changes.len(),
{
    if changes.len() > 0 {
        starts_fit(changes.skip(1));
    }
}

proof fn one_hunk(
    file: Seq<Seq<char>>,
    patch: Seq<Seq<char>>,
    starts: Seq<Option<Range>>,
    offset: int,
    at: int,
    range: Range,
    covers: nat,
    lines: Seq<Seq<char>>,
    k: int,
)
    requires
        patch.len() > 0,
        starts.len() == patch.len(),
        starts[0] == Some(range),
        0 <= at,
        at + covers <= file.len(),
        counted(0, range.0) == Ok::<int, Seq<char>>(
            at - offset + (if covers == 0 {
                0int
            } else {
                1
            }),
        ),
        match range.1 {
            Some(l) => counted(0, l) == Ok::<int, Seq<char>>(covers as int),
            None => covers == 1,
        },
        body_len(patch.skip(1)) == k,
        hunk(patch.skip(1).take(k)) == Some(Hunk { taken: covers, lines }),
    ensures
        applied(file, patch, starts, offset) == applied(
            file.take(at) + lines + file.skip(at + covers),
            patch.skip(1 + k),
            starts.skip(1 + k),
            offset + lines.len() - covers,
        ),
{
}

proof fn applied_from(
    lines: Seq<Seq<char>>,
    changes: Seq<Change>,
    from: int,
    done: Seq<Seq<char>>,
)
    requires
        0 <= from <= lines.len(),
        in_order(changes, from, lines.len() as int),
        forall|i: int| 0 <= i < changes.len() ==> (#[trigger] changes[i]).is_named(),
    ensures
        applied(
            done + lines.skip(from),
            diff_lines(changes),
            diff_starts(changes),
            done.len() - from,
        ) == Some(Ok::<Seq<Seq<char>>, Seq<char>>(done + changed(lines, changes, from))),
    decreases changes.len(),
{
    let patch = diff_lines(changes);
    let starts = diff_starts(changes);
    starts_fit(changes);
    if changes.len() > 0 {
        let c = changes[0];
        let rest = changes.skip(1);
        let file = done + lines.skip(from);
        let offset = done.len() - from;
        let body = mark_lines(c.marks);
        let end = c.at + c.covers();
        assert(c.is_named());
        in_order_bound(rest, end, lines.len() as int);
        numbers_are_read_back(c.at as nat);
        numbers_are_read_back((c.at + 1) as nat);
        numbers_are_read_back(c.covers());
        assert(starts[0] == Some(c.range));
        assert(patch.skip(1) =~= body + diff_lines(rest));
        assert(diff_lines(rest).len() > 0 ==> diff_lines(rest)[0] == rest[0].header && rest[0]
            == changes[1]);
        if rest.len() > 0 {
            assert(changes[1].is_named());
        }
        the_body_ends_at_the_next_hunk(c.marks, diff_lines(rest));
        a_hunk_has_two_sides(c.marks);
        let k = c.marks.len() as int;
        assert(patch.skip(1).take(k) =~= body);
        assert(patch.skip(1 + k) =~= diff_lines(rest));
        assert(starts.skip(1 + k) =~= diff_starts(rest));
        let next = done + lines.subrange(from, c.at) + new_side(c.marks);
        let at = c.at + offset;
        one_hunk(file, patch, starts, offset, at, c.range, c.covers(), new_side(c.marks), k);
        assert(file.take(at) + new_side(c.marks) + file.skip(at + c.covers()) =~= next
            + lines.skip(end)) by {
            assert(file.take(at) =~= done + lines.subrange(from, c.at));
            assert(file.skip(at + c.covers()) =~= lines.skip(end));
        }
        assert forall|i: int| 0 <= i < rest.len() implies (#[trigger] rest[i]).is_named() by {
            assert(rest[i] == changes[i + 1]);
        }
        applied_from(lines, rest, end, next);
        assert(next + changed(lines, rest, end) =~= done + changed(lines, changes, from));
    }
}

proof fn in_order_bound(changes: Seq<Change>, from: int, len: int)
    requires
        in_order(changes, from, len),
    ensures
        from <= len,
    decreases changes.len(),
{
    if changes.len() > 0 {
        in_order_bound(changes.skip(1), changes[0].at + changes[0].covers(), len);
    }
}

/// A diff of any number of hunks, in the order of the file and not overlapping,
/// replaces exactly the lines that each hunk covers in the file as it was, and
/// leaves all lines between them.
pub proof fn a_diff_changes_what_its_hunks_cover(lines: Seq<Seq<char>>, changes: Seq<Change>)
    requires
        in_order(changes, 0, lines.len() as int),
        forall|i: int| 0 <= i < changes.len() ==> (#[trigger] changes[i]).is_named(),
    ensures
        applied(lines, diff_lines(changes), diff_starts(changes), 0) == Some(
            Ok::<Seq<Seq<char>>, Seq<char>>(changed(lines, changes, 0)),
        ),
{
    in_order_bound(changes, 0, lines.len() as int);
    let none = Seq::<Seq<char>>::empty();
    assert(none + lines.skip(0) =~= lines);
    applied_from(lines, changes, 0, none);
    assert(none + changed(lines, changes, 0) =~= changed(lines, changes, 0));
}

/// Only digits are read as a line number.
pub proof fn only_digits_are_read(n: int, s: Seq<char>)
    ensures
        counted(n, s) is Ok ==> text::all_digits(s),
        counted(n, s) matches Ok(m) ==> s.len() > 0 ==> m <= i64::MAX,
    decreases s.len(),
{
    if s.len() > 0 && counted(n, s) is Ok {
        let m = n * 10 + (s[0] as int - 48);
        only_digits_are_read(m, s.skip(1));
        assert forall|i: int| 0 <= i < s.len() implies '0' <= #[trigger] s[i] <= '9' by {
            if i > 0 {
                assert(s[i] == s.skip(1)[i - 1]);
            }
        }
    }
}

/// The lines in front of the first hunk.
pub open spec fn is_preamble(lines: Seq<Seq<char>>) -> bool {
    forall|i: int|
        0 <= i < lines.len() ==> text::begins(#[trigger] lines[i], "--- "@) || text::begins(
            lines[i],
            "+++ "@,
        ) || text::begins(lines[i], "diff "@) || text::begins(lines[i], "index "@)
}

proof fn preamble_is_header(pre: Seq<Seq<char>>, rest: Seq<Seq<char>>)
    requires
        is_preamble(pre),
        rest.len() > 0,
        text::begins(rest[0], "@@"@),
    ensures
        header_len(pre + rest) == pre.len(),
    decreases pre.len(),
{
    reveal_strlit("--- ");
    reveal_strlit("+++ ");
    reveal_strlit("---");
    reveal_strlit("+++");
    reveal_strlit("diff ");
    reveal_strlit("index ");
    reveal_strlit("@@");
    let all = pre + rest;
    if pre.len() == 0 {
        assert(all =~= rest);
        let l = rest[0];
        assert(l.subrange(0, 2)[0] == '@');
        if text::begins(l, "---"@) {
            assert(l.subrange(0, 3)[0] == '-');
        }
        if text::begins(l, "+++"@) {
            assert(l.subrange(0, 3)[0] == '+');
        }
        if text::begins(l, "diff "@) {
            assert(l.subrange(0, 5)[0] == 'd');
        }
        if text::begins(l, "index "@) {
            assert(l.subrange(0, 6)[0] == 'i');
        }
    } else {
        let l = pre[0];
        assert(all[0] == l);
        if text::begins(l, "--- "@) {
            assert(l.subrange(0, 3) =~= "---"@) by {
                assert(l.subrange(0, 4) == "--- "@);
                assert(l.subrange(0, 3) =~= l.subrange(0, 4).subrange(0, 3));
                assert("--- "@.subrange(0, 3) =~= "---"@);
            }
        }
        if text::begins(l, "+++ "@) {
            assert(l.subrange(0, 3) =~= "+++"@) by {
                assert(l.subrange(0, 4) == "+++ "@);
                assert(l.subrange(0, 3) =~= l.subrange(0, 4).subrange(0, 3));
                assert("+++ "@.subrange(0, 3) =~= "+++"@);
            }
        }
        assert forall|i: int| 0 <= i < pre.skip(1).len() implies text::begins(
            #[trigger] pre.skip(1)[i],
            "--- "@,
        ) || text::begins(pre.skip(1)[i], "+++ "@) || text::begins(pre.skip(1)[i], "diff "@)
            || text::begins(pre.skip(1)[i], "index "@) by {
            assert(pre.skip(1)[i] == pre[i + 1]);
        }
        preamble_is_header(pre.skip(1), rest);
        assert(all.skip(1) =~= pre.skip(1) + rest);
    }
}

/// A diff with its file names and other remarks in front changes a text as its
/// hunks say, and the text ends in a line feed afterwards where it did before.
pub proof fn a_diff_changes_a_text(
    original: Seq<char>,
    pre: Seq<Seq<char>>,
    changes: Seq<Change>,
)
    requires
        is_preamble(pre),
        changes.len() > 0,
        in_order(changes, 0, text::lines(original).len() as int),
        forall|i: int| 0 <= i < changes.len() ==> (#[trigger] changes[i]).is_named(),
    ensures
        patched(
            original,
            pre + diff_lines(changes),
            pre.map_values(|l: Seq<char>| None::<Range>) + diff_starts(changes),
        ) matches Some(Ok(t)) && {
            let lines = text::join(changed(text::lines(original), changes, 0), "\n"@);
            &&& t == lines || t == lines + "\n"@
            &&& text::ends(original, "\n"@) ==> text::ends(t, "\n"@)
            &&& !text::ends(original, "\n"@) || text::ends(lines, "\n"@) ==> t == lines
        },
{
    let rest = diff_lines(changes);
    let k = pre.len() as int;
    let none = pre.map_values(|l: Seq<char>| None::<Range>);
    assert(changes[0].is_named());
    assert(rest[0] == changes[0].header);
    preamble_is_header(pre, rest);
    assert((pre + rest).skip(k) =~= rest);
    assert((none + diff_starts(changes)).skip(k) =~= diff_starts(changes));
    a_diff_changes_what_its_hunks_cover(text::lines(original), changes);
    let lines = text::join(changed(text::lines(original), changes, 0), "\n"@);
    reveal_strlit("\n");
    assert((lines + "\n"@).subrange(lines.len() as int, (lines.len() + 1) as int) =~= "\n"@);
}

} // verus!
