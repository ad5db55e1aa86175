//! What texts and values are, and what is done to them.

use crate::computer_use::uia::{shown, shown_list, visited_list, UiElement};
use crate::indexer::task_tracker::{
    description, is_project, is_task_of, new_status, new_task, status, tasks_among, NewTask,
    TaskInfo, TaskNode, TaskTracker,
};
use crate::json::{JsonV, Number};
use crate::laws::noting::notes;
use crate::order;
use crate::text;
use vstd::prelude::*;

verus! {

// ---------------------------------------------------------------------------
// Texts
// ---------------------------------------------------------------------------

/// What stands in a text is found there, and nothing else is.
pub proof fn what_stands_there_is_found(a: Seq<char>, p: Seq<char>, b: Seq<char>, s: Seq<char>)
    ensures
        text::occurs(a + p + b, p),
        text::begins(p + b, p),
        text::ends(a + p, p),
        text::begins(s, p) ==> s == p + s.skip(p.len() as int),
        text::ends(s, p) ==> s == s.take(s.len() - p.len()) + p,
        text::occurs(s, p) ==> exists|i: int|
            0 <= i <= s.len() && s == #[trigger] s.take(i) + p + s.skip(i + p.len()),
{
    let n = a.len() as int;
    assert((a + p + b).subrange(n, n + p.len()) =~= p);
    assert(text::match_at(a + p + b, p, n));
    assert((p + b).subrange(0, p.len() as int) =~= p);
    assert((a + p).subrange((a + p).len() - p.len(), (a + p).len() as int) =~= p);
    if text::begins(s, p) {
        assert(s =~= s.subrange(0, p.len() as int) + s.skip(p.len() as int));
    }
    if text::ends(s, p) {
        assert(s =~= s.take(s.len() - p.len()) + s.subrange(s.len() - p.len(), s.len() as int));
    }
    if text::occurs(s, p) {
        let i = choose|i: int| text::match_at(s, p, i);
        assert(s =~= s.take(i) + s.subrange(i, i + p.len()) + s.skip(i + p.len()));
    }
}

/// Letters, digits and signs are no space; blanks, tabs and line ends are.
pub proof fn blanks_and_line_ends_are_space(c: char)
    ensures
        text::is_space(' ') && text::is_space('\t') && text::is_space('\n') && text::is_space('\r'),
        '!' <= c <= '~' ==> !text::is_space(c),
{
}

proof fn start_is_cut(front: Seq<char>, s: Seq<char>)
    requires
        forall|i: int| 0 <= i < front.len() ==> text::is_space(#[trigger] front[i]),
    ensures
        text::trim_start(front + s) == text::trim_start(s),
    decreases front.len(),
{
    if front.len() == 0 {
        assert(front + s =~= s);
    } else {
        let rest = front.skip(1);
        assert((front + s).skip(1) =~= rest + s);
        assert((front + s)[0] == front[0]);
        assert forall|i: int| 0 <= i < rest.len() implies text::is_space(#[trigger] rest[i]) by {
            assert(rest[i] == front[i + 1]);
        }
        start_is_cut(rest, s);
    }
}

proof fn end_is_cut(s: Seq<char>, back: Seq<char>)
    requires
        forall|i: int| 0 <= i < back.len() ==> text::is_space(#[trigger] back[i]),
    ensures
        text::trim_end(s + back) == text::trim_end(s),
    decreases back.len(),
{
    if back.len() == 0 {
        assert(s + back =~= s);
    } else {
        let rest = back.drop_last();
        assert((s + back).drop_last() =~= s + rest);
        assert((s + back).last() == back.last());
        assert forall|i: int| 0 <= i < rest.len() implies text::is_space(#[trigger] rest[i]) by {
            assert(rest[i] == back[i]);
        }
        end_is_cut(s, rest);
    }
}

/// Trimming takes away the space around a text and nothing else.
pub proof fn trimming_takes_the_space_around(front: Seq<char>, s: Seq<char>, back: Seq<char>)
    requires
        s.len() > 0,
        !text::is_space(s[0]),
        !text::is_space(s.last()),
        forall|i: int| 0 <= i < front.len() ==> text::is_space(#[trigger] front[i]),
        forall|i: int| 0 <= i < back.len() ==> text::is_space(#[trigger] back[i]),
    ensures
        text::trim(front + s + back) == s,
        !text::blank(front + s + back),
        text::blank(front),
{
    assert(front + s + back =~= front + (s + back));
    start_is_cut(front, s + back);
    assert((s + back)[0] == s[0]);
    assert(text::trim_start(s + back) == s + back);
    end_is_cut(s, back);
    assert(text::trim_end(s) == s);
    start_is_cut(front, Seq::empty());
    assert(front + Seq::<char>::empty() =~= front);
}

/// A text falls into lines at its line feeds, and a carriage return in front of one
/// belongs to it.
pub proof fn texts_fall_into_lines(line: Seq<char>, rest: Seq<char>)
    requires
        forall|i: int| 0 <= i < line.len() ==> #[trigger] line[i] != '\n',
    ensures
        text::lines(Seq::empty()).len() == 0,
        line.len() > 0 ==> text::lines(line) == seq![line],
        (line.len() == 0 || line.last() != '\r') ==> text::lines(line.push('\n') + rest) == seq![
            line,
        ] + text::lines(rest),
        (line.len() == 0 || line.last() != '\r') ==> text::lines(
            line.push('\r').push('\n') + rest,
        ) == seq![line] + text::lines(rest),
{
    text::index_of_bounds(line, '\n');
    let a = line.push('\n') + rest;
    text::index_of_bounds(a, '\n');
    let n = text::index_of(a, '\n') as int;
    assert(a[line.len() as int] == '\n');
    if n < line.len() {
        assert(a[n] == line[n]);
    }
    assert(a.take(n) =~= line);
    assert(a.skip(n + 1) =~= rest);
    let b = line.push('\r').push('\n') + rest;
    text::index_of_bounds(b, '\n');
    let m = text::index_of(b, '\n') as int;
    assert(b[line.len() as int] == '\r');
    assert(b[line.len() as int + 1] == '\n');
    if m < line.len() {
        assert(b[m] == line[m]);
    }
    assert(m == line.len() + 1);
    assert(b.take(m) =~= line.push('\r'));
    assert(line.push('\r').drop_last() =~= line);
    assert(b.skip(m + 1) =~= rest);
}

proof fn word_ends(word: Seq<char>, rest: Seq<char>)
    requires
        forall|i: int| 0 <= i < word.len() ==> !text::is_space(#[trigger] word[i]),
        rest.len() == 0 || text::is_space(rest[0]),
    ensures
        text::word_len(word + rest) == word.len(),
    decreases word.len(),
{
    if word.len() == 0 {
        assert(word + rest =~= rest);
    } else {
        let w = word.skip(1);
        assert((word + rest).skip(1) =~= w + rest);
        assert((word + rest)[0] == word[0]);
        assert forall|i: int| 0 <= i < w.len() implies !text::is_space(#[trigger] w[i]) by {
            assert(w[i] == word[i + 1]);
        }
        word_ends(w, rest);
    }
}

/// A text falls into words at its space.
pub proof fn texts_fall_into_words(word: Seq<char>, rest: Seq<char>, c: char)
    requires
        word.len() > 0,
        forall|i: int| 0 <= i < word.len() ==> !text::is_space(#[trigger] word[i]),
        rest.len() == 0 || text::is_space(rest[0]),
        text::is_space(c),
    ensures
        text::words(word + rest) == seq![word] + text::words(rest),
        text::words(seq![c] + rest) == text::words(rest),
        text::words(Seq::empty()).len() == 0,
{
    let s = word + rest;
    assert(s[0] == word[0]);
    assert(text::trim_start(s) == s);
    word_ends(word, rest);
    assert(s.take(word.len() as int) =~= word);
    assert(s.skip(word.len() as int) =~= rest);
    let t = seq![c] + rest;
    start_is_cut(seq![c], rest);
}

/// Texts are put together with a text between each two of them.
pub proof fn texts_are_joined(parts: Seq<Seq<char>>, last: Seq<char>, sep: Seq<char>)
    ensures
        text::join(Seq::empty(), sep).len() == 0,
        text::join(seq![last], sep) == last,
        parts.len() > 0 ==> text::join(parts.push(last), sep) == text::join(parts, sep) + sep + last,
{
    assert(parts.push(last).drop_last() =~= parts);
}

/// A text is replaced from its first place on, and what is not there is not replaced.
pub proof fn places_are_replaced(
    front: Seq<char>,
    pat: Seq<char>,
    back: Seq<char>,
    to: Seq<char>,
)
    requires
        pat.len() > 0,
        forall|j: int| 0 <= j < front.len() ==> !text::match_at(front + pat + back, pat, j),
    ensures
        text::replace(front + pat + back, pat, to) == front + to + text::replace(back, pat, to),
    decreases front.len(),
{
    let s = front + pat + back;
    if front.len() == 0 {
        assert(s =~= pat + back);
        assert(s.subrange(0, pat.len() as int) =~= pat);
        assert(s.skip(pat.len() as int) =~= back);
        assert(front + to + text::replace(back, pat, to) =~= to + text::replace(back, pat, to));
    } else {
        let f = front.skip(1);
        let t = f + pat + back;
        assert(s.skip(1) =~= t);
        assert(!text::match_at(s, pat, 0));
        assert forall|j: int| 0 <= j < f.len() implies !text::match_at(t, pat, j) by {
            if text::match_at(t, pat, j) {
                assert(s.subrange(j + 1, j + 1 + pat.len()) =~= t.subrange(j, j + pat.len()));
                assert(text::match_at(s, pat, j + 1));
            }
        }
        places_are_replaced(f, pat, back, to);
        assert(text::replace(s, pat, to) =~= front + to + text::replace(back, pat, to));
    }
}

/// A text without a pattern stays as it is.
pub proof fn nothing_is_replaced_without_a_place(s: Seq<char>, pat: Seq<char>, to: Seq<char>)
    requires
        !text::occurs(s, pat),
    ensures
        text::replace(s, pat, to) == s,
    decreases s.len(),
{
    if s.len() > 0 && pat.len() > 0 {
        let t = s.skip(1);
        assert(!text::match_at(s, pat, 0));
        if text::occurs(t, pat) {
            let j = choose|j: int| text::match_at(t, pat, j);
            assert(s.subrange(j + 1, j + 1 + pat.len()) =~= t.subrange(j, j + pat.len()));
            assert(text::match_at(s, pat, j + 1));
        }
        nothing_is_replaced_without_a_place(t, pat, to);
        assert(text::replace(s, pat, to) =~= s);
    }
}

/// Capitals become small letters one by one, and nothing else changes.
pub proof fn capitals_become_small(a: Seq<char>, b: Seq<char>, c: char)
    ensures
        text::lower(a + b) == text::lower(a) + text::lower(b),
        text::lower(text::lower(a)) == text::lower(a),
        text::lower(a).len() == a.len(),
        'A' <= c <= 'Z' ==> text::lower(seq![c])[0] as int == c as int + 32,
        !('A' <= c <= 'Z') ==> text::lower(seq![c]) == seq![c],
{
    assert(text::lower(a + b) =~= text::lower(a) + text::lower(b));
    assert(text::lower(text::lower(a)) =~= text::lower(a));
    if !('A' <= c <= 'Z') {
        assert(text::lower(seq![c]) =~= seq![c]);
    }
}

/// The start of a text is a part of it, as long as it may be, and so is its end.
pub proof fn starts_and_ends_are_parts(a: Seq<char>, b: Seq<char>)
    ensures
        text::head(a + b, a.len()) == a,
        text::tail(a + b, b.len()) == b,
        text::head(a, a.len() + b.len()) == a,
        text::tail(a, a.len() + b.len()) == a,
{
    assert((a + b).take(a.len() as int) =~= a);
    assert((a + b).skip((a + b).len() - b.len()) =~= b);
    assert(b.len() == 0 ==> a + b =~= a);
    assert(a.len() == 0 ==> a + b =~= b);
}

proof fn digits_are_read(n: nat)
    ensures
        text::all_digits(text::decimal(n)),
        text::digits_value(text::decimal(n)) == n,
        text::decimal(n).len() > 0,
    decreases n,
{
    reveal_with_fuel(text::digits_value, 2);
    let d = text::decimal(n);
    if n < 10 {
        assert(d =~= seq![text::digit(n)]);
        assert(d.drop_last() =~= Seq::empty());
        assert(text::digit(n) as int == 48 + n);
    } else {
        digits_are_read(n / 10);
        let e = text::decimal(n / 10);
        assert(d.drop_last() =~= e);
        assert(d.last() as int == 48 + n % 10);
        assert forall|i: int| 0 <= i < d.len() implies '0' <= #[trigger] d[i] <= '9' by {
            if i < e.len() {
                assert(d[i] == e[i]);
            }
        }
        assert(text::digits_value(d) == text::digits_value(e) * 10 + (d.last() as nat - 48) as nat);
    }
}

/// A number is written in digits, and read back from them.
pub proof fn numbers_are_written_and_read(n: nat, max: nat)
    ensures
        text::all_digits(text::decimal(n)),
        text::digits_value(text::decimal(n)) == n,
        n <= max ==> text::unsigned_value(text::decimal(n), max) == Some(n),
        n > max ==> text::unsigned_value(text::decimal(n), max) is None,
{
    digits_are_read(n);
    assert('0' <= text::decimal(n)[0] <= '9');
}

/// A list of texts is in the order of their characters.
pub proof fn texts_are_in_order(a: Seq<char>, x: char, y: char, s: Seq<char>, t: Seq<char>)
    requires
        x < y,
    ensures
        order::before(a + seq![x] + s, a + seq![y] + t),
        !order::before(a + seq![y] + t, a + seq![x] + s),
        order::before(a, a + seq![x] + s),
    decreases a.len(),
{
    let p = a + seq![x] + s;
    let q = a + seq![y] + t;
    if a.len() > 0 {
        texts_are_in_order(a.skip(1), x, y, s, t);
        assert(p.skip(1) =~= a.skip(1) + seq![x] + s);
        assert(q.skip(1) =~= a.skip(1) + seq![y] + t);
        assert(p[0] == a[0] && q[0] == a[0]);
    }
}

// ---------------------------------------------------------------------------
// Values
// ---------------------------------------------------------------------------

/// A value is what it is: a text, a number or a truth value, and nothing else besides.
pub proof fn values_are_what_they_are(t: Seq<char>, n: u64, k: i64, b: bool)
    ensures
        JsonV::Text(t).as_text() == Some(t),
        JsonV::Text(t).as_unsigned() is None,
        JsonV::Num(Number::Unsigned(n)).as_unsigned() == Some(n),
        JsonV::Num(Number::Unsigned(n)).as_text() is None,
        JsonV::Num(Number::Negative(k)).as_unsigned() is None,
        JsonV::Num(Number::Negative(k)).as_signed() == Some(k),
        n <= i64::MAX ==> JsonV::Num(Number::Unsigned(n)).as_signed() == Some(n as i64),
        n > i64::MAX ==> JsonV::Num(Number::Unsigned(n)).as_signed() is None,
        JsonV::integer(k).as_signed() == Some(k),
        JsonV::Bool(b).as_text() is None,
        JsonV::Null.as_text() is None,
        JsonV::text_or_null(Some(t)) == JsonV::Text(t),
        JsonV::text_or_null(None) == JsonV::Null,
{
}

// ---------------------------------------------------------------------------
// Tasks
// ---------------------------------------------------------------------------

/// Every node that is a task is told, in order, and no other.
pub proof fn every_task_is_told(nodes: Seq<TaskNode>)
    ensures
        tasks_among(nodes) == nodes.filter(|n: TaskNode| n.is_task),
    decreases nodes.len(),
{
    reveal(Seq::filter);
    if nodes.len() > 0 {
        every_task_is_told(nodes.drop_last());
    }
    assert(tasks_among(nodes) =~= nodes.filter(|n: TaskNode| n.is_task));
}

/// A task is told with its title, its description, its state and its project, and a new
/// one is open and contained in its project.
pub proof fn a_task_is_told_whole(
    t: TaskInfo,
    n: TaskNode,
    project: Seq<char>,
    title: &str,
    about: &str,
    of: Option<&str>,
    r: NewTask,
)
    ensures
        is_task_of(t, n, project) ==> t.id@ == n.id@ && t.title@ == n.title@ && (
        t.project_id matches Some(p) && p@ == project) && t.status@ == status(n.metadata)
            && t.description@ == description(n.metadata),
        is_project(t, n) ==> t.id@ == n.id@ && t.title@ == n.title@ && t.project_id is None
            && t.status@ == "active"@ && t.description@ == description(n.metadata),
        call_ensures(TaskTracker::<()>::create_task, (title, about, of), r) ==> r.title@ == title@
            && r.summary@ == about@ && notes(r.metadata@, "description"@, JsonV::Text(about@))
            && notes(r.metadata@, "status"@, JsonV::Text("open"@)) && (of matches Some(p) ==> (
        r.link matches Some((from, l)) && from@ == p@ && l.relationship@ == "contains"@ && l.strength
            == 0x3ff0_0000_0000_0000)) && (of is None ==> r.link is None),
        notes(new_status(project), "status"@, JsonV::Text(project)),
{
    let m = new_task(about@)->Object_0;
    assert(m.contains(m[0]) && m.contains(m[1]));
    let s = new_status(project)->Object_0;
    assert(s.contains(s[0]));
}

// ---------------------------------------------------------------------------
// Windows
// ---------------------------------------------------------------------------

/// Every element of a window that can be seen is told, as deep as it is looked into.
pub proof fn every_visible_element_is_told(
    els: Seq<UiElement>,
    depth: nat,
    max: nat,
    first: nat,
    all: bool,
)
    requires
        depth <= max,
    ensures
        shown_list(els, depth, max, all, first).len() == els.filter(
            |e: UiElement| all || !e.offscreen,
        ).len(),
    decreases els.len(),
{
    reveal(Seq::filter);
    if els.len() > 0 {
        let front = els.drop_last();
        every_visible_element_is_told(front, depth, max, first, all);
        let next = first + visited_list(front, depth, max, all).len();
        assert(shown(els.last(), depth, max, all, next) is Some <==> all || !els.last().offscreen);
        assert(shown_list(els, depth, max, all, first).len() == shown_list(
            front,
            depth,
            max,
            all,
            first,
        ).len() + (if all || !els.last().offscreen {
            1nat
        } else {
            0
        }));
    }
}

} // verus!
