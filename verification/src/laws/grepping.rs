//! What a search through files finds and tells.

use crate::ipc::handlers::chat::grep::{
    answer, by_count, counts_are_sorted, glob_chars, glob_pattern, grepped, hit_count, ignored_dirs, is_walked, nothing_found,
    row_place, searched, shown, snippet, wanted, Found, SearchV, WalkedFile,
};
use crate::outside;
use crate::text;
use vstd::prelude::*;

verus! {

/// How many of the first `n` lines match.
pub open spec fn matches_before(hits: Seq<bool>, n: int) -> nat {
    hits.take(n).filter(|h: bool| h).len()
}

proof fn one_more(hits: Seq<bool>, n: int)
    requires
        0 <= n < hits.len(),
    ensures
        matches_before(hits, n + 1) == matches_before(hits, n) + (if hits[n] {
            1nat
        } else {
            0
        }),
{
    reveal(Seq::filter);
    assert(hits.take(n + 1).drop_last() =~= hits.take(n));
}

proof fn counts_agree(hits: Seq<bool>, n: nat)
    requires
        n <= hits.len(),
    ensures
        hit_count(hits, n) == matches_before(hits, n as int),
    decreases n,
{
    if n > 0 {
        counts_agree(hits, (n - 1) as nat);
        one_more(hits, n - 1);
    } else {
        reveal(Seq::filter);
    }
}

proof fn no_fewer(hits: Seq<bool>, i: int, n: int)
    requires
        0 <= i <= n <= hits.len(),
    ensures
        matches_before(hits, i) <= matches_before(hits, n),
    decreases n - i,
{
    if i < n {
        no_fewer(hits, i, n - 1);
        one_more(hits, n - 1);
    }
}

/// How a line with a match is shown.
pub open spec fn shown_line(path: Seq<char>, number: nat, line: Seq<char>, shown: Seq<char>) -> bool {
    if text::byte_count(line) <= 240 {
        shown == path + ":"@ + text::decimal(number) + ":"@ + line
    } else {
        exists|cut: Seq<char>|
            text::byte_count(cut) == 240 && #[trigger] text::begins(line, cut) && shown == path
                + ":"@ + text::decimal(number) + ":"@ + cut + "..."@
    }
}

proof fn snippets_are_shown(path: Seq<char>, number: nat, line: Seq<char>)
    ensures
        snippet(line) matches Some(s) ==> shown_line(
            path,
            number,
            line,
            path + ":"@ + text::decimal(number) + ":"@ + s,
        ),
        snippet(line) is None ==> text::byte_count(line) > 240 && text::byte_cut(line, 240) is None,
{
    if text::byte_count(line) > 240 {
        if let Some(cut) = text::byte_cut(line, 240) {
            text::byte_cut_is_prefix(line, 240);
            assert(line.subrange(0, cut.len() as int) =~= cut);
            assert(text::begins(line, cut));
            let head = path + ":"@ + text::decimal(number) + ":"@;
            assert(head + (cut + "..."@) =~= head + cut + "..."@);
        }
    }
}

proof fn shown_so_far(
    before: Seq<Seq<char>>,
    path: Seq<char>,
    lines: Seq<Seq<char>>,
    hits: Seq<bool>,
    max: nat,
    n: nat,
)
    requires
        n <= lines.len() == hits.len(),
        before.len() <= max,
    ensures
        shown(before, path, lines, hits, max, n) matches Some(l) ==> {
            &&& l.len() == (if before.len() + matches_before(hits, n as int) <= max {
                before.len() + matches_before(hits, n as int)
            } else {
                max
            })
            &&& l.take(before.len() as int) == before
            &&& forall|i: int|
                0 <= i < n && #[trigger] hits[i] && before.len() + matches_before(hits, i) < max
                    ==> shown_line(
                    path,
                    (i + 1) as nat,
                    lines[i],
                    l[(before.len() + matches_before(hits, i)) as int],
                )
        },
        shown(before, path, lines, hits, max, n) is None ==> exists|i: int|
            0 <= i < n && #[trigger] hits[i] && text::byte_count(lines[i]) > 240 && text::byte_cut(
                lines[i],
                240,
            ) is None,
    decreases n,
{
    if n == 0 {
        reveal(Seq::filter);
        assert(before.take(before.len() as int) =~= before);
    } else {
        let m = (n - 1) as nat;
        shown_so_far(before, path, lines, hits, max, m);
        one_more(hits, m as int);
        snippets_are_shown(path, n, lines[m as int]);
        match (
            shown(before, path, lines, hits, max, m),
            shown(before, path, lines, hits, max, n),
        ) {
            (Some(l), Some(r)) => {
                assert(r.take(before.len() as int) =~= l.take(before.len() as int));
                assert forall|i: int|
                    0 <= i < n && #[trigger] hits[i] && before.len() + matches_before(hits, i)
                        < max implies shown_line(
                    path,
                    (i + 1) as nat,
                    lines[i],
                    r[(before.len() + matches_before(hits, i)) as int],
                ) by {
                    if i < m {
                        one_more(hits, i);
                        no_fewer(hits, i + 1, m as int);
                        assert(r[(before.len() + matches_before(hits, i)) as int] == l[(before.len() + matches_before(hits, i)) as int]);
                    }
                }
            },
            (Some(l), None) => {
                assert(hits[m as int]);
            },
            _ => {},
        }
    }
}

/// Every line of a file that matches is shown, with its file and its number and in
/// order, as long as there is room; what was shown before stays.
pub proof fn every_match_is_shown(
    before: Seq<Seq<char>>,
    path: Seq<char>,
    lines: Seq<Seq<char>>,
    hits: Seq<bool>,
    max: nat,
)
    requires
        lines.len() == hits.len(),
        before.len() <= max,
    ensures
        shown(before, path, lines, hits, max, lines.len()) matches Some(l) ==> {
            let all = hits.filter(|h: bool| h).len();
            &&& l.len() == (if before.len() + all <= max {
                before.len() + all
            } else {
                max
            })
            &&& l.take(before.len() as int) == before
            &&& forall|i: int|
                0 <= i < lines.len() && #[trigger] hits[i] && before.len() + matches_before(hits, i)
                    < max ==> shown_line(
                    path,
                    (i + 1) as nat,
                    lines[i],
                    l[(before.len() + matches_before(hits, i)) as int],
                )
        },
        shown(before, path, lines, hits, max, lines.len()) is None ==> exists|i: int|
            0 <= i < lines.len() && #[trigger] hits[i] && text::byte_count(lines[i]) > 240
                && text::byte_cut(lines[i], 240) is None,
{
    shown_so_far(before, path, lines, hits, max, lines.len());
    assert(hits.take(lines.len() as int) =~= hits);
}

/// A file is searched: it can be read, its name is asked for, it is not too large,
/// and it lies neither too deep nor in a directory that is not searched.
pub open spec fn is_searched(q: SearchV, file: WalkedFile) -> bool {
    &&& file.content is Some
    &&& (q.names matches Some(g) ==> outside::regex_matches(g, false, file.name@))
    &&& (file.size matches Some(n) ==> n <= 4 * 1024 * 1024)
    &&& file.way@.len() <= 17
    &&& forall|i: int| 0 <= i < file.way@.len() ==> !is_left_out((#[trigger] file.way@[i])@)
}

/// What has such a name is left out of a search.
pub open spec fn is_left_out(name: Seq<char>) -> bool {
    ||| name == ".git"@
    ||| name == "node_modules"@
    ||| name == "target"@
    ||| name == "dist"@
    ||| name == "build"@
    ||| name == ".next"@
    ||| name == ".cache"@
    ||| name == "__pycache__"@
    ||| name == ".venv"@
    ||| name == "venv"@
    ||| name == ".idea"@
    ||| name == ".vscode"@
}

proof fn left_out_is_ignored(name: Seq<char>)
    ensures
        ignored_dirs().contains(name) <==> is_left_out(name),
{
    let d = ignored_dirs();
    assert(d[0] == ".git"@ && d[1] == "node_modules"@ && d[2] == "target"@ && d[3] == "dist"@
        && d[4] == "build"@ && d[5] == ".next"@ && d[6] == ".cache"@ && d[7] == "__pycache__"@
        && d[8] == ".venv"@ && d[9] == "venv"@ && d[10] == ".idea"@ && d[11] == ".vscode"@);
    assert(d.len() == 12);
}

proof fn searched_is_reached(q: SearchV, file: WalkedFile)
    ensures
        is_searched(q, file) <==> file.content is Some && is_walked(text::views(file.way@))
            && wanted(q.names, file.name@, file.size),
{
    let way = text::views(file.way@);
    assert forall|n: Seq<char>| #[trigger] ignored_dirs().contains(n) <==> is_left_out(n) by {
        left_out_is_ignored(n);
    }
    if forall|i: int| 0 <= i < way.len() ==> !ignored_dirs().contains(#[trigger] way[i]) {
        assert forall|i: int| 0 <= i < file.way@.len() implies !is_left_out(
            (#[trigger] file.way@[i])@,
        ) by {
            assert(way[i] == file.way@[i]@);
        }
    }
}

/// Which lines of a file match.
pub open spec fn hits_of(q: SearchV, file: WalkedFile) -> Seq<bool> {
    text::lines(file.content->0@).map_values(
        |l: Seq<char>| outside::regex_matches(q.pattern, q.folds, l),
    )
}

/// How many matching lines a search finds in a file.
pub open spec fn found_in(q: SearchV, file: WalkedFile) -> nat {
    if is_searched(q, file) {
        hits_of(q, file).filter(|h: bool| h).len()
    } else {
        0
    }
}

/// How many matching lines a search finds in files.
pub open spec fn found_in_all(q: SearchV, files: Seq<WalkedFile>) -> nat
    decreases files.len(),
{
    if files.len() == 0 {
        0
    } else {
        found_in(q, files[0]) + found_in_all(q, files.skip(1))
    }
}

/// The files of a list in which a search finds something, with how much.
pub open spec fn with_matches(q: SearchV, files: Seq<WalkedFile>) -> Seq<(Seq<char>, nat)>
    decreases files.len(),
{
    if files.len() == 0 {
        Seq::empty()
    } else if found_in(q, files[0]) > 0 {
        seq![(files[0].path@, found_in(q, files[0]))] + with_matches(q, files.skip(1))
    } else {
        with_matches(q, files.skip(1))
    }
}

proof fn one_file(f: Found, q: SearchV, file: WalkedFile)
    requires
        is_searched(q, file),
        !f.stopped,
        f.lines.len() <= q.max,
        f.files.len() <= q.max,
    ensures
        searched(
            f,
            q.mode,
            q.max,
            file.path@,
            text::lines(file.content->0@),
            hits_of(q, file),
        ) matches Some(g) ==> {
            &&& g.total == f.total + found_in(q, file)
            &&& g.stopped == (g.total >= 2 * q.max)
            &&& q.mode == "files"@ ==> g.files == (if found_in(q, file) > 0 && f.files.len()
                < q.max {
                f.files.push(file.path@)
            } else {
                f.files
            })
            &&& q.mode == "count"@ ==> g.counts == (if found_in(q, file) > 0 {
                f.counts.push((file.path@, found_in(q, file)))
            } else {
                f.counts
            })
            &&& q.mode == "content"@ ==> g.lines.len() == (if f.lines.len() + found_in(q, file)
                <= q.max {
                f.lines.len() + found_in(q, file)
            } else {
                q.max
            })
            &&& g.lines.len() <= q.max
            &&& g.files.len() <= q.max
        },
{
    let hits = hits_of(q, file);
    let lines = text::lines(file.content->0@);
    counts_agree(hits, hits.len());
    assert(hits.take(hits.len() as int) =~= hits);
    every_match_is_shown(f.lines, file.path@, lines, hits, q.max);
}

/// The first of a list, at most so many.
pub open spec fn at_most<T>(l: Seq<T>, n: nat) -> Seq<T> {
    if l.len() <= n {
        l
    } else {
        l.take(n as int)
    }
}

/// The paths of rows.
pub open spec fn paths(rows: Seq<(Seq<char>, nat)>) -> Seq<Seq<char>> {
    rows.map_values(|r: (Seq<char>, nat)| r.0)
}

/// What is found in the files behind `f`, of which the first `k` are searched.
pub open spec fn holds(f: Found, g: Found, q: SearchV, files: Seq<WalkedFile>, k: int) -> bool {
    let part = files.take(k);
    &&& 0 <= k <= files.len()
    &&& k == files.len() || g.total >= 2 * q.max
    &&& k > 0 && q.max > 0 ==> f.total + found_in_all(q, files.take(k - 1)) < 2 * q.max
    &&& g.total == f.total + found_in_all(q, part)
    &&& q.mode == "files"@ ==> g.files == at_most(f.files + paths(with_matches(q, part)), q.max)
    &&& q.mode == "count"@ ==> g.counts == f.counts + with_matches(q, part)
    &&& q.mode == "content"@ ==> g.lines.len() == (if f.lines.len() + found_in_all(q, part)
        <= q.max {
        f.lines.len() + found_in_all(q, part)
    } else {
        q.max
    })
}

proof fn all_files(f: Found, q: SearchV, files: Seq<WalkedFile>) -> (k: int)
    requires
        f.lines.len() <= q.max,
        f.files.len() <= q.max,
        f.stopped ==> f.total >= 2 * q.max,
        !f.stopped && q.max > 0 ==> f.total < 2 * q.max,
        grepped(f, q, files) is Some,
    ensures
        holds(f, grepped(f, q, files)->0, q, files, k),
    decreases files.len(),
{
    let g = grepped(f, q, files)->0;
    if files.len() == 0 || f.stopped {
        let part = files.take(0);
        assert(paths(with_matches(q, part)) =~= Seq::empty());
        assert(f.files + paths(with_matches(q, part)) =~= f.files);
        assert(f.counts + with_matches(q, part) =~= f.counts);
        0
    } else {
        let file = files[0];
        let rest = files.skip(1);
        searched_is_reached(q, file);
        let h = if is_searched(q, file) {
            one_file(f, q, file);
            searched(
                f,
                q.mode,
                q.max,
                file.path@,
                text::lines(file.content->0@),
                hits_of(q, file),
            )->0
        } else {
            f
        };
        let k = all_files(h, q, rest);
        let part = files.take(k + 1);
        assert(part[0] == file);
        assert(part.skip(1) =~= rest.take(k));
        if k > 0 {
            assert(files.take(k)[0] == file);
            assert(files.take(k).skip(1) =~= rest.take(k - 1));
        } else {
            assert(found_in_all(q, files.take(0)) == 0);
        }
        let found = with_matches(q, rest.take(k));
        assert(with_matches(q, part) =~= (if found_in(q, file) > 0 {
            seq![(file.path@, found_in(q, file))] + found
        } else {
            found
        }));
        if q.mode == "files"@ {
            if found_in(q, file) > 0 {
                assert(paths(with_matches(q, part)) =~= seq![file.path@] + paths(found));
                assert(f.files.push(file.path@) + paths(found) =~= f.files + paths(
                    with_matches(q, part),
                ));
                if f.files.len() >= q.max {
                    assert(at_most(f.files + paths(found), q.max) =~= f.files);
                    assert(at_most(f.files + paths(with_matches(q, part)), q.max) =~= f.files);
                }
            }
        }
        if q.mode == "count"@ {
            assert(h.counts + found =~= f.counts + with_matches(q, part));
        }
        k + 1
    }
}

/// A search goes through all files in order, or stops as soon as it has found twice as
/// much as is asked for. It counts every line that matches in them; it tells of
/// every file with such a line, or of its count, or shows every such line, up to as
/// many as are asked for.
pub proof fn a_search_finds_all_until_enough(q: SearchV, files: Seq<WalkedFile>)
    ensures
        grepped(nothing_found(), q, files) matches Some(g) ==> exists|k: int|
            #[trigger] holds(nothing_found(), g, q, files, k),
{
    if grepped(nothing_found(), q, files) is Some {
        let k = all_files(nothing_found(), q, files);
    }
}

/// An answer begins with how much it tells of, and tells how much it leaves out.
pub proof fn an_answer_tells_how_much(f: Found, mode: Seq<char>, max: nat)
    ensures
        mode == "files"@ && f.files.len() > 0 ==> answer(f, mode, max) == text::decimal(
            f.files.len(),
        ) + " file(s) matched:\n"@ + text::join(f.files, "\n"@),
        mode == "content"@ && f.lines.len() > 0 ==> text::begins(
            answer(f, mode, max),
            text::decimal(f.lines.len()) + " match(es):\n"@ + text::join(f.lines, "\n"@),
        ),
        mode == "content"@ && f.lines.len() > 0 && f.total <= f.lines.len() ==> answer(
            f,
            mode,
            max,
        ) == text::decimal(f.lines.len()) + " match(es):\n"@ + text::join(f.lines, "\n"@),
        mode == "content"@ && f.lines.len() > 0 && f.total > f.lines.len() ==> text::ends(
            answer(f, mode, max),
            "\n... ("@ + text::decimal((f.total - f.lines.len()) as nat) + " more not shown)"@,
        ),
        (mode == "files"@ && f.files.len() == 0) || (mode == "content"@ && f.lines.len() == 0) || (
        mode == "count"@ && f.counts.len() == 0) ==> answer(f, mode, max) == "(no matches)"@,
{
    reveal_strlit("files");
    reveal_strlit("content");
    reveal_strlit("count");
    assert("files"@.len() == 5 && "content"@.len() == 7 && "count"@.len() == 5);
    assert("files"@[0] == 'f' && "count"@[0] == 'c');
    let all = text::decimal(f.lines.len()) + " match(es):\n"@ + text::join(f.lines, "\n"@);
    assert(all.subrange(0, all.len() as int) =~= all);
    let more = "\n... ("@ + text::decimal((f.total - f.lines.len()) as nat) + " more not shown)"@;
    assert(all + "\n... ("@ + text::decimal((f.total - f.lines.len()) as nat)
        + " more not shown)"@ =~= all + more);
    assert((all + more).subrange(0, all.len() as int) =~= all);
    assert((all + more).subrange(all.len() as int, (all + more).len() as int) =~= more);
}

/// A glob is turned into a pattern piece by piece: a star is any text, a question
/// mark any character, and all else stands for itself, also where it has a meaning
/// in a pattern.
pub proof fn globs_are_read_piece_by_piece(a: Seq<char>, b: Seq<char>, c: char)
    ensures
        glob_chars(a + b) == glob_chars(a) + glob_chars(b),
        glob_pattern(a) == "^"@ + glob_chars(a) + "$"@,
        glob_chars(seq!['*']) == ".*"@,
        glob_chars(seq!['?']) == "."@,
        c != '*' && c != '?' ==> glob_chars(seq![c]) == seq![c] || glob_chars(seq![c]) == seq![
            '\\',
            c,
        ],
        c == '.' || c == '(' || c == ')' || c == '[' || c == ']' || c == '{' || c == '}' || c == '+'
            || c == '|' || c == '^' || c == '$' || c == '\\' ==> glob_chars(seq![c]) == seq![
            '\\',
            c,
        ],
    decreases b.len(),
{
    reveal_with_fuel(glob_chars, 2);
    reveal_strlit("\\.");
    assert("\\."@ =~= seq!['\\', '.']);
    assert(seq![c].drop_last() =~= Seq::empty());
    assert(seq!['*'].drop_last() =~= Seq::empty());
    assert(seq!['?'].drop_last() =~= Seq::empty());
    assert(glob_chars(seq!['*']) =~= ".*"@);
    assert(glob_chars(seq!['?']) =~= "."@);
    if c != '*' && c != '?' {
        assert(glob_chars(seq![c]) =~= crate::ipc::handlers::chat::grep::glob_char(c));
    }
    if b.len() == 0 {
        assert(a + b =~= a);
        assert(glob_chars(a) + glob_chars(b) =~= glob_chars(a));
    } else {
        globs_are_read_piece_by_piece(a, b.drop_last(), c);
        assert((a + b).drop_last() =~= a + b.drop_last());
        assert(glob_chars(a + b) =~= glob_chars(a) + glob_chars(b));
    }
}

proof fn of_one_count(l: Seq<(Seq<char>, nat)>, t: nat)
    ensures
        by_count(l).filter(|f: (Seq<char>, nat)| f.1 == t) == l.filter(
            |f: (Seq<char>, nat)| f.1 == t,
        ),
    decreases l.len(),
{
    reveal(Seq::filter);
    let p = |f: (Seq<char>, nat)| f.1 == t;
    if l.len() > 0 {
        let before = by_count(l.drop_last());
        let x = l.last();
        let k = row_place(before, x.1) as int;
        of_one_count(l.drop_last(), t);
        counts_are_sorted(l.drop_last());
        place_is_behind(before, x.1);
        let a = before.take(k);
        let b = before.skip(k);
        assert(before =~= a + b);
        assert(by_count(l) =~= a + seq![x] + b);
        Seq::filter_distributes_over_add(a, b, p);
        Seq::filter_distributes_over_add(a + seq![x], b, p);
        Seq::filter_distributes_over_add(a, seq![x], p);
        let none = seq![x].drop_last();
        assert(none.filter(p) =~= Seq::empty());
        assert(seq![x].filter(p) =~= if x.1 == t {
            seq![x]
        } else {
            Seq::empty()
        });
        if x.1 == t {
            none_passes(b, t);
            assert(by_count(l).filter(p) =~= before.filter(p).push(x));
        } else {
            assert(by_count(l).filter(p) =~= before.filter(p));
        }
    } else {
        assert(by_count(l) =~= l);
    }
}

proof fn none_passes(b: Seq<(Seq<char>, nat)>, t: nat)
    requires
        forall|i: int| 0 <= i < b.len() ==> (#[trigger] b[i]).1 != t,
    ensures
        b.filter(|f: (Seq<char>, nat)| f.1 == t) == Seq::<(Seq<char>, nat)>::empty(),
    decreases b.len(),
{
    reveal(Seq::filter);
    if b.len() > 0 {
        none_passes(b.drop_last(), t);
    }
    assert(b.filter(|f: (Seq<char>, nat)| f.1 == t) =~= Seq::empty());
}

proof fn place_is_behind(l: Seq<(Seq<char>, nat)>, time: nat)
    requires
        forall|i: int, j: int|
            0 <= i < j < l.len() ==> (#[trigger] l[i]).1 >= (#[trigger] l[j]).1,
    ensures
        ({
            let k = row_place(l, time) as int;
            &&& k <= l.len()
            &&& forall|i: int| 0 <= i < l.skip(k).len() ==> (#[trigger] l.skip(k)[i]).1 < time
        }),
    decreases l.len(),
{
    let k = row_place(l, time) as int;
    if l.len() > 0 && l[0].1 >= time {
        let rest = l.skip(1);
        assert forall|i: int, j: int| 0 <= i < j < rest.len() implies (#[trigger] rest[i]).1 >= (
        #[trigger] rest[j]).1 by {
            assert(rest[i] == l[i + 1] && rest[j] == l[j + 1]);
        }
        place_is_behind(rest, time);
        assert(rest.skip(k - 1) =~= l.skip(k));
    } else if l.len() > 0 {
        assert forall|i: int| 0 <= i < l.skip(k).len() implies (#[trigger] l.skip(k)[i]).1
            < time by {
            if i > 0 {
                assert(l[0].1 >= l[i].1);
            }
            assert(l.skip(k)[i] == l[i]);
        }
    }
}

/// Files with as many matches stay in the order in which they were found.
pub proof fn files_of_one_count_stay_in_order(l: Seq<(Seq<char>, nat)>, t: nat)
    ensures
        by_count(l).filter(|f: (Seq<char>, nat)| f.1 == t) == l.filter(
            |f: (Seq<char>, nat)| f.1 == t,
        ),
{
    of_one_count(l, t);
}

} // verus!
