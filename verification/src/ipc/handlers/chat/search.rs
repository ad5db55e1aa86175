//! Looking for files by a glob, and for lines of a file by a regular
//! expression.

use crate::ipc::handlers::chat::files;
use crate::outside;
use crate::text;
use vstd::prelude::*;

verus! {

// ---------------------------------------------------------------------------
// Globs
// ---------------------------------------------------------------------------

/// The glob that is walked: one that is not absolute is below a directory.
pub fn full_glob(base: &str, pattern: &str, absolute: bool) -> (r: String)
    ensures
        r@ == (if absolute {
            pattern@
        } else {
            base@ + "/"@ + pattern@
        }),
{
    if absolute {
        pattern.to_owned()
    } else {
        files::three(base, "/", pattern)
    }
}

/// The models of files with the times of their last change.
pub open spec fn file_views(l: Seq<(String, i128)>) -> Seq<(Seq<char>, int)> {
    l.map_values(|f: (String, i128)| (f.0@, f.1 as int))
}

/// The place of a file of a given time in a list from new to old.
pub open spec fn file_place(l: Seq<(Seq<char>, int)>, time: int) -> nat
    decreases l.len(),
{
    if l.len() == 0 || l[0].1 < time {
        0
    } else {
        1 + file_place(l.skip(1), time)
    }
}

/// The files from new to old; those of one time stay in order.
pub open spec fn newest_first(l: Seq<(Seq<char>, int)>) -> Seq<(Seq<char>, int)>
    decreases l.len(),
{
    if l.len() == 0 {
        Seq::empty()
    } else {
        let before = newest_first(l.drop_last());
        before.insert(file_place(before, l.last().1) as int, l.last())
    }
}

proof fn file_place_bounds(l: Seq<(Seq<char>, int)>, time: int)
    ensures
        file_place(l, time) <= l.len(),
        forall|i: int| 0 <= i < file_place(l, time) ==> (#[trigger] l[i]).1 >= time,
        file_place(l, time) < l.len() ==> l[file_place(l, time) as int].1 < time,
    decreases l.len(),
{
    if l.len() > 0 && l[0].1 >= time {
        file_place_bounds(l.skip(1), time);
        assert forall|i: int| 0 <= i < file_place(l, time) implies (#[trigger] l[i]).1 >= time by {
            if i > 0 {
                assert(l[i] == l.skip(1)[i - 1]);
            }
        }
    }
}

/// The files of a glob come from the one changed last to the one changed first,
/// and none is lost.
pub proof fn files_are_sorted(l: Seq<(Seq<char>, int)>)
    ensures
        newest_first(l).len() == l.len(),
        newest_first(l).to_multiset() == l.to_multiset(),
        forall|i: int, j: int|
            0 <= i < j < l.len() ==> (#[trigger] newest_first(l)[i]).1 >= (
            #[trigger] newest_first(l)[j]).1,
    decreases l.len(),
{
    if l.len() > 0 {
        let before = newest_first(l.drop_last());
        let last = l.last();
        let p = file_place(before, last.1) as int;
        files_are_sorted(l.drop_last());
        file_place_bounds(before, last.1);
        let after = newest_first(l);
        assert(l =~= l.drop_last().push(last));
        vstd::seq_lib::to_multiset_insert(before, p, last);
        vstd::seq_lib::to_multiset_build(l.drop_last(), last);
        assert forall|i: int, j: int| 0 <= i < j < l.len() implies (#[trigger] after[i]).1 >= (
        #[trigger] after[j]).1 by {
            let a = if i < p {
                i
            } else {
                i - 1
            };
            let b = if j < p {
                j
            } else {
                j - 1
            };
            if i != p && j != p {
                assert(before[a].1 >= before[b].1);
            } else if i == p {
                if b > p {
                    assert(before[p].1 >= before[b].1);
                }
            }
        }
    } else {
        assert(l =~= newest_first(l));
    }
}

fn sort_files(l: &Vec<(String, i128)>) -> (r: Vec<(String, i128)>)
    ensures
        file_views(r@) == newest_first(file_views(l@)),
{
    let ghost all = file_views(l@);
    let mut out: Vec<(String, i128)> = Vec::new();
    assert(all.take(0) =~= Seq::empty());
    assert(file_views(out@) =~= Seq::empty());
    for i in 0..l.len()
        invariant
            all == file_views(l@),
            file_views(out@) == newest_first(all.take(i as int)),
    {
        let time: i128 = l[i].1;
        let ghost before = file_views(out@);
        let mut p: usize = 0;
        assert(before.skip(0) =~= before);
        while p < out.len() && out[p].1 >= time
            invariant
                p <= out@.len(),
                before == file_views(out@),
                file_place(before, time as int) == p + file_place(
                    before.skip(p as int),
                    time as int,
                ),
            decreases out@.len() - p,
        {
            assert(before.skip(p as int)[0] == (out@[p as int].0@, out@[p as int].1 as int));
            assert(before.skip(p as int).skip(1) =~= before.skip(p + 1));
            p = p + 1;
        }
        proof {
            if p < out@.len() {
                assert(before.skip(p as int)[0] == (out@[p as int].0@, out@[p as int].1 as int));
            } else {
                assert(before.skip(p as int) =~= Seq::empty());
            }
            assert(all.take(i + 1).drop_last() =~= all.take(i as int));
            assert(all.take(i + 1).last() == (l@[i as int].0@, time as int));
        }
        let file = (l[i].0.clone(), time);
        out.insert(p, file);
        assert(file_views(out@) =~= before.insert(p as int, (file.0@, time as int)));
    }
    assert(all.take(all.len() as int) =~= all);
    out
}

/// The first `n` files of a list, each on a line.
pub open spec fn file_lines(l: Seq<(Seq<char>, int)>, n: nat) -> Seq<char>
    decreases n,
{
    if n == 0 {
        Seq::empty()
    } else {
        file_lines(l, (n - 1) as nat) + l[n - 1].0 + "\n"@
    }
}

/// The answer to a glob.
pub open spec fn glob_text(
    pattern: Seq<char>,
    found: Result<Seq<(Seq<char>, int)>, Seq<char>>,
) -> Seq<char> {
    match found {
        Err(e) => "Error: invalid glob pattern: "@ + e,
        Ok(l) => if l.len() == 0 {
            "No files matched pattern '"@ + pattern + "'"@
        } else {
            let head = text::decimal(l.len()) + " matches for '"@ + pattern + "':\n"@;
            if l.len() > files::MAX_GLOB {
                head + file_lines(newest_first(l), files::MAX_GLOB as nat) + "... ("@
                    + text::decimal((l.len() - files::MAX_GLOB) as nat) + " more)\n"@
            } else {
                head + file_lines(newest_first(l), l.len())
            }
        },
    }
}

/// The model of what a glob found.
pub open spec fn found_view(found: Result<Vec<(String, i128)>, String>) -> Result<
    Seq<(Seq<char>, int)>,
    Seq<char>,
> {
    match found {
        Ok(l) => Ok(file_views(l@)),
        Err(e) => Err(e@),
    }
}

/// The answer to a glob: the files it stands for, up to two hundred, from the
/// one changed last on; or why it is none.
pub fn glob_answer(pattern: &str, found: &Result<Vec<(String, i128)>, String>) -> (r: String)
    ensures
        r@ == glob_text(pattern@, found_view(*found)),
{
    let l = match found {
        Err(e) => {
            let mut out = "Error: invalid glob pattern: ".to_owned();
            out.append(e);
            return out;
        },
        Ok(l) => l,
    };
    let ghost all = file_views(l@);
    assert(all.len() == l@.len());
    if l.len() == 0 {
        return files::three("No files matched pattern '", pattern, "'");
    }
    let sorted = sort_files(l);
    proof {
        files_are_sorted(all);
    }
    assert(file_views(sorted@).len() == sorted@.len());
    let mut out = text::number(l.len() as u64);
    out.append(" matches for '");
    out.append(pattern);
    out.append("':\n");
    let n: usize = if l.len() > files::MAX_GLOB {
        files::MAX_GLOB
    } else {
        l.len()
    };
    let ghost head = out@;
    for i in 0..n
        invariant
            n <= sorted@.len(),
            file_views(sorted@) == newest_first(all),
            out@ == head + file_lines(newest_first(all), i as nat),
    {
        assert(file_views(sorted@)[i as int].0 == sorted@[i as int].0@);
        out.append(&sorted[i].0);
        out.append("\n");
        assert(out@ =~= head + file_lines(newest_first(all), (i + 1) as nat));
    }
    if l.len() > files::MAX_GLOB {
        out.append("... (");
        out.append(&text::number((l.len() - files::MAX_GLOB) as u64));
        out.append(" more)\n");
    }
    out
}

// ---------------------------------------------------------------------------
// Lines
// ---------------------------------------------------------------------------

/// A line around a match: a mark for the one that matches, and its number.
pub open spec fn near_line(lines: Seq<Seq<char>>, j: int, i: int) -> Seq<char> {
    (if j == i {
        ">"@
    } else {
        " "@
    }) + " "@ + text::pad_left(text::decimal((j + 1) as nat), 5, ' ') + " "@ + lines[j]
}

/// The first line around a match.
pub open spec fn near_start(i: int, context: u64) -> int {
    if context < i {
        i - context
    } else {
        0
    }
}

/// The line behind the last one around a match.
pub open spec fn near_end(total: int, i: int, context: u64) -> int {
    files::least(i + context + 1, total)
}

/// The lines around a match.
pub open spec fn near(lines: Seq<Seq<char>>, i: int, context: u64) -> Seq<char> {
    let start = near_start(i, context);
    let end = near_end(lines.len() as int, i, context);
    text::join(Seq::new((end - start) as nat, |k: int| near_line(lines, start + k, i)), "\n"@)
}

/// What is shown for the matches among the first `n` lines.
pub open spec fn matches(
    lines: Seq<Seq<char>>,
    hits: Seq<bool>,
    context: u64,
    n: nat,
) -> Seq<Seq<char>>
    decreases n,
{
    if n == 0 {
        Seq::empty()
    } else {
        let before = matches(lines, hits, context, (n - 1) as nat);
        if hits[n - 1] {
            before.push(near(lines, n - 1, context))
        } else {
            before
        }
    }
}

/// The answer to a search of a file.
pub open spec fn search_text(
    pattern: Seq<char>,
    path: Seq<char>,
    lines: Seq<Seq<char>>,
    hits: Seq<bool>,
    context: u64,
) -> Seq<char> {
    let found = matches(lines, hits, context, lines.len());
    if found.len() == 0 {
        "No matches for '"@ + pattern + "' in "@ + path
    } else {
        text::decimal(found.len()) + " matches in "@ + path + ":\n\n"@ + text::join(
            found,
            "\n---\n"@,
        )
    }
}

fn show_near(lines: &Vec<String>, i: usize, context: u64) -> (r: String)
    requires
        i < lines@.len(),
    ensures
        r@ == near(text::views(lines@), i as int, context),
{
    broadcast use text::views_push;

    let ghost all = text::views(lines@);
    let start: usize = if context < i as u64 {
        i - context as usize
    } else {
        0
    };
    let room: usize = lines.len() - i - 1;
    let end: usize = if context < room as u64 {
        i + context as usize + 1
    } else {
        lines.len()
    };
    let ghost want = Seq::new(
        (end - start) as nat,
        |k: int| near_line(all, start as int + k, i as int),
    );
    let mut block: Vec<String> = Vec::new();
    assert(all.len() == lines@.len());
    for j in start..end
        invariant
            start <= j,
            end <= lines@.len(),
            all == text::views(lines@),
            want == Seq::new(
                (end - start) as nat,
                |k: int| near_line(all, start as int + k, i as int),
            ),
            text::views(block@) == want.take(j - start),
    {
        let mut line = (if j == i {
            ">"
        } else {
            " "
        }).to_owned();
        line.append(" ");
        line.append(&text::padded_left(&text::number(j as u64 + 1), 5, ' '));
        line.append(" ");
        line.append(&lines[j]);
        assert(all[j as int] == lines@[j as int]@);
        assert(want[j - start] == line@);
        assert(want.take(j + 1 - start) =~= want.take(j - start).push(line@));
        block.push(line);
    }
    assert(want.take(want.len() as int) =~= want);
    text::joined(&block, "\n")
}

/// The answer to a search of a file, from the lines that match: each with the
/// lines around it.
pub fn search_answer(
    pattern: &str,
    path: &str,
    lines: &Vec<String>,
    hits: &Vec<bool>,
    context: u64,
) -> (r: String)
    requires
        hits@.len() == lines@.len(),
    ensures
        r@ == search_text(pattern@, path@, text::views(lines@), hits@, context),
{
    broadcast use text::views_push;

    let ghost all = text::views(lines@);
    let mut found: Vec<String> = Vec::new();
    assert(text::views(found@) =~= matches(all, hits@, context, 0));
    for i in 0..lines.len()
        invariant
            all == text::views(lines@),
            hits@.len() == lines@.len(),
            text::views(found@) == matches(all, hits@, context, i as nat),
    {
        if hits[i] {
            found.push(show_near(lines, i, context));
        }
    }
    assert(text::views(found@).len() == found@.len());
    assert(all.len() == lines@.len());
    if found.len() == 0 {
        let mut out = "No matches for '".to_owned();
        out.append(pattern);
        out.append("' in ");
        out.append(path);
        return out;
    }
    let mut out = text::number(found.len() as u64);
    out.append(" matches in ");
    out.append(path);
    out.append(":\n\n");
    out.append(&text::joined(&found, "\n---\n"));
    out
}

/// The lines of a list that match a pattern.
pub open spec fn hits_in(pattern: Seq<char>, folds: bool, lines: Seq<Seq<char>>) -> Seq<bool> {
    lines.map_values(|l: Seq<char>| outside::regex_matches(pattern, folds, l))
}

/// The answer to a search of a file for a regular expression: each line that
/// matches, with the lines around it; or why the pattern is none.
pub fn search_in_file(
    pattern: &str,
    case_insensitive: bool,
    path: &str,
    content: &str,
    context: u64,
) -> (r: String)
    ensures
        r@ == (match outside::regex_problem(pattern@, case_insensitive) {
            Some(e) => "Error: invalid regex: "@ + e,
            None => search_text(
                pattern@,
                path@,
                text::lines(content@),
                hits_in(pattern@, case_insensitive, text::lines(content@)),
                context,
            ),
        }),
{
    let re = match outside::regex_compile(pattern, case_insensitive) {
        Ok(re) => re,
        Err(e) => {
            let mut out = "Error: invalid regex: ".to_owned();
            out.append(&e);
            return out;
        },
    };
    let lines = text::split_lines(content);
    let ghost all = text::views(lines@);
    let ghost want = hits_in(pattern@, case_insensitive, all);
    let mut hits: Vec<bool> = Vec::new();
    for i in 0..lines.len()
        invariant
            all == text::views(lines@),
            want == hits_in(pattern@, case_insensitive, all),
            outside::regex_pattern(re) == pattern@,
            outside::regex_folds(re) == case_insensitive,
            hits@ == want.take(i as int),
    {
        let hit = outside::regex_is_match(&re, &lines[i]);
        assert(all[i as int] == lines@[i as int]@);
        assert(want[i as int] == hit);
        hits.push(hit);
        assert(want.take(i + 1) =~= want.take(i as int).push(hit));
    }
    assert(want.take(want.len() as int) =~= want);
    search_answer(pattern, path, &lines, &hits, context)
}

} // verus!
