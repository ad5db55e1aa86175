//! Applying a unified diff to the content of a file.

use crate::llm::types::text_view;
use crate::outside;
use crate::text;
use vstd::prelude::*;

verus! {

/// What the line in front of a hunk looks like. The first group is the line
/// of the original at which the hunk begins, the second how many lines of the
/// original it covers.
pub const HUNK_PATTERN: &'static str =
    "^@@ -(\\d+)(?:,(\\d+))? \\+(\\d+)(?:,(\\d+))? @@";

pub const TOO_LARGE: &'static str = "number too large to fit in target type";

pub const NOT_A_DIGIT: &'static str = "invalid digit found in string";

/// The number that the digits `s` behind the number `n` make up, or why they
/// make up none that fits.
pub open spec fn counted(n: int, s: Seq<char>) -> Result<int, Seq<char>>
    decreases s.len(),
{
    if s.len() == 0 {
        Ok(n)
    } else if s[0] < '0' || s[0] > '9' {
        Err(NOT_A_DIGIT@)
    } else {
        let m = n * 10 + (s[0] as int - 48);
        if m > i64::MAX {
            Err(TOO_LARGE@)
        } else {
            counted(m, s.skip(1))
        }
    }
}

/// The number of a line.
fn count(s: &str) -> (r: Result<i64, String>)
    ensures
        match r {
            Ok(n) => counted(0, s@) == Ok::<int, Seq<char>>(n as int) && n >= 0,
            Err(e) => counted(0, s@) == Err::<int, Seq<char>>(e@),
        },
{
    let v = text::to_chars(s);
    let mut n: i64 = 0;
    let mut i: usize = 0;
    assert(v@.skip(0) =~= v@);
    while i < v.len()
        invariant
            i <= v@.len(),
            n >= 0,
            v@ == s@,
            counted(0, v@) == counted(n as int, v@.skip(i as int)),
        decreases v@.len() - i,
    {
        let c = v[i];
        assert(v@.skip(i as int)[0] == c);
        assert(v@.skip(i as int).skip(1) =~= v@.skip(i + 1));
        if c < '0' || c > '9' {
            return Err(NOT_A_DIGIT.to_owned());
        }
        let m: i128 = n as i128 * 10 + (c as u32 - 48) as i128;
        if m > i64::MAX as i128 {
            return Err(TOO_LARGE.to_owned());
        }
        n = m as i64;
        i = i + 1;
    }
    assert(v@.skip(i as int) =~= Seq::empty());
    Ok(n)
}

/// A line of the header of a diff.
pub open spec fn is_header(line: Seq<char>) -> bool {
    text::begins(line, "---"@) || text::begins(line, "+++"@) || text::begins(line, "diff "@)
        || text::begins(line, "index "@)
}

/// How many lines the header of a diff has.
pub open spec fn header_len(lines: Seq<Seq<char>>) -> nat
    decreases lines.len(),
{
    if lines.len() == 0 || !is_header(lines[0]) {
        0
    } else {
        1 + header_len(lines.skip(1))
    }
}

/// How many lines the body of a hunk has: those up to the next hunk.
pub open spec fn body_len(lines: Seq<Seq<char>>) -> nat
    decreases lines.len(),
{
    if lines.len() == 0 || text::begins(lines[0], "@@"@) {
        0
    } else {
        1 + body_len(lines.skip(1))
    }
}

pub proof fn body_len_bounds(lines: Seq<Seq<char>>)
    ensures
        body_len(lines) <= lines.len(),
    decreases lines.len(),
{
    if lines.len() > 0 && !text::begins(lines[0], "@@"@) {
        body_len_bounds(lines.skip(1));
    }
}

/// A line of a hunk begins with a character of one byte, if with any.
pub open spec fn readable(line: Seq<char>) -> bool {
    line.len() == 0 || text::char_bytes(line[0]) == 1
}

/// A line of a hunk stands for a line of the original.
pub open spec fn takes(line: Seq<char>) -> bool {
    line.len() == 0 || line[0] == ' ' || line[0] == '-'
}

/// A line of a hunk stands for a line of the result.
pub open spec fn gives(line: Seq<char>) -> bool {
    line.len() == 0 || line[0] == ' ' || line[0] == '+'
}

/// The line that a line of a hunk stands for.
pub open spec fn given(line: Seq<char>) -> Seq<char> {
    if line.len() == 0 {
        line
    } else {
        line.skip(1)
    }
}

/// What a hunk does: how many lines it takes away and which ones it puts in
/// their place.
#[verifier::ext_equal]
pub struct Hunk {
    pub taken: nat,
    pub lines: Seq<Seq<char>>,
}

/// What the lines of a hunk do. Remarks, which begin with a backslash, do
/// nothing. There is no answer where a line cannot be read.
pub open spec fn hunk(body: Seq<Seq<char>>) -> Option<Hunk>
    decreases body.len(),
{
    if body.len() == 0 {
        Some(Hunk { taken: 0, lines: Seq::empty() })
    } else {
        match hunk(body.drop_last()) {
            None => None,
            Some(h) => {
                let line = body.last();
                if text::begins(line, "\\"@) {
                    Some(h)
                } else if !readable(line) {
                    None
                } else {
                    Some(
                        Hunk {
                            taken: if takes(line) {
                                h.taken + 1
                            } else {
                                h.taken
                            },
                            lines: if gives(line) {
                                h.lines.push(given(line))
                            } else {
                                h.lines
                            },
                        },
                    )
                }
            },
        }
    }
}

/// What is left of a file's lines where a hunk is applied at a place.
pub open spec fn spliced(lines: Seq<Seq<char>>, at: int, h: Hunk) -> Seq<Seq<char>> {
    let end = if at + h.taken <= lines.len() {
        at + h.taken
    } else {
        lines.len() as int
    };
    lines.take(at) + h.lines + lines.skip(end)
}

/// The range of the original that a hunk names: the number of a line, and how
/// many lines from there on it covers, where that is said.
pub type Range = (Seq<char>, Option<Seq<char>>);

/// A range covers no line: it names the line behind which something is put.
pub open spec fn is_empty_range(range: Range) -> bool {
    match range.1 {
        Some(l) => counted(0, l) == Ok::<int, Seq<char>>(0),
        None => false,
    }
}

/// How many lines stay in front of a hunk, in a file that earlier hunks have
/// not moved: those before the first line of its range, and where the range is
/// empty that line too.
pub open spec fn lines_before(n: int, range: Range) -> int {
    if is_empty_range(range) {
        n
    } else {
        n - 1
    }
}

/// The lines of a file after the hunks of a diff, whose lines are `patch`; of
/// each of these, `starts` tells the range of the original of the hunk that
/// begins there, if one does. `offset` is by how much earlier hunks have moved
/// what follows. A number that is none is an error; there is no answer
/// where a hunk cannot be read or begins behind the end of the file.
pub open spec fn applied(
    lines: Seq<Seq<char>>,
    patch: Seq<Seq<char>>,
    starts: Seq<Option<Range>>,
    offset: int,
) -> Option<Result<Seq<Seq<char>>, Seq<char>>>
    decreases patch.len(),
{
    if patch.len() == 0 {
        Some(Ok(lines))
    } else {
        proof {
            body_len_bounds(patch.skip(1));
        }
        match starts[0] {
            None => applied(lines, patch.skip(1), starts.skip(1), offset),
            Some(range) => match counted(0, range.0) {
                Err(e) => Some(Err(e)),
                Ok(n) => {
                    let k = body_len(patch.skip(1)) as int;
                    let at = if lines_before(n, range) + offset < 0 {
                        0
                    } else {
                        lines_before(n, range) + offset
                    };
                    match hunk(patch.skip(1).take(k)) {
                        None => None,
                        Some(h) => if at > lines.len() {
                            None
                        } else {
                            applied(
                                spliced(lines, at, h),
                                patch.skip(1 + k),
                                starts.skip(1 + k),
                                offset + h.lines.len() - h.taken,
                            )
                        },
                    }
                },
            },
        }
    }
}

/// The content of a file after a diff. It ends in a line feed where it did
/// before.
pub open spec fn patched(
    original: Seq<char>,
    patch: Seq<Seq<char>>,
    starts: Seq<Option<Range>>,
) -> Option<Result<Seq<char>, Seq<char>>> {
    let k = header_len(patch) as int;
    match applied(text::lines(original), patch.skip(k), starts.skip(k), 0) {
        None => None,
        Some(Err(e)) => Some(Err(e)),
        Some(Ok(lines)) => {
            let out = text::join(lines, "\n"@);
            if text::ends(original, "\n"@) && !text::ends(out, "\n"@) {
                Some(Ok(out + "\n"@))
            } else {
                Some(Ok(out))
            }
        },
    }
}

/// The models of a list of ranges.
pub open spec fn start_views(starts: Seq<Option<(String, Option<String>)>>) -> Seq<Option<Range>> {
    starts.map_values(
        |s: Option<(String, Option<String>)>|
            match s {
                Some((n, l)) => Some((n@, text_view(l))),
                None => None,
            },
    )
}

/// Whether a range covers no line, by how many it is said to cover.
fn covers_none(len: &Option<String>) -> (r: bool)
    ensures
        forall|n: Seq<char>| #[trigger] is_empty_range((n, text_view(*len))) == r,
{
    match len {
        Some(l) => match count(l) {
            Ok(n) => n == 0,
            Err(_) => false,
        },
        None => false,
    }
}

/// What the lines `from..to` of a diff do as the body of a hunk.
fn read_hunk(patch: &Vec<String>, from: usize, to: usize) -> (r: Option<(usize, Vec<String>)>)
    requires
        from <= to <= patch@.len(),
    ensures
        match r {
            Some((taken, lines)) => {
                &&& hunk(text::views(patch@).subrange(from as int, to as int)) == Some(
                    Hunk { taken: taken as nat, lines: text::views(lines@) },
                )
                &&& taken <= to - from
                &&& lines@.len() <= to - from
            },
            None => hunk(text::views(patch@).subrange(from as int, to as int)) is None,
        },
{
    broadcast use text::views_push;

    let ghost all = text::views(patch@).subrange(from as int, to as int);
    let mut taken: usize = 0;
    let mut lines: Vec<String> = Vec::new();
    assert(all.take(0) =~= Seq::empty());
    assert(text::views(lines@) =~= Seq::empty());
    for i in from..to
        invariant
            from <= i,
            from <= to <= patch@.len(),
            all == text::views(patch@).subrange(from as int, to as int),
            taken <= i - from,
            lines@.len() <= i - from,
            hunk(all.take(i - from)) == Some(
                Hunk { taken: taken as nat, lines: text::views(lines@) },
            ),
    {
        let ghost line = all[i - from];
        proof {
            assert(all.take(i + 1 - from).drop_last() =~= all.take(i - from));
            assert(all.take(i + 1 - from).last() == line);
            assert(line == patch@[i as int]@);
        }
        if !text::starts_with(&patch[i], "\\") {
            let v = text::to_chars(&patch[i]);
            if v.len() == 0 {
                let empty = String::new();
                assert(empty@ =~= line);
                taken = taken + 1;
                lines.push(empty);
            } else {
                let c = v[0];
                if c as u32 > 0x7f {
                    proof {
                        hunk_stays_unreadable(all, i + 1 - from);
                    }
                    return None;
                }
                if c == ' ' || c == '-' {
                    taken = taken + 1;
                }
                if c == ' ' || c == '+' {
                    let rest = text::from_range(&v, 1, v.len());
                    assert(rest@ =~= line.skip(1));
                    lines.push(rest);
                }
            }
        }
    }
    assert(all.take(all.len() as int) =~= all);
    Some((taken, lines))
}

proof fn hunk_stays_unreadable(body: Seq<Seq<char>>, n: int)
    requires
        0 <= n <= body.len(),
        hunk(body.take(n)) is None,
    ensures
        hunk(body) is None,
    decreases body.len() - n,
{
    if n == body.len() {
        assert(body.take(n) =~= body);
    } else {
        assert(body.take(n + 1).drop_last() =~= body.take(n));
        hunk_stays_unreadable(body, n + 1);
    }
}

fn find_hunk_end(patch: &Vec<String>, from: usize) -> (r: usize)
    requires
        from <= patch@.len(),
    ensures
        from <= r <= patch@.len(),
        r == from + body_len(text::views(patch@).skip(from as int)),
{
    let ghost all = text::views(patch@);
    let mut i: usize = from;
    while i < patch.len() && !text::starts_with(&patch[i], "@@")
        invariant
            from <= i <= patch@.len(),
            all == text::views(patch@),
            from + body_len(all.skip(from as int)) == i + body_len(all.skip(i as int)),
        decreases patch@.len() - i,
    {
        assert(all.skip(i as int)[0] == patch@[i as int]@);
        assert(all.skip(i as int).skip(1) =~= all.skip(i + 1));
        i = i + 1;
    }
    proof {
        if i < patch@.len() {
            assert(all.skip(i as int)[0] == patch@[i as int]@);
        } else {
            assert(all.skip(i as int) =~= Seq::empty());
        }
    }
    i
}

fn find_header_end(patch: &Vec<String>) -> (r: usize)
    ensures
        r <= patch@.len(),
        r == header_len(text::views(patch@)),
{
    let ghost all = text::views(patch@);
    let mut i: usize = 0;
    assert(all.skip(0) =~= all);
    while i < patch.len() && (text::starts_with(&patch[i], "---") || text::starts_with(
        &patch[i],
        "+++",
    ) || text::starts_with(&patch[i], "diff ") || text::starts_with(&patch[i], "index "))
        invariant
            i <= patch@.len(),
            all == text::views(patch@),
            header_len(all) == i + header_len(all.skip(i as int)),
        decreases patch@.len() - i,
    {
        assert(all.skip(i as int)[0] == patch@[i as int]@);
        assert(all.skip(i as int).skip(1) =~= all.skip(i + 1));
        i = i + 1;
    }
    proof {
        if i < patch@.len() {
            assert(all.skip(i as int)[0] == patch@[i as int]@);
        } else {
            assert(all.skip(i as int) =~= Seq::empty());
        }
    }
    i
}

/// The lines of a file with a hunk applied.
fn splice_lines(lines: Vec<String>, at: usize, taken: usize, added: Vec<String>) -> (r: Vec<String>)
    requires
        at <= lines@.len(),
    ensures
        text::views(r@) == spliced(
            text::views(lines@),
            at as int,
            (Hunk { taken: taken as nat, lines: text::views(added@) }),
        ),
        r@.len() <= lines@.len() + added@.len(),
{
    let ghost all = lines@;
    let ghost put = added@;
    let mut front = lines;
    let mut rest = front.split_off(at);
    let mut added = added;
    let n: usize = if taken <= rest.len() {
        taken
    } else {
        rest.len()
    };
    let mut tail = rest.split_off(n);
    front.append(&mut added);
    front.append(&mut tail);
    proof {
        let end = at + n;
        assert(front@ =~= all.take(at as int) + put + all.skip(end));
        assert(text::views(front@) =~= text::views(all).take(at as int) + text::views(put)
            + text::views(all).skip(end));
    }
    front
}

/// The lines of a file after a diff, or no answer.
fn try_lines(
    lines: Vec<String>,
    patch: &Vec<String>,
    starts: &Vec<Option<(String, Option<String>)>>,
) -> (r: Option<Result<Vec<String>, String>>)
    requires
        patch@.len() == starts@.len(),
    ensures
        ({
            let k = header_len(text::views(patch@)) as int;
            let want = applied(
                text::views(lines@),
                text::views(patch@).skip(k),
                start_views(starts@).skip(k),
                0,
            );
            match r {
                None => want is None,
                Some(Ok(l)) => want == Some(
                    Ok::<Seq<Seq<char>>, Seq<char>>(text::views(l@)),
                ),
                Some(Err(e)) => want == Some(Err::<Seq<Seq<char>>, Seq<char>>(e@)),
            }
        }),
{
    let ghost p = text::views(patch@);
    let ghost s = start_views(starts@);
    let mut i: usize = find_header_end(patch);
    let ghost want = applied(text::views(lines@), p.skip(i as int), s.skip(i as int), 0);
    let mut result = lines;
    let mut offset: i128 = 0;
    while i < patch.len()
        invariant
            i <= patch@.len(),
            patch@.len() == starts@.len(),
            p == text::views(patch@),
            s == start_views(starts@),
            want == applied(
                text::views(lines@),
                p.skip(header_len(p) as int),
                s.skip(header_len(p) as int),
                0,
            ),
            want == applied(
                text::views(result@),
                p.skip(i as int),
                s.skip(i as int),
                offset as int,
            ),
            -(i as int) <= offset <= i,
        decreases patch@.len() - i,
    {
        proof {
            assert(s.skip(i as int)[0] == s[i as int]);
            assert(p.skip(i as int).skip(1) =~= p.skip(i + 1));
            assert(s.skip(i as int).skip(1) =~= s.skip(i + 1));
        }
        match &starts[i] {
            None => {
                i = i + 1;
            },
            Some((digits, len)) => {
                assert(s[i as int] == Some((digits@, text_view(*len))));
                let n = match count(digits) {
                    Ok(n) => n,
                    Err(e) => {
                        return Some(Err(e));
                    },
                };
                let end = find_hunk_end(patch, i + 1);
                proof {
                    let k = end - (i + 1);
                    assert(p.skip(i + 1).take(k) =~= p.subrange(i + 1, end as int));
                    assert(p.skip(i as int).skip(1 + k) =~= p.skip(end as int));
                    assert(s.skip(i as int).skip(1 + k) =~= s.skip(end as int));
                }
                let (taken, added) = match read_hunk(patch, i + 1, end) {
                    Some(h) => h,
                    None => {
                        return None;
                    },
                };
                let before: i128 = if covers_none(len) {
                    n as i128
                } else {
                    n as i128 - 1
                };
                let wanted: i128 = before + offset;
                let at: u128 = if wanted < 0 {
                    0
                } else {
                    wanted as u128
                };
                if at > result.len() as u128 {
                    return None;
                }
                let added_len: usize = added.len();
                assert(text::views(added@).len() == added@.len());
                result = splice_lines(result, at as usize, taken, added);
                offset = offset + added_len as i128 - taken as i128;
                i = end;
            },
        }
    }
    assert(p.skip(i as int) =~= Seq::empty());
    Some(Ok(result))
}

/// The content of a file after a diff, given for each line of the diff where
/// a hunk begins there; no answer where a hunk cannot be read or begins behind
/// the end of the file.
pub fn try_patch(
    original: &str,
    patch: &Vec<String>,
    starts: &Vec<Option<(String, Option<String>)>>,
) -> (r: Option<Result<String, String>>)
    requires
        patch@.len() == starts@.len(),
    ensures
        ({
            let want = patched(original@, text::views(patch@), start_views(starts@));
            match r {
                None => want is None,
                Some(Ok(t)) => want == Some(Ok::<Seq<char>, Seq<char>>(t@)),
                Some(Err(e)) => want == Some(Err::<Seq<char>, Seq<char>>(e@)),
            }
        }),
{
    match try_lines(text::split_lines(original), patch, starts) {
        None => None,
        Some(Err(e)) => Some(Err(e)),
        Some(Ok(lines)) => {
            let mut out = text::joined(&lines, "\n");
            if text::ends_with(original, "\n") && !text::ends_with(&out, "\n") {
                out.append("\n");
            }
            Some(Ok(out))
        },
    }
}

/// For each line of a diff, the range of the hunk that begins there.
pub open spec fn hunk_starts(patch: Seq<Seq<char>>) -> Seq<Option<Range>> {
    patch.map_values(
        |l: Seq<char>|
            match outside::regex_groups(HUNK_PATTERN@, false, l) {
                Some((Some(a), b)) => Some((a, b)),
                _ => None,
            },
    )
}

/// For each line of a diff, the range of the hunk that begins there; or why
/// the pattern of such a line cannot be compiled.
fn find_starts(patch: &Vec<String>) -> (r: Result<Vec<Option<(String, Option<String>)>>, String>)
    ensures
        match r {
            Ok(s) => {
                &&& outside::regex_problem(HUNK_PATTERN@, false) is None
                &&& s@.len() == patch@.len()
                &&& start_views(s@) == hunk_starts(text::views(patch@))
            },
            Err(e) => outside::regex_problem(HUNK_PATTERN@, false) == Some(e@),
        },
{
    let re = match outside::regex_compile(HUNK_PATTERN, false) {
        Ok(re) => re,
        Err(e) => {
            return Err(e);
        },
    };
    let ghost want = hunk_starts(text::views(patch@));
    let mut out: Vec<Option<(String, Option<String>)>> = Vec::new();
    for i in 0..patch.len()
        invariant
            outside::regex_pattern(re) == HUNK_PATTERN@,
            !outside::regex_folds(re),
            want == hunk_starts(text::views(patch@)),
            out@.len() == i,
            start_views(out@) == want.take(i as int),
    {
        let ghost before = out@;
        assert(text::views(patch@)[i as int] == patch@[i as int]@);
        let start = match outside::regex_capture(&re, &patch[i]) {
            Some((Some(a), b)) => Some((a, b)),
            _ => None,
        };
        out.push(start);
        assert(start_views(out@) =~= start_views(before).push(start_views(out@)[i as int]));
        assert(want.take(i + 1) =~= want.take(i as int).push(want[i as int]));
    }
    assert(want.take(want.len() as int) =~= want);
    Ok(out)
}

/// What applying a diff to the content of a file gives.
pub open spec fn patch_result(original: Seq<char>, patch: Seq<char>) -> Option<
    Result<Seq<char>, Seq<char>>,
> {
    match outside::regex_problem(HUNK_PATTERN@, false) {
        Some(e) => Some(Err(e)),
        None => patched(original, text::lines(patch), hunk_starts(text::lines(patch))),
    }
}

fn try_unified_patch(original: &str, patch: &str) -> (r: Option<Result<String, String>>)
    ensures
        match r {
            None => patch_result(original@, patch@) is None,
            Some(Ok(t)) => patch_result(original@, patch@) == Some(
                Ok::<Seq<char>, Seq<char>>(t@),
            ),
            Some(Err(e)) => patch_result(original@, patch@) == Some(
                Err::<Seq<char>, Seq<char>>(e@),
            ),
        },
{
    let lines = text::split_lines(patch);
    match find_starts(&lines) {
        Ok(starts) => try_patch(original, &lines, &starts),
        Err(e) => Some(Err(e)),
    }
}

/// Applies a diff to the content of a file. The lines of the context are not
/// compared with the file.
pub fn apply_unified_patch(original: &str, patch: &str) -> (r: Result<String, String>)
    requires
        patch_result(original@, patch@) is Some,
    ensures
        match r {
            Ok(t) => patch_result(original@, patch@) == Some(Ok::<Seq<char>, Seq<char>>(t@)),
            Err(e) => patch_result(original@, patch@) == Some(Err::<Seq<char>, Seq<char>>(e@)),
        },
{
    match try_unified_patch(original, patch) {
        Some(r) => r,
        None => Err(String::new()),
    }
}

/// Applies a diff to the content of a file, if every hunk can be read and
/// begins within the file.
pub fn patch_if_possible(original: &str, patch: &str) -> (r: Option<Result<String, String>>)
    ensures
        match r {
            None => patch_result(original@, patch@) is None,
            Some(Ok(t)) => patch_result(original@, patch@) == Some(
                Ok::<Seq<char>, Seq<char>>(t@),
            ),
            Some(Err(e)) => patch_result(original@, patch@) == Some(
                Err::<Seq<char>, Seq<char>>(e@),
            ),
        },
{
    if try_unified_patch(original, patch).is_some() {
        Some(apply_unified_patch(original, patch))
    } else {
        None
    }
}

/// A diff without hunks changes nothing but line ends.
pub proof fn no_hunks_no_change(
    lines: Seq<Seq<char>>,
    patch: Seq<Seq<char>>,
    starts: Seq<Option<Range>>,
    offset: int,
)
    requires
        starts.len() == patch.len(),
        forall|i: int| 0 <= i < starts.len() ==> starts[i] is None,
    ensures
        applied(lines, patch, starts, offset) == Some(Ok::<_, Seq<char>>(lines)),
    decreases patch.len(),
{
    if patch.len() > 0 {
        assert(starts[0] is None);
        no_hunks_no_change(lines, patch.skip(1), starts.skip(1), offset);
    }
}

/// A hunk whose range of the original is empty puts its lines behind the line
/// that the range names, and leaves all others.
pub proof fn an_empty_range_inserts_behind(
    lines: Seq<Seq<char>>,
    header: Seq<char>,
    body: Seq<Seq<char>>,
    range: Range,
    n: int,
    added: Seq<Seq<char>>,
)
    requires
        is_empty_range(range),
        counted(0, range.0) == Ok::<int, Seq<char>>(n),
        0 <= n <= lines.len(),
        body_len(body) == body.len(),
        hunk(body) == Some(Hunk { taken: 0, lines: added }),
    ensures
        applied(
            lines,
            seq![header] + body,
            seq![Some(range)] + body.map_values(|l: Seq<char>| None::<Range>),
            0,
        ) == Some(Ok::<_, Seq<char>>(lines.take(n) + added + lines.skip(n))),
{
    let patch = seq![header] + body;
    let starts = seq![Some(range)] + body.map_values(|l: Seq<char>| None::<Range>);
    let k = body.len() as int;
    assert(starts[0] == Some(range));
    assert(patch.skip(1) =~= body);
    assert(body.take(k) =~= body);
    assert(patch.skip(1 + k) =~= Seq::empty());
    reveal_with_fuel(applied, 2);
}

/// The context of a hunk stays: a hunk of nothing but context, taken from the
/// place it is applied to, changes nothing.
pub proof fn context_stays(lines: Seq<Seq<char>>, at: int, n: int)
    requires
        0 <= at <= at + n <= lines.len(),
    ensures
        hunk(
            lines.subrange(at, at + n).map_values(|l: Seq<char>| seq![' '] + l),
        ) == Some(Hunk { taken: n as nat, lines: lines.subrange(at, at + n) }),
        spliced(lines, at, (Hunk { taken: n as nat, lines: lines.subrange(at, at + n) })) == lines,
    decreases n,
{
    let body = lines.subrange(at, at + n).map_values(|l: Seq<char>| seq![' '] + l);
    if n > 0 {
        context_stays(lines, at, n - 1);
        let front = lines.subrange(at, at + n - 1).map_values(|l: Seq<char>| seq![' '] + l);
        assert(body.drop_last() =~= front);
        let line = body.last();
        assert(line == seq![' '] + lines[at + n - 1]);
        assert(given(line) =~= lines[at + n - 1]);
        assert(!text::begins(line, "\\"@)) by {
            reveal_strlit("\\");
            if text::begins(line, "\\"@) {
                assert(line.subrange(0, 1)[0] == '\\');
            }
        }
        assert(lines.subrange(at, at + n - 1).push(lines[at + n - 1]) =~= lines.subrange(
            at,
            at + n,
        ));
    } else {
        assert(body =~= Seq::empty());
        assert(lines.subrange(at, at + n) =~= Seq::empty());
    }
    assert(spliced(lines, at, (Hunk { taken: n as nat, lines: lines.subrange(at, at + n) }))
        =~= lines);
}

} // verus!
