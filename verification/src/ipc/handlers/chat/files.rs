//! What the tools that look at files answer.

use crate::ipc::handlers::chat::outline;
use crate::outside;
use crate::text;
use vstd::prelude::*;

verus! {

/// How many lines of a file are shown where no number is asked for.
pub const DEFAULT_LINES: usize = 2000;

/// How many imports of a file are shown.
pub const MAX_IMPORTS: usize = 20;

/// How many characters of a diff are shown.
pub const MAX_DIFF_CHARS: usize = 3_000;

/// How many entries of a directory are listed.
pub const MAX_ENTRIES: usize = 500;

/// How deep a directory is listed, with what lies in its directories.
pub const LIST_DEPTH: usize = 3;

/// How many files of a glob are listed.
pub const MAX_GLOB: usize = 200;

/// The smaller of two numbers.
pub open spec fn least(a: int, b: int) -> int {
    if a < b {
        a
    } else {
        b
    }
}

/// Puts three texts together.
pub fn three(a: &str, b: &str, c: &str) -> (r: String)
    ensures
        r@ == a@ + b@ + c@,
{
    let mut t = a.to_owned();
    t.append(b);
    t.append(c);
    t
}

/// The answer of a tool that gives a text or fails.
pub open spec fn plain(outcome: Result<Seq<char>, Seq<char>>) -> Seq<char> {
    match outcome {
        Ok(t) => t,
        Err(e) => "Error: "@ + e,
    }
}

/// The model of an outcome.
pub open spec fn outcome_view(r: Result<String, String>) -> Result<Seq<char>, Seq<char>> {
    match r {
        Ok(t) => Ok(t@),
        Err(e) => Err(e@),
    }
}

/// The answer of a tool that gives a text or fails.
pub fn plain_answer(outcome: Result<String, String>) -> (r: String)
    ensures
        r@ == plain(outcome_view(outcome)),
{
    match outcome {
        Ok(t) => t,
        Err(e) => {
            let mut t = "Error: ".to_owned();
            t.append(&e);
            t
        },
    }
}

// ---------------------------------------------------------------------------
// Reading
// ---------------------------------------------------------------------------

/// What is put in front of a file that has changed since the last commit.
pub open spec fn diff_note(diff: Seq<char>) -> Option<Seq<char>> {
    let t = text::trim(diff);
    if t.len() == 0 {
        None
    } else {
        Some(
            "[Recent uncommitted changes]\n```diff\n"@ + text::head(t, MAX_DIFF_CHARS as nat)
                + "\n```\n"@,
        )
    }
}

fn note_diff(diff: &str) -> (r: Option<String>)
    ensures
        match r {
            Some(t) => diff_note(diff@) == Some(t@),
            None => diff_note(diff@) is None,
        },
{
    let t = text::trimmed(diff);
    if t.as_str().is_empty() {
        return None;
    }
    Some(
        three(
            "[Recent uncommitted changes]\n```diff\n",
            &text::take_chars(&t, MAX_DIFF_CHARS),
            "\n```\n",
        ),
    )
}

/// What is put in front of a file, from the two diffs that were made of it:
/// against the last commit and, where that one is empty, against the index. A
/// diff that could not be made is absent.
pub open spec fn change_note(head: Option<Seq<u8>>, index: Option<Seq<u8>>) -> Option<Seq<char>> {
    match head {
        None => None,
        Some(h) => match diff_note(outside::lossy_text(h)) {
            Some(n) => Some(n),
            None => match index {
                None => None,
                Some(i) => diff_note(outside::lossy_text(i)),
            },
        },
    }
}

/// The model of bytes that may be absent.
pub open spec fn bytes_view(b: Option<Vec<u8>>) -> Option<Seq<u8>> {
    match b {
        Some(v) => Some(v@),
        None => None,
    }
}

/// What is put in front of a file that has changed since the last commit, from
/// what the two diffs of it printed.
pub fn git_diff_for_file(head: &Option<Vec<u8>>, index: &Option<Vec<u8>>) -> (r: Option<String>)
    ensures
        match r {
            Some(t) => change_note(bytes_view(*head), bytes_view(*index)) == Some(t@),
            None => change_note(bytes_view(*head), bytes_view(*index)) is None,
        },
{
    match head {
        None => None,
        Some(h) => match note_diff(&outside::utf8_lossy(h.as_slice())) {
            Some(n) => Some(n),
            None => match index {
                None => None,
                Some(i) => note_diff(&outside::utf8_lossy(i.as_slice())),
            },
        },
    }
}

/// The lines from the one behind `from` to `to`, each with its number.
pub open spec fn numbered(lines: Seq<Seq<char>>, from: int, to: int) -> Seq<char>
    decreases to - from,
{
    if to <= from {
        Seq::empty()
    } else {
        numbered(lines, from, to - 1) + text::pad_left(text::decimal(to as nat), 6, ' ') + "\t"@
            + lines[to - 1] + "\n"@
    }
}

/// The imports of a list, each on a line.
pub open spec fn import_lines(list: Seq<Seq<char>>, n: nat) -> Seq<char>
    decreases n,
{
    if n == 0 {
        Seq::empty()
    } else {
        import_lines(list, (n - 1) as nat) + "  "@ + list[n - 1] + "\n"@
    }
}

/// The first line that is shown of a file.
pub open spec fn first_line(total: int, offset: u64) -> int {
    least(offset as int, total)
}

/// The line behind the last one that is shown of a file.
pub open spec fn end_line(total: int, offset: u64, limit: Option<u64>) -> int {
    least(
        first_line(total, offset) + (match limit {
            Some(n) => n as int,
            None => DEFAULT_LINES as int,
        }),
        total,
    )
}

/// The answer to a reading of a file.
pub open spec fn read_text(
    content: Seq<char>,
    ext: Seq<char>,
    note: Option<Seq<char>>,
    offset: u64,
    limit: Option<u64>,
) -> Seq<char> {
    let lines = text::lines(content);
    let total = lines.len();
    let end = end_line(total as int, offset, limit);
    let imports = outline::imports(ext, lines);
    (match note {
        Some(n) => n + "\n"@,
        None => Seq::empty(),
    }) + numbered(lines, first_line(total as int, offset), end) + (if end < total {
        "\n[file has "@ + text::decimal(total)
            + " lines total - pass offset/limit to read more]"@
    } else {
        Seq::empty()
    }) + (if imports.len() > 0 {
        "\n[Imports/dependencies detected:\n"@ + import_lines(
            imports,
            least(imports.len() as int, MAX_IMPORTS as int) as nat,
        ) + "]\n"@
    } else {
        Seq::empty()
    })
}

fn append_numbered(out: &mut String, lines: &Vec<String>, from: usize, to: usize)
    requires
        from <= to <= lines@.len(),
    ensures
        final(out)@ == old(out)@ + numbered(text::views(lines@), from as int, to as int),
{
    let ghost all = text::views(lines@);
    let ghost start = out@;
    assert(start + numbered(all, from as int, from as int) =~= start);
    for i in from..to
        invariant
            from <= to <= lines@.len(),
            all == text::views(lines@),
            out@ == start + numbered(all, from as int, i as int),
    {
        let ghost before = out@;
        out.append(&text::padded_left(&text::number((i + 1) as u64), 6, ' '));
        out.append("\t");
        out.append(&lines[i]);
        out.append("\n");
        assert(all[i as int] == lines@[i as int]@);
        assert(out@ =~= start + numbered(all, from as int, i + 1));
    }
}

fn append_imports(out: &mut String, list: &Vec<String>)
    ensures
        final(out)@ == old(out)@ + (if list@.len() > 0 {
            "\n[Imports/dependencies detected:\n"@ + import_lines(
                text::views(list@),
                least(list@.len() as int, MAX_IMPORTS as int) as nat,
            ) + "]\n"@
        } else {
            Seq::empty()
        }),
{
    if list.len() == 0 {
        assert(out@ =~= out@ + Seq::<char>::empty());
        return;
    }
    let ghost all = text::views(list@);
    let ghost start = out@;
    out.append("\n[Imports/dependencies detected:\n");
    let n: usize = if list.len() < MAX_IMPORTS {
        list.len()
    } else {
        MAX_IMPORTS
    };
    let ghost head = out@;
    assert(head + import_lines(all, 0) =~= head);
    for i in 0..n
        invariant
            n <= list@.len(),
            all == text::views(list@),
            out@ == head + import_lines(all, i as nat),
    {
        out.append("  ");
        out.append(&list[i]);
        out.append("\n");
        assert(all[i as int] == list@[i as int]@);
        assert(out@ =~= head + import_lines(all, (i + 1) as nat));
    }
    out.append("]\n");
    assert(out@ =~= start + ("\n[Imports/dependencies detected:\n"@ + import_lines(all, n as nat)
        + "]\n"@));
}

/// The answer to a reading of a file: what has changed in it, its lines with
/// their numbers, and what it imports.
pub fn read_answer(
    content: &str,
    ext: &str,
    note: &Option<String>,
    offset: u64,
    limit: Option<u64>,
) -> (r: String)
    ensures
        r@ == read_text(
            content@,
            ext@,
            match *note {
                Some(n) => Some(n@),
                None => None,
            },
            offset,
            limit,
        ),
{
    let lines = text::split_lines(content);
    let total: usize = lines.len();
    assert(text::views(lines@).len() == total);
    let start: usize = if offset < total as u64 {
        offset as usize
    } else {
        total
    };
    let room: usize = total - start;
    let end: usize = match limit {
        Some(n) => if n < room as u64 {
            start + n as usize
        } else {
            total
        },
        None => if DEFAULT_LINES < room {
            start + DEFAULT_LINES
        } else {
            total
        },
    };
    let mut out = String::new();
    if let Some(n) = note {
        out.append(n);
        out.append("\n");
    }
    append_numbered(&mut out, &lines, start, end);
    if end < total {
        let ghost before = out@;
        out.append("\n[file has ");
        out.append(&text::number(total as u64));
        out.append(" lines total - pass offset/limit to read more]");
        assert(out@ =~= before + ("\n[file has "@ + text::decimal(total as nat)
            + " lines total - pass offset/limit to read more]"@));
    } else {
        assert(out@ =~= out@ + Seq::<char>::empty());
    }
    let imports = outline::extract_imports(content, ext);
    assert(text::views(imports@).len() == imports@.len());
    append_imports(&mut out, &imports);
    out
}

// ---------------------------------------------------------------------------
// Listing
// ---------------------------------------------------------------------------

/// What was found in a directory: its entries by name, or why it cannot be
/// read.
#[derive(Debug)]
pub enum Listing {
    Unread { error: String },
    Entries { list: Vec<Entry> },
}

/// An entry of a directory.
#[derive(Debug)]
pub struct Entry {
    pub name: String,
    /// The path below the directory that is listed.
    pub rel: String,
    /// How many bytes a file has.
    pub size: u64,
    /// What was found in a directory; absent for a file.
    pub inside: Option<Listing>,
}

/// A text so far, and how many entries it holds.
pub struct Listed {
    pub text: Seq<char>,
    pub count: nat,
}

/// An entry is listed: there is no pattern, or the name holds it whatever the
/// case of the letters.
pub open spec fn is_listed(name: Seq<char>, pattern: Seq<char>) -> bool {
    pattern.len() == 0 || text::occurs(
        outside::lowercase_text(name),
        outside::lowercase_text(pattern),
    )
}

/// The space in front of an entry.
pub open spec fn indent(depth: nat) -> Seq<char>
    decreases depth,
{
    if depth == 0 {
        Seq::empty()
    } else {
        indent((depth - 1) as nat) + "  "@
    }
}

/// The line for an entry.
pub open spec fn entry_line(e: Entry, depth: nat) -> Seq<char> {
    if e.inside is Some {
        indent(depth) + e.rel@ + "/  (dir)\n"@
    } else {
        indent(depth) + e.rel@ + "  ("@ + text::decimal(e.size as nat) + " bytes)\n"@
    }
}

/// A text with what was found in a directory behind it.
pub open spec fn listed(
    l: Listing,
    depth: nat,
    max_depth: nat,
    pattern: Seq<char>,
    so_far: Listed,
) -> Listed
    decreases
            max_depth - depth,
            match l {
                Listing::Entries { list } => list@.len() + 1,
                Listing::Unread { error } => 0,
            },
{
    if so_far.count >= MAX_ENTRIES {
        so_far
    } else {
        match l {
            Listing::Unread { error } => Listed {
                text: so_far.text + "  [error: "@ + error@ + "]\n"@,
                count: so_far.count,
            },
            Listing::Entries { list } => listed_from(list@, 0, depth, max_depth, pattern, so_far),
        }
    }
}

/// A text with the entries of a list from `i` on behind it.
pub open spec fn listed_from(
    list: Seq<Entry>,
    i: nat,
    depth: nat,
    max_depth: nat,
    pattern: Seq<char>,
    so_far: Listed,
) -> Listed
    decreases max_depth - depth, list.len() - i,
{
    if i >= list.len() {
        so_far
    } else if so_far.count >= MAX_ENTRIES {
        Listed {
            text: so_far.text + "  [... truncated at "@ + text::decimal(MAX_ENTRIES as nat)
                + " entries]\n"@,
            count: so_far.count,
        }
    } else {
        let e = list[i as int];
        let next = if !is_listed(e.name@, pattern) {
            so_far
        } else {
            let with_line = Listed {
                text: so_far.text + entry_line(e, depth),
                count: so_far.count + 1,
            };
            if e.inside is Some && depth + 1 < max_depth {
                listed(e.inside->0, depth + 1, max_depth, pattern, with_line)
            } else {
                with_line
            }
        };
        listed_from(list, i + 1, depth, max_depth, pattern, next)
    }
}

/// The answer to a listing of a directory.
pub open spec fn list_text(
    base: Seq<char>,
    recursive: bool,
    pattern: Seq<char>,
    l: Listing,
) -> Seq<char> {
    let all = listed(
        l,
        0,
        if recursive {
            LIST_DEPTH as nat
        } else {
            1
        },
        pattern,
        Listed {
            text: "Listing "@ + base + " (recursive="@ + (if recursive {
                "true"@
            } else {
                "false"@
            }) + ")\n"@,
            count: 0,
        },
    );
    if all.count == 0 {
        all.text + "  (empty)\n"@
    } else {
        all.text
    }
}

fn shows(name: &str, pattern: &str) -> (r: bool)
    ensures
        r == is_listed(name@, pattern@),
{
    pattern.is_empty() || text::contains(&outside::lowercase(name), &outside::lowercase(pattern))
}

fn append_entry(out: &mut String, e: &Entry, depth: usize)
    ensures
        final(out)@ == old(out)@ + entry_line(*e, depth as nat),
{
    let mut line = String::new();
    for i in 0..depth
        invariant
            line@ == indent(i as nat),
    {
        line.append("  ");
    }
    line.append(&e.rel);
    if e.inside.is_some() {
        line.append("/  (dir)\n");
    } else {
        line.append("  (");
        line.append(&text::number(e.size));
        line.append(" bytes)\n");
    }
    out.append(&line);
}

fn append_listing(
    l: &Listing,
    depth: usize,
    max_depth: usize,
    pattern: &str,
    out: &mut String,
    count: &mut usize,
)
    requires
        depth < max_depth,
        *old(count) <= MAX_ENTRIES,
    ensures
        *final(count) <= MAX_ENTRIES,
        (Listed { text: final(out)@, count: *final(count) as nat }) == listed(
            *l,
            depth as nat,
            max_depth as nat,
            pattern@,
            (Listed { text: old(out)@, count: *old(count) as nat }),
        ),
    decreases max_depth - depth,
{
    if *count >= MAX_ENTRIES {
        return;
    }
    match l {
        Listing::Unread { error } => {
            out.append("  [error: ");
            out.append(error);
            out.append("]\n");
        },
        Listing::Entries { list } => {
            let ghost goal = listed(
                *l,
                depth as nat,
                max_depth as nat,
                pattern@,
                Listed { text: out@, count: *count as nat },
            );
            let mut i: usize = 0;
            while i < list.len()
                invariant
                    i <= list@.len(),
                    depth < max_depth,
                    *count <= MAX_ENTRIES,
                    goal == listed(
                        *l,
                        depth as nat,
                        max_depth as nat,
                        pattern@,
                        Listed { text: old(out)@, count: *old(count) as nat },
                    ),
                    goal == listed_from(
                        list@,
                        i as nat,
                        depth as nat,
                        max_depth as nat,
                        pattern@,
                        Listed { text: out@, count: *count as nat },
                    ),
                decreases list@.len() - i,
            {
                if *count >= MAX_ENTRIES {
                    out.append("  [... truncated at ");
                    out.append(&text::number(MAX_ENTRIES as u64));
                    out.append(" entries]\n");
                    return;
                }
                let e = &list[i];
                if shows(&e.name, pattern) {
                    append_entry(out, e, depth);
                    *count = *count + 1;
                    if let Some(inside) = &e.inside {
                        if depth + 1 < max_depth {
                            append_listing(inside, depth + 1, max_depth, pattern, out, count);
                        }
                    }
                }
                i = i + 1;
            }
        },
    }
}

/// The answer to a listing of a directory: its entries, and those of the
/// directories in it as far as that is asked for, up to five hundred.
pub fn list_answer(base: &str, recursive: bool, pattern: &str, l: &Listing) -> (r: String)
    ensures
        r@ == list_text(base@, recursive, pattern@, *l),
{
    let mut out = "Listing ".to_owned();
    out.append(base);
    out.append(" (recursive=");
    out.append(
        if recursive {
            "true"
        } else {
            "false"
        },
    );
    out.append(")\n");
    let max_depth: usize = if recursive {
        LIST_DEPTH
    } else {
        1
    };
    let mut count: usize = 0;
    append_listing(l, 0, max_depth, pattern, &mut out, &mut count);
    if count == 0 {
        out.append("  (empty)\n");
    }
    out
}

/// However large a directory is, its listing holds at most five hundred
/// entries, and nothing that was written is taken back.
pub proof fn listing_is_bounded(
    l: Listing,
    depth: nat,
    max_depth: nat,
    pattern: Seq<char>,
    so_far: Listed,
)
    requires
        so_far.count <= MAX_ENTRIES,
    ensures
        listed(l, depth, max_depth, pattern, so_far).count <= MAX_ENTRIES,
        so_far.text.is_prefix_of(listed(l, depth, max_depth, pattern, so_far).text),
    decreases
            max_depth - depth,
            match l {
                Listing::Entries { list } => list@.len() + 1,
                Listing::Unread { error } => 0,
            },
{
    if so_far.count < MAX_ENTRIES {
        if let Listing::Entries { list } = l {
            listed_from_keeps_bound(list@, 0, depth, max_depth, pattern, so_far);
        }
    }
}

proof fn listed_from_keeps_bound(
    list: Seq<Entry>,
    i: nat,
    depth: nat,
    max_depth: nat,
    pattern: Seq<char>,
    so_far: Listed,
)
    requires
        so_far.count <= MAX_ENTRIES,
    ensures
        listed_from(list, i, depth, max_depth, pattern, so_far).count <= MAX_ENTRIES,
        so_far.text.is_prefix_of(listed_from(list, i, depth, max_depth, pattern, so_far).text),
    decreases max_depth - depth, list.len() - i,
{
    if i < list.len() && so_far.count < MAX_ENTRIES {
        let e = list[i as int];
        if !is_listed(e.name@, pattern) {
            listed_from_keeps_bound(list, i + 1, depth, max_depth, pattern, so_far);
        } else {
            let with_line = Listed {
                text: so_far.text + entry_line(e, depth),
                count: so_far.count + 1,
            };
            let next = if e.inside is Some && depth + 1 < max_depth {
                listed(e.inside->0, depth + 1, max_depth, pattern, with_line)
            } else {
                with_line
            };
            if e.inside is Some && depth + 1 < max_depth {
                listing_is_bounded(e.inside->0, depth + 1, max_depth, pattern, with_line);
            }
            listed_from_keeps_bound(list, i + 1, depth, max_depth, pattern, next);
            let all = listed_from(list, i + 1, depth, max_depth, pattern, next).text;
            assert(with_line.text =~= all.subrange(0, next.text.len() as int).subrange(
                0,
                with_line.text.len() as int,
            ));
            assert(so_far.text =~= with_line.text.subrange(0, so_far.text.len() as int));
            assert(so_far.text =~= all.subrange(0, so_far.text.len() as int));
        }
    }
}

} // verus!
