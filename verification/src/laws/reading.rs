//! What is shown of files and directories.

use crate::ipc::handlers::chat::files::{
    change_note, diff_note, end_line, entry_line, first_line, import_lines, indent, is_listed,
    list_text, listed, listed_from, numbered, read_text, Entry, Listed, Listing,
};
use crate::ipc::handlers::chat::outline::{
    go_patterns, import_in, imports, outline_text, patterns_for, python_patterns,
    rust_patterns, script_patterns, symbol_in, symbol_line, symbol_lines, symbols,
    typed_script_patterns, SymbolV,
};
use crate::ipc::handlers::chat::search::{
    self, file_lines, glob_text, near, near_line, newest_first, search_text,
};
use crate::laws::parts::{concat, concat_one_more, occurs_within, stands_at};
use crate::outside;
use crate::text;
use vstd::prelude::*;

verus! {

// ---------------------------------------------------------------------------
// Files
// ---------------------------------------------------------------------------

/// A line as it is shown: its number, from one on, a tab, and the line.
pub open spec fn with_number(lines: Seq<Seq<char>>, i: int) -> Seq<char> {
    let n = text::decimal((i + 1) as nat);
    (if n.len() < 6 {
        Seq::new((6 - n.len()) as nat, |k: int| ' ')
    } else {
        Seq::empty()
    }) + n + "\t"@ + lines[i] + "\n"@
}

proof fn numbers_are_shown(lines: Seq<Seq<char>>, from: int, to: int)
    requires
        from <= to,
    ensures
        numbered(lines, from, to) == concat(
            Seq::new((to - from) as nat, |k: int| with_number(lines, from + k)),
        ),
    decreases to - from,
{
    let all = Seq::new((to - from) as nat, |k: int| with_number(lines, from + k));
    if from < to {
        numbers_are_shown(lines, from, to - 1);
        let front = Seq::new((to - 1 - from) as nat, |k: int| with_number(lines, from + k));
        assert(all =~= front.push(with_number(lines, to - 1)));
        concat_one_more(front, with_number(lines, to - 1));
        assert(numbered(lines, from, to) =~= concat(front) + with_number(lines, to - 1));
    } else {
        assert(numbered(lines, from, to) =~= concat(all));
    }
}

/// A file is read from the line behind the offset on, for as many lines as are asked
/// for or two thousand, each with its number; a note on it comes first. Where there is
/// more of it that is told, and how many lines it has.
pub proof fn the_asked_lines_are_shown(
    content: Seq<char>,
    ext: Seq<char>,
    note: Option<Seq<char>>,
    offset: u64,
    limit: Option<u64>,
)
    ensures
        ({
            let lines = text::lines(content);
            let total = lines.len() as int;
            let from = if offset < total {
                offset as int
            } else {
                total
            };
            let most = match limit {
                Some(n) => n as int,
                None => 2000,
            };
            let to = if from + most < total {
                from + most
            } else {
                total
            };
            let shown = (match note {
                Some(n) => n + "\n"@,
                None => Seq::empty(),
            }) + concat(Seq::new((to - from) as nat, |k: int| with_number(lines, from + k)));
            let r = read_text(content, ext, note, offset, limit);
            &&& text::begins(r, shown)
            &&& to < total ==> text::begins(
                r,
                shown + "\n[file has "@ + text::decimal(total as nat)
                    + " lines total - pass offset/limit to read more]"@,
            )
            &&& to == total && imports(ext, lines).len() == 0 ==> r == shown
        }),
{
    let lines = text::lines(content);
    let total = lines.len() as int;
    let from = first_line(total, offset);
    let to = end_line(total, offset, limit);
    numbers_are_shown(lines, from, to);
    let shown = (match note {
        Some(n) => n + "\n"@,
        None => Seq::empty(),
    }) + concat(Seq::new((to - from) as nat, |k: int| with_number(lines, from + k)));
    let r = read_text(content, ext, note, offset, limit);
    assert(r.subrange(0, shown.len() as int) =~= shown);
    if to < total {
        let more = shown + "\n[file has "@ + text::decimal(total as nat)
            + " lines total - pass offset/limit to read more]"@;
        assert(r.subrange(0, more.len() as int) =~= more);
    }
    if to == total && imports(ext, lines).len() == 0 {
        assert(r =~= shown);
    }
}

proof fn import_is_shown(list: Seq<Seq<char>>, n: nat, i: int)
    requires
        0 <= i < n <= list.len(),
    ensures
        text::occurs(import_lines(list, n), "  "@ + list[i] + "\n"@),
    decreases n,
{
    let m = (n - 1) as nat;
    let front = import_lines(list, m);
    let last = "  "@ + list[n - 1] + "\n"@;
    assert(import_lines(list, n) =~= front + last);
    if i == m {
        assert((front + last).subrange(front.len() as int, (front + last).len() as int) =~= last);
        stands_at(front + last, last, front.len() as int);
    } else {
        import_is_shown(list, m, i);
        occurs_within(Seq::empty(), front, last, "  "@ + list[i] + "\n"@);
        assert(Seq::<char>::empty() + front + last =~= front + last);
    }
}

/// The first twenty things that a file imports are told with it.
pub proof fn imports_are_told(
    content: Seq<char>,
    ext: Seq<char>,
    note: Option<Seq<char>>,
    offset: u64,
    limit: Option<u64>,
    i: int,
)
    requires
        0 <= i < imports(ext, text::lines(content)).len(),
        i < 20,
    ensures
        text::occurs(
            read_text(content, ext, note, offset, limit),
            "  "@ + imports(ext, text::lines(content))[i] + "\n"@,
        ),
{
    let lines = text::lines(content);
    let list = imports(ext, lines);
    let n = if list.len() < 20 {
        list.len()
    } else {
        20
    };
    import_is_shown(list, n, i);
    let r = read_text(content, ext, note, offset, limit);
    let shown = import_lines(list, n);
    let front = r.take(r.len() - shown.len() - 2);
    assert("]\n"@.len() == 2) by {
        reveal_strlit("]\n");
    }
    assert(r =~= front + shown + "]\n"@);
    occurs_within(front, shown, "]\n"@, "  "@ + list[i] + "\n"@);
}

/// What a line of a file imports, by the language of the file.
pub open spec fn is_import(ext: Seq<char>, t: Seq<char>) -> bool {
    ||| ext == "rs"@ && (text::begins(t, "use "@) || text::begins(t, "pub use "@) || text::begins(
        t,
        "mod "@,
    ) || text::begins(t, "pub mod "@))
    ||| (ext == "ts"@ || ext == "tsx"@ || ext == "js"@ || ext == "jsx"@ || ext == "mjs"@ || ext
        == "cjs"@) && (text::begins(t, "import "@) || (text::begins(t, "export "@) && text::occurs(
        t,
        " from "@,
    )) || (text::begins(t, "const "@) && text::occurs(t, "require("@)))
    ||| ext == "py"@ && (text::begins(t, "import "@) || text::begins(t, "from "@))
    ||| ext == "go"@ && (text::begins(t, "import "@) || (text::begins(t, "\""@) && text::ends(
        t,
        "\""@,
    )))
}

/// The lines that import something are those of their language, and what they import
/// is the line, without the semicolon at its end where the language has one.
pub proof fn imports_are_told_by_language(ext: Seq<char>, line: Seq<char>)
    ensures
        import_in(ext, line) is Some <==> is_import(ext, text::trim(line)),
        import_in(ext, line) matches Some(i) ==> i == text::trim(line) || text::ends(
            text::trim(line),
            ";"@,
        ),
        import_in(ext, line) matches Some(i) ==> text::begins(text::trim(line), i),
        import_in(ext, line) matches Some(i) ==> (ext == "py"@ || ext == "go"@) ==> i == text::trim(
            line,
        ),
        import_in(ext, line) matches Some(i) ==> ext != "py"@ && ext != "go"@ ==> !text::ends(
            i,
            ";"@,
        ),
{
    reveal_strlit("rs");
    reveal_strlit("py");
    reveal_strlit("go");
    reveal_strlit("ts");
    reveal_strlit("tsx");
    reveal_strlit("js");
    reveal_strlit("jsx");
    reveal_strlit("mjs");
    reveal_strlit("cjs");
    assert("rs"@.len() == 2 && "rs"@[0] == 'r');
    assert("py"@.len() == 2 && "py"@[0] == 'p');
    assert("go"@.len() == 2 && "go"@[0] == 'g');
    assert("ts"@.len() == 2 && "ts"@[0] == 't');
    assert("js"@.len() == 2 && "js"@[0] == 'j');
    assert("tsx"@.len() == 3 && "jsx"@.len() == 3 && "mjs"@.len() == 3 && "cjs"@.len() == 3);
    let t = text::trim(line);
    semicolons_go(t);
    assert(t.subrange(0, t.len() as int) =~= t);
}

proof fn semicolons_go(t: Seq<char>)
    ensures
        text::begins(t, text::strip_end(t, ';')),
        !text::ends(text::strip_end(t, ';'), ";"@),
        text::strip_end(t, ';') == t || text::ends(t, ";"@),
    decreases t.len(),
{
    reveal_strlit(";");
    assert(t.subrange(0, t.len() as int) =~= t);
    if t.len() > 0 && t.last() == ';' {
        let f = t.drop_last();
        semicolons_go(f);
        let s = text::strip_end(t, ';');
        assert(t.subrange(0, s.len() as int) =~= f.subrange(0, s.len() as int));
        assert(t.subrange(t.len() - 1, t.len() as int) =~= ";"@);
    } else if text::ends(t, ";"@) {
        assert(t.subrange(t.len() - 1, t.len() as int)[0] == ';');
    }
}

/// Every line of a file that imports something is told, in order.
pub proof fn every_import_is_told(ext: Seq<char>, lines: Seq<Seq<char>>)
    ensures
        imports(ext, lines) == lines.filter(
            |l: Seq<char>| is_import(ext, text::trim(l)),
        ).map_values(|l: Seq<char>| import_in(ext, l)->0),
    decreases lines.len(),
{
    reveal(Seq::filter);
    let p = |l: Seq<char>| is_import(ext, text::trim(l));
    if lines.len() > 0 {
        every_import_is_told(ext, lines.drop_last());
        imports_are_told_by_language(ext, lines.last());
    }
    assert(imports(ext, lines) =~= lines.filter(p).map_values(
        |l: Seq<char>| import_in(ext, l)->0,
    ));
}

/// A file with changes that are not committed is shown behind them, up to three
/// thousand characters; those against the last commit come before those in the index.
pub proof fn changes_are_noted(diff: Seq<char>, head: Seq<u8>, index: Option<Seq<u8>>)
    ensures
        text::blank(diff) <==> diff_note(diff) is None,
        diff_note(diff) matches Some(n) ==> n == "[Recent uncommitted changes]\n```diff\n"@ + (
        if text::trim(diff).len() <= 3000 {
            text::trim(diff)
        } else {
            text::trim(diff).take(3000)
        }) + "\n```\n"@,
        !text::blank(outside::lossy_text(head)) ==> change_note(Some(head), index) == diff_note(
            outside::lossy_text(head),
        ),
        text::blank(outside::lossy_text(head)) ==> change_note(Some(head), index) == (match index {
            Some(i) => diff_note(outside::lossy_text(i)),
            None => None,
        }),
        change_note(None, index) is None,
{
}

// ---------------------------------------------------------------------------
// Directories
// ---------------------------------------------------------------------------

/// The line for an entry of a directory: its path behind two spaces for each
/// directory that it lies in, and its size.
pub open spec fn line_for(e: Entry, depth: nat) -> Seq<char> {
    Seq::new(2 * depth, |i: int| ' ') + e.rel@ + (if e.inside is Some {
        "/  (dir)\n"@
    } else {
        "  ("@ + text::decimal(e.size as nat) + " bytes)\n"@
    })
}

proof fn lines_agree(e: Entry, depth: nat)
    ensures
        entry_line(e, depth) == line_for(e, depth),
{
    two_spaces(depth);
    assert(entry_line(e, depth) =~= line_for(e, depth));
}

proof fn two_spaces(depth: nat)
    ensures
        indent(depth) == Seq::new(2 * depth, |i: int| ' '),
    decreases depth,
{
    reveal_strlit("  ");
    if depth > 0 {
        two_spaces((depth - 1) as nat);
    }
    assert(indent(depth) =~= Seq::new(2 * depth, |i: int| ' '));
}

/// What is listed of a directory, and of those in it, without any limit.
pub open spec fn whole_listing(l: Listing, depth: nat, max_depth: nat, pattern: Seq<char>) -> Seq<
    Seq<char>,
>
    decreases
            max_depth - depth,
            match l {
                Listing::Entries { list } => list@.len() + 1,
                Listing::Unread { error } => 0,
            },
{
    match l {
        Listing::Unread { error } => seq!["  [error: "@ + error@ + "]\n"@],
        Listing::Entries { list } => whole_entries(list@, 0, depth, max_depth, pattern),
    }
}

/// What is listed of the entries from `i` on: the line of each whose name fits, and
/// below it what is in it as long as it is not too deep.
pub open spec fn whole_entries(
    list: Seq<Entry>,
    i: nat,
    depth: nat,
    max_depth: nat,
    pattern: Seq<char>,
) -> Seq<Seq<char>>
    decreases max_depth - depth, list.len() - i,
{
    if i >= list.len() {
        Seq::empty()
    } else {
        let rest = whole_entries(list, i + 1, depth, max_depth, pattern);
        let e = list[i as int];
        if pattern.len() > 0 && !text::occurs(
            outside::lowercase_text(e.name@),
            outside::lowercase_text(pattern),
        ) {
            rest
        } else if e.inside is Some && depth + 1 < max_depth {
            seq![line_for(e, depth)] + whole_listing(
                e.inside->0,
                depth + 1,
                max_depth,
                pattern,
            ) + rest
        } else {
            seq![line_for(e, depth)] + rest
        }
    }
}

proof fn concat_sum(a: Seq<Seq<char>>, b: Seq<Seq<char>>)
    ensures
        concat(a + b) == concat(a) + concat(b),
    decreases a.len(),
{
    if a.len() == 0 {
        assert(a + b =~= b);
        assert(concat(a) + concat(b) =~= concat(b));
    } else {
        concat_sum(a.skip(1), b);
        assert((a + b).skip(1) =~= a.skip(1) + b);
        assert(concat(a + b) =~= concat(a) + concat(b));
    }
}

proof fn one_part(a: Seq<char>)
    ensures
        concat(seq![a]) == a,
{
    assert(seq![a].skip(1) =~= Seq::empty());
    assert(concat(seq![a].skip(1)) =~= Seq::empty());
    assert(concat(seq![a]) =~= a);
}

proof fn listing_is_whole(
    l: Listing,
    depth: nat,
    max_depth: nat,
    pattern: Seq<char>,
    so_far: Listed,
)
    requires
        so_far.count + whole_listing(l, depth, max_depth, pattern).len() < 500,
    ensures
        ({
            let r = listed(l, depth, max_depth, pattern, so_far);
            &&& r.text == so_far.text + concat(whole_listing(l, depth, max_depth, pattern))
            &&& so_far.count <= r.count <= so_far.count + whole_listing(
                l,
                depth,
                max_depth,
                pattern,
            ).len()
        }),
    decreases
            max_depth - depth,
            match l {
                Listing::Entries { list } => list@.len() + 1,
                Listing::Unread { error } => 0,
            },
{
    match l {
        Listing::Unread { error } => {
            one_part("  [error: "@ + error@ + "]\n"@);
            assert(so_far.text + "  [error: "@ + error@ + "]\n"@ =~= so_far.text + ("  [error: "@
                + error@ + "]\n"@));
        },
        Listing::Entries { list } => {
            entries_are_whole(list@, 0, depth, max_depth, pattern, so_far);
        },
    }
}

proof fn entries_are_whole(
    list: Seq<Entry>,
    i: nat,
    depth: nat,
    max_depth: nat,
    pattern: Seq<char>,
    so_far: Listed,
)
    requires
        so_far.count + whole_entries(list, i, depth, max_depth, pattern).len() < 500,
    ensures
        ({
            let r = listed_from(list, i, depth, max_depth, pattern, so_far);
            &&& r.text == so_far.text + concat(whole_entries(list, i, depth, max_depth, pattern))
            &&& so_far.count <= r.count <= so_far.count + whole_entries(
                list,
                i,
                depth,
                max_depth,
                pattern,
            ).len()
        }),
    decreases max_depth - depth, list.len() - i,
{
    let all = whole_entries(list, i, depth, max_depth, pattern);
    if i < list.len() {
        let rest = whole_entries(list, i + 1, depth, max_depth, pattern);
        let e = list[i as int];
        if !is_listed(e.name@, pattern) {
            entries_are_whole(list, i + 1, depth, max_depth, pattern, so_far);
        } else {
            lines_agree(e, depth);
            let line = line_for(e, depth);
            one_part(line);
            let with_line = Listed { text: so_far.text + line, count: so_far.count + 1 };
            if e.inside is Some && depth + 1 < max_depth {
                let below = whole_listing(e.inside->0, depth + 1, max_depth, pattern);
                assert(all == seq![line] + below + rest);
                listing_is_whole(e.inside->0, depth + 1, max_depth, pattern, with_line);
                let next = listed(e.inside->0, depth + 1, max_depth, pattern, with_line);
                entries_are_whole(list, i + 1, depth, max_depth, pattern, next);
                concat_sum(seq![line] + below, rest);
                concat_sum(seq![line], below);
                assert(so_far.text + line + concat(below) + concat(rest) =~= so_far.text + concat(
                    all,
                ));
            } else {
                entries_are_whole(list, i + 1, depth, max_depth, pattern, with_line);
                concat_sum(seq![line], rest);
                assert(so_far.text + line + concat(rest) =~= so_far.text + concat(all));
            }
        }
    } else {
        assert(concat(all) =~= Seq::empty());
        assert(so_far.text + concat(all) =~= so_far.text);
    }
}

/// A directory with fewer than five hundred things to list is listed whole: every
/// entry whose name fits, with its size, and three levels deep where that is asked
/// for.
pub proof fn a_directory_is_listed_whole(
    base: Seq<char>,
    recursive: bool,
    pattern: Seq<char>,
    l: Listing,
)
    requires
        whole_listing(
            l,
            0,
            if recursive {
                3
            } else {
                1
            },
            pattern,
        ).len() < 500,
    ensures
        ({
            let all = whole_listing(
                l,
                0,
                if recursive {
                    3
                } else {
                    1
                },
                pattern,
            );
            text::begins(
                list_text(base, recursive, pattern, l),
                "Listing "@ + base + " (recursive="@ + (if recursive {
                    "true"@
                } else {
                    "false"@
                }) + ")\n"@ + concat(all),
            )
        }),
{
    let depth = if recursive {
        3nat
    } else {
        1
    };
    let head = "Listing "@ + base + " (recursive="@ + (if recursive {
        "true"@
    } else {
        "false"@
    }) + ")\n"@;
    listing_is_whole(l, 0, depth, pattern, Listed { text: head, count: 0 });
    let t = list_text(base, recursive, pattern, l);
    let want = head + concat(whole_listing(l, 0, depth, pattern));
    assert(t.subrange(0, want.len() as int) =~= want);
}

// ---------------------------------------------------------------------------
// Globs
// ---------------------------------------------------------------------------

proof fn lines_of_files(l: Seq<(Seq<char>, int)>, n: nat)
    requires
        n <= l.len(),
    ensures
        file_lines(l, n) == concat(
            l.take(n as int).map_values(|f: (Seq<char>, int)| f.0 + "\n"@),
        ),
    decreases n,
{
    let m = |f: (Seq<char>, int)| f.0 + "\n"@;
    let all = l.take(n as int).map_values(m);
    if n > 0 {
        lines_of_files(l, (n - 1) as nat);
        let front = l.take(n - 1).map_values(m);
        assert(all =~= front.push(l[n - 1].0 + "\n"@));
        concat_one_more(front, l[n - 1].0 + "\n"@);
        assert(file_lines(l, n) =~= concat(front) + (l[n - 1].0 + "\n"@));
    } else {
        assert(file_lines(l, n) =~= concat(all));
    }
}

/// A glob tells how many files it stands for, and names the two hundred of them that
/// were changed last, each on a line, and how many it leaves out.
pub proof fn a_glob_names_the_newest(pattern: Seq<char>, l: Seq<(Seq<char>, int)>)
    requires
        l.len() > 0,
        newest_first(l).len() == l.len(),
    ensures
        ({
            let n = if l.len() <= 200 {
                l.len() as int
            } else {
                200
            };
            let shown = text::decimal(l.len()) + " matches for '"@ + pattern + "':\n"@ + concat(
                newest_first(l).take(n).map_values(|f: (Seq<char>, int)| f.0 + "\n"@),
            );
            glob_text(pattern, Ok(l)) == (if l.len() <= 200 {
                shown
            } else {
                shown + "... ("@ + text::decimal((l.len() - 200) as nat) + " more)\n"@
            })
        }),
{
    lines_of_files(newest_first(l), l.len());
    if l.len() > 200 {
        lines_of_files(newest_first(l), 200);
    }
}

proof fn at_one_time(l: Seq<(Seq<char>, int)>, t: int)
    ensures
        newest_first(l).filter(|f: (Seq<char>, int)| f.1 == t) == l.filter(
            |f: (Seq<char>, int)| f.1 == t,
        ),
    decreases l.len(),
{
    reveal(Seq::filter);
    let p = |f: (Seq<char>, int)| f.1 == t;
    if l.len() > 0 {
        let before = newest_first(l.drop_last());
        let x = l.last();
        let k = search::file_place(before, x.1) as int;
        at_one_time(l.drop_last(), t);
        search::files_are_sorted(l.drop_last());
        place_is_behind(before, x.1);
        let a = before.take(k);
        let b = before.skip(k);
        assert(before =~= a + b);
        assert(newest_first(l) =~= a + seq![x] + b);
        Seq::filter_distributes_over_add(a, b, p);
        Seq::filter_distributes_over_add(a + seq![x], b, p);
        Seq::filter_distributes_over_add(a, seq![x], p);
        let none = seq![x].drop_last();
        assert(none.filter(p) =~= Seq::empty());
        assert(seq![x].filter(p) =~= if x.1 == t {
            seq![x]
        } else {
            Seq::empty()
        });
        if x.1 == t {
            none_passes(b, t);
            assert(newest_first(l).filter(p) =~= before.filter(p).push(x));
        } else {
            assert(newest_first(l).filter(p) =~= before.filter(p));
        }
    } else {
        assert(newest_first(l) =~= l);
    }
}

proof fn none_passes(b: Seq<(Seq<char>, int)>, t: int)
    requires
        forall|i: int| 0 <= i < b.len() ==> (#[trigger] b[i]).1 != t,
    ensures
        b.filter(|f: (Seq<char>, int)| f.1 == t) == Seq::<(Seq<char>, int)>::empty(),
    decreases b.len(),
{
    reveal(Seq::filter);
    if b.len() > 0 {
        none_passes(b.drop_last(), t);
    }
    assert(b.filter(|f: (Seq<char>, int)| f.1 == t) =~= Seq::empty());
}

proof fn place_is_behind(l: Seq<(Seq<char>, int)>, time: int)
    requires
        forall|i: int, j: int|
            0 <= i < j < l.len() ==> (#[trigger] l[i]).1 >= (#[trigger] l[j]).1,
    ensures
        ({
            let k = search::file_place(l, time) as int;
            &&& k <= l.len()
            &&& forall|i: int| 0 <= i < l.skip(k).len() ==> (#[trigger] l.skip(k)[i]).1 < time
        }),
    decreases l.len(),
{
    let k = search::file_place(l, time) as int;
    if l.len() > 0 && l[0].1 >= time {
        let rest = l.skip(1);
        assert forall|i: int, j: int| 0 <= i < j < rest.len() implies (#[trigger] rest[i]).1 >= (
        #[trigger] rest[j]).1 by {
            assert(rest[i] == l[i + 1] && rest[j] == l[j + 1]);
        }
        place_is_behind(rest, time);
        assert(rest.skip(k - 1) =~= l.skip(k));
    } else if l.len() > 0 {
        assert forall|i: int| 0 <= i < l.skip(k).len() implies (#[trigger] l.skip(k)[i]).1
            < time by {
            if i > 0 {
                assert(l[0].1 >= l[i].1);
            }
            assert(l.skip(k)[i] == l[i]);
        }
    }
}

/// Files that were changed at one time stay in their order.
pub proof fn files_of_one_time_stay_in_order(l: Seq<(Seq<char>, int)>, t: int)
    ensures
        newest_first(l).filter(|f: (Seq<char>, int)| f.1 == t) == l.filter(
            |f: (Seq<char>, int)| f.1 == t,
        ),
{
    at_one_time(l, t);
}

// ---------------------------------------------------------------------------
// Lines
// ---------------------------------------------------------------------------

/// How many of the first lines match.
pub open spec fn hits_before(hits: Seq<bool>, n: int) -> nat {
    hits.take(n).filter(|h: bool| h).len()
}

proof fn matches_up_to(lines: Seq<Seq<char>>, hits: Seq<bool>, context: u64, n: nat)
    requires
        n <= lines.len() == hits.len(),
    ensures
        search::matches(lines, hits, context, n).len() == hits_before(hits, n as int),
        forall|i: int|
            0 <= i < n && #[trigger] hits[i] ==> hits_before(hits, i) < hits_before(hits, n as int)
                && search::matches(lines, hits, context, n)[hits_before(hits, i) as int] == near(
                lines,
                i,
                context,
            ),
    decreases n,
{
    reveal(Seq::filter);
    if n > 0 {
        let m = (n - 1) as nat;
        matches_up_to(lines, hits, context, m);
        assert(hits.take(n as int).drop_last() =~= hits.take(m as int));
    }
}

/// Every match in a file is shown with the lines around it, in order.
pub proof fn every_match_is_shown_in_its_place(
    pattern: Seq<char>,
    path: Seq<char>,
    lines: Seq<Seq<char>>,
    hits: Seq<bool>,
    context: u64,
)
    requires
        lines.len() == hits.len(),
    ensures
        ({
            let found = search::matches(lines, hits, context, lines.len());
            let n = hits.filter(|h: bool| h).len();
            &&& found.len() == n
            &&& forall|i: int|
                0 <= i < lines.len() && #[trigger] hits[i] ==> hits_before(hits, i) < n
                    && found[hits_before(hits, i) as int] == near(lines, i, context)
            &&& n > 0 ==> search_text(pattern, path, lines, hits, context) == text::decimal(n)
                + " matches in "@ + path + ":\n\n"@ + text::join(found, "\n---\n"@)
            &&& n == 0 ==> search_text(pattern, path, lines, hits, context) == "No matches for '"@
                + pattern + "' in "@ + path
        }),
{
    matches_up_to(lines, hits, context, lines.len());
    assert(hits.take(lines.len() as int) =~= hits);
}

/// Around a match so many lines before it and behind it are shown as are asked for, as
/// far as there are any; the match has a mark, and each line its number.
pub proof fn lines_around_a_match(lines: Seq<Seq<char>>, i: int, context: u64)
    requires
        0 <= i < lines.len(),
    ensures
        ({
            let from = if i >= context {
                i - context
            } else {
                0
            };
            let to = if i + context < lines.len() {
                i + context
            } else {
                lines.len() - 1
            };
            near(lines, i, context) == text::join(
                Seq::new((to - from + 1) as nat, |k: int| near_line(lines, from + k, i)),
                "\n"@,
            )
        }),
        forall|j: int|
            0 <= j < lines.len() ==> text::ends(#[trigger] near_line(lines, j, i), " "@ + lines[j])
                && text::begins(
                near_line(lines, j, i),
                if j == i {
                    "> "@
                } else {
                    "  "@
                },
            ),
{
    let from = if i >= context {
        i - context
    } else {
        0
    };
    let to = if i + context < lines.len() {
        i + context
    } else {
        lines.len() - 1
    };
    assert(search::near_start(i, context) == from);
    assert(search::near_end(lines.len() as int, i, context) == to + 1);
    assert(near(lines, i, context) == text::join(
        Seq::new((to - from + 1) as nat, |k: int| near_line(lines, from + k, i)),
        "\n"@,
    ));
    reveal_strlit("> ");
    reveal_strlit("  ");
    reveal_strlit(">");
    reveal_strlit(" ");
    assert forall|j: int| 0 <= j < lines.len() implies text::ends(
        #[trigger] near_line(lines, j, i),
        " "@ + lines[j],
    ) && text::begins(
        near_line(lines, j, i),
        if j == i {
            "> "@
        } else {
            "  "@
        },
    ) by {
        let l = near_line(lines, j, i);
        let tail = " "@ + lines[j];
        assert(l.subrange(l.len() - tail.len(), l.len() as int) =~= tail);
        if j == i {
            assert(l.subrange(0, 2) =~= "> "@);
        } else {
            assert(l.subrange(0, 2) =~= "  "@);
        }
    }
}

// ---------------------------------------------------------------------------
// Outlines
// ---------------------------------------------------------------------------

/// A pattern of a list decides on a line: it can be compiled and matches.
pub open spec fn decides(p: (Seq<char>, Seq<char>), line: Seq<char>) -> bool {
    outside::regex_problem(p.1, false) is None && outside::regex_groups(p.1, false, line) is Some
}

/// A line defines the symbol that the first pattern names that matches it, and none
/// where no pattern matches.
pub proof fn the_first_pattern_names_the_symbol(
    patterns: Seq<(Seq<char>, Seq<char>)>,
    line: Seq<char>,
    i: int,
)
    ensures
        (forall|j: int| 0 <= j < patterns.len() ==> !decides(#[trigger] patterns[j], line))
            ==> symbol_in(patterns, line) is None,
        0 <= i < patterns.len() && decides(patterns[i], line) && (forall|j: int|
            0 <= j < i ==> !decides(#[trigger] patterns[j], line)) ==> ({
            let g = outside::regex_groups(patterns[i].1, false, line)->0;
            match g {
                (Some(n), _) => if n.len() > 0 {
                    symbol_in(patterns, line) == Some((patterns[i].0, n))
                } else {
                    symbol_in(patterns, line) is None
                },
                (None, Some(n)) => if n.len() > 0 {
                    symbol_in(patterns, line) == Some((patterns[i].0, n))
                } else {
                    symbol_in(patterns, line) is None
                },
                (None, None) => symbol_in(patterns, line) is None,
            }
        }),
    decreases patterns.len(),
{
    if patterns.len() > 0 && !decides(patterns[0], line) {
        let rest = patterns.skip(1);
        the_first_pattern_names_the_symbol(rest, line, i - 1);
        if forall|j: int| 0 <= j < patterns.len() ==> !decides(#[trigger] patterns[j], line) {
            assert forall|j: int| 0 <= j < rest.len() implies !decides(
                #[trigger] rest[j],
                line,
            ) by {
                assert(rest[j] == patterns[j + 1]);
            }
        }
        if 0 < i < patterns.len() && forall|j: int|
            0 <= j < i ==> !decides(#[trigger] patterns[j], line) {
            assert(rest[i - 1] == patterns[i]);
            assert forall|j: int| 0 <= j < i - 1 implies !decides(#[trigger] rest[j], line) by {
                assert(rest[j] == patterns[j + 1]);
            }
        }
    } else if patterns.len() > 0 && i > 0 {
        assert(decides(patterns[0], line));
    }
}

proof fn symbols_up_to(
    patterns: Seq<(Seq<char>, Seq<char>)>,
    lines: Seq<Seq<char>>,
    n: nat,
)
    requires
        n <= lines.len(),
    ensures
        forall|i: int|
            0 <= i < n && symbol_in(patterns, #[trigger] lines[i]) is Some ==> symbols(
                patterns,
                lines,
                n,
            ).contains(
                SymbolV {
                    line: (i + 1) as nat,
                    label: (symbol_in(patterns, lines[i])->0).0,
                    name: (symbol_in(patterns, lines[i])->0).1,
                },
            ),
        forall|k: int|
            0 <= k < symbols(patterns, lines, n).len() ==> {
                let s = #[trigger] symbols(patterns, lines, n)[k];
                1 <= s.line <= n && symbol_in(patterns, lines[s.line - 1]) == Some(
                    (s.label, s.name),
                )
            },
        forall|k: int, m: int|
            0 <= k < m < symbols(patterns, lines, n).len() ==> (#[trigger] symbols(
                patterns,
                lines,
                n,
            )[k]).line < (#[trigger] symbols(patterns, lines, n)[m]).line,
    decreases n,
{
    if n > 0 {
        let m = (n - 1) as nat;
        symbols_up_to(patterns, lines, m);
        let a = symbols(patterns, lines, m);
        let b = symbols(patterns, lines, n);
        assert forall|s: SymbolV| a.contains(s) implies #[trigger] b.contains(s) by {
            let k = choose|k: int| 0 <= k < a.len() && a[k] == s;
            assert(b[k] == s);
        }
        if symbol_in(patterns, lines[n - 1]) is Some {
            assert(b.last() == b[b.len() - 1]);
            assert(b.contains(b.last()));
        }
        assert forall|k: int| 0 <= k < b.len() implies ({
            let s = #[trigger] b[k];
            1 <= s.line <= n && symbol_in(patterns, lines[s.line - 1]) == Some((s.label, s.name))
        }) by {
            if k < a.len() {
                assert(b[k] == a[k]);
            }
        }
        assert forall|k: int, j: int| 0 <= k < j < b.len() implies (#[trigger] b[k]).line < (
        #[trigger] b[j]).line by {
            assert(b[k] == a[k]);
            if j < a.len() {
                assert(b[j] == a[j]);
            }
        }
    }
}

/// Every line of a file that defines a symbol is in its outline, with the number of
/// the line and in order, and nothing else is.
pub proof fn every_symbol_is_outlined(
    patterns: Seq<(Seq<char>, Seq<char>)>,
    lines: Seq<Seq<char>>,
)
    ensures
        forall|i: int|
            0 <= i < lines.len() && symbol_in(patterns, #[trigger] lines[i]) is Some ==> symbols(
                patterns,
                lines,
                lines.len(),
            ).contains(
                SymbolV {
                    line: (i + 1) as nat,
                    label: (symbol_in(patterns, lines[i])->0).0,
                    name: (symbol_in(patterns, lines[i])->0).1,
                },
            ),
        forall|k: int|
            0 <= k < symbols(patterns, lines, lines.len()).len() ==> {
                let s = #[trigger] symbols(patterns, lines, lines.len())[k];
                1 <= s.line <= lines.len() && symbol_in(patterns, lines[s.line - 1]) == Some(
                    (s.label, s.name),
                )
            },
        forall|k: int, m: int|
            0 <= k < m < symbols(patterns, lines, lines.len()).len() ==> (#[trigger] symbols(
                patterns,
                lines,
                lines.len(),
            )[k]).line < (#[trigger] symbols(patterns, lines, lines.len())[m]).line,
{
    symbols_up_to(patterns, lines, lines.len());
}

proof fn symbol_is_told(l: Seq<SymbolV>, n: nat, i: int)
    requires
        0 <= i < n <= l.len(),
    ensures
        text::occurs(symbol_lines(l, n), symbol_line(l[i])),
    decreases n,
{
    let m = (n - 1) as nat;
    let front = symbol_lines(l, m);
    let last = symbol_line(l[n - 1]);
    if i == m {
        assert((front + last).subrange(front.len() as int, (front + last).len() as int) =~= last);
        stands_at(front + last, last, front.len() as int);
    } else {
        symbol_is_told(l, m, i);
        occurs_within(Seq::empty(), front, last, symbol_line(l[i]));
        assert(Seq::<char>::empty() + front + last =~= front + last);
    }
}

/// An outline tells how many symbols there are, and of the first four hundred the
/// line, the kind and the name.
pub proof fn an_outline_tells_symbols(path: Seq<char>, l: Seq<SymbolV>, i: int)
    requires
        0 <= i < l.len(),
        i < 400,
    ensures
        text::begins(
            outline_text(path, l),
            "Outline of "@ + path + " ("@ + text::decimal(l.len()) + " symbols):\n"@,
        ),
        text::occurs(outline_text(path, l), symbol_line(l[i])),
        text::ends(symbol_line(l[i]), "  "@ + l[i].name + "\n"@),
        text::occurs(symbol_line(l[i]), text::decimal(l[i].line)),
        text::occurs(symbol_line(l[i]), l[i].label),
{
    let head = "Outline of "@ + path + " ("@ + text::decimal(l.len()) + " symbols):\n"@;
    let t = outline_text(path, l);
    assert(t.subrange(0, head.len() as int) =~= head);
    let n = if l.len() > 400 {
        400
    } else {
        l.len()
    };
    symbol_is_told(l, n, i);
    let back = t.skip((head + symbol_lines(l, n)).len() as int);
    assert(t =~= head + symbol_lines(l, n) + back);
    occurs_within(head, symbol_lines(l, n), back, symbol_line(l[i]));
    let s = l[i];
    let line = symbol_line(s);
    let tail = "  "@ + s.name + "\n"@;
    assert(line.subrange(line.len() - tail.len(), line.len() as int) =~= tail);
    let number = text::decimal(s.line);
    let padded = text::pad_left(number, 5, ' ');
    let at = 2 + padded.len() - number.len();
    reveal_strlit("  ");
    assert(line.subrange(at, at + number.len()) =~= number);
    stands_at(line, number, at);
    let label = text::pad_left(s.label, 8, ' ');
    let at = 2 + padded.len() + 2 + label.len() - s.label.len();
    assert(line.subrange(at, at + s.label.len()) =~= s.label);
    stands_at(line, s.label, at);
}

/// What kinds of symbols are told of a file, by its language.
pub proof fn languages_have_their_symbols(ext: Seq<char>)
    ensures
        ({
            let labels = patterns_for(ext).map_values(|p: (Seq<char>, Seq<char>)| p.0);
            &&& ext == "rs"@ ==> labels == seq![
                "fn"@,
                "struct"@,
                "enum"@,
                "trait"@,
                "impl"@,
                "mod"@,
                "use"@,
            ]
            &&& ext == "js"@ || ext == "jsx"@ || ext == "mjs"@ || ext == "cjs"@ ==> labels == seq![
                "fn"@,
                "class"@,
                "const"@,
                "import"@,
            ]
            &&& ext == "ts"@ || ext == "tsx"@ ==> labels == seq![
                "fn"@,
                "class"@,
                "interface"@,
                "type"@,
                "const"@,
                "import"@,
            ]
            &&& ext == "py"@ ==> labels == seq!["def"@, "class"@, "import"@]
            &&& ext == "go"@ ==> labels == seq!["func"@, "type"@, "import"@]
            &&& ext == "md"@ ==> labels == seq!["header"@]
        }),
{
    reveal_strlit("rs");
    reveal_strlit("py");
    reveal_strlit("go");
    reveal_strlit("md");
    reveal_strlit("ts");
    reveal_strlit("tsx");
    reveal_strlit("js");
    reveal_strlit("jsx");
    reveal_strlit("mjs");
    reveal_strlit("cjs");
    assert("rs"@.len() == 2 && "rs"@[0] == 'r');
    assert("py"@.len() == 2 && "py"@[0] == 'p');
    assert("go"@.len() == 2 && "go"@[0] == 'g');
    assert("md"@.len() == 2 && "md"@[0] == 'm');
    assert("ts"@.len() == 2 && "ts"@[0] == 't');
    assert("js"@.len() == 2 && "js"@[0] == 'j');
    assert("tsx"@.len() == 3 && "tsx"@[0] == 't' && "jsx"@.len() == 3 && "jsx"@[0] == 'j'
        && "mjs"@.len() == 3 && "mjs"@[0] == 'm' && "cjs"@.len() == 3 && "cjs"@[0] == 'c');
    let f = |p: (Seq<char>, Seq<char>)| p.0;
    assert(rust_patterns().map_values(f) =~= seq![
        "fn"@,
        "struct"@,
        "enum"@,
        "trait"@,
        "impl"@,
        "mod"@,
        "use"@,
    ]);
    assert(script_patterns().map_values(f) =~= seq!["fn"@, "class"@, "const"@, "import"@]);
    assert(typed_script_patterns().map_values(f) =~= seq![
        "fn"@,
        "class"@,
        "interface"@,
        "type"@,
        "const"@,
        "import"@,
    ]);
    assert(python_patterns().map_values(f) =~= seq!["def"@, "class"@, "import"@]);
    assert(go_patterns().map_values(f) =~= seq!["func"@, "type"@, "import"@]);
    assert(crate::ipc::handlers::chat::outline::other_patterns().map_values(f) =~= seq![
        "header"@,
    ]);
}

} // verus!
