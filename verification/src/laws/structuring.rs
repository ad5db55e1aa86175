//! What the text of a file shows of its structure.

use crate::indexer::structure::{
    branch_count, branches, branches_in, chunk, chunks, comment, comments_in, first_inked,
    import_target, imports_in, is_structure, listed_or_none, segment, signature, symbol_starts,
    symbols_in, truncated, StructuralFingerprint,
};
use crate::text;
use vstd::prelude::*;

verus! {

/// A line begins with a keyword, and may have `pub` in front of it.
pub open spec fn opens(line: Seq<char>, keyword: Seq<char>) -> bool {
    text::begins(line, keyword) || text::begins(line, "pub "@ + keyword)
}

/// A line that declares something.
pub open spec fn declares(line: Seq<char>) -> bool {
    ||| opens(line, "fn "@)
    ||| opens(line, "async fn "@)
    ||| opens(line, "struct "@)
    ||| opens(line, "enum "@)
    ||| opens(line, "trait "@)
    ||| text::begins(line, "def "@)
    ||| text::begins(line, "class "@)
    ||| text::begins(line, "interface "@)
    ||| text::begins(line, "impl "@)
}

/// Lines that declare something have a signature, with `pub` in front or without, and
/// no other lines have.
pub proof fn declarations_have_signatures(line: Seq<char>)
    ensures
        signature(line) is Some <==> declares(line),
{
    let s = symbol_starts();
    reveal_strlit("pub ");
    reveal_strlit("fn ");
    reveal_strlit("pub fn ");
    reveal_strlit("async fn ");
    reveal_strlit("pub async fn ");
    reveal_strlit("struct ");
    reveal_strlit("pub struct ");
    reveal_strlit("enum ");
    reveal_strlit("pub enum ");
    reveal_strlit("trait ");
    reveal_strlit("pub trait ");
    assert("pub "@ + "fn "@ =~= "pub fn "@);
    assert("pub "@ + "async fn "@ =~= "pub async fn "@);
    assert("pub "@ + "struct "@ =~= "pub struct "@);
    assert("pub "@ + "enum "@ =~= "pub enum "@);
    assert("pub "@ + "trait "@ =~= "pub trait "@);
    assert(s.len() == 14 && s[0] == "fn "@ && s[1] == "pub fn "@ && s[2] == "async fn "@ && s[3]
        == "pub async fn "@ && s[4] == "def "@ && s[5] == "class "@ && s[6] == "struct "@ && s[7]
        == "pub struct "@ && s[8] == "enum "@ && s[9] == "pub enum "@ && s[10] == "trait "@ && s[11]
        == "pub trait "@ && s[12] == "interface "@ && s[13] == "impl "@);
}

/// A text without space around it and without a bracket or a colon at its end.
pub open spec fn is_bare(l: Seq<char>) -> bool {
    l.len() > 0 && !text::is_space(l[0]) && !text::is_space(l.last()) && l.last() != '{' && l.last()
        != ':'
}

proof fn bare_is_trimmed(l: Seq<char>)
    requires
        is_bare(l),
    ensures
        text::trim(l) == l,
        text::trim(l.push(' ')) == l,
        text::strip_end(l, '{') == l,
        text::strip_end(l, ':') == l,
        text::strip_end(l.push('{'), '{') == l,
        text::strip_end(l.push(':'), ':') == l,
        text::strip_end(l.push(':'), '{') == l.push(':'),
        text::strip_end(l.push(' ').push('{'), '{') == l.push(' '),
        text::strip_end(l.push(' '), ':') == l.push(' '),
{
    let s = l.push(' ');
    assert(s[0] == l[0]);
    assert(s.drop_last() =~= l);
    assert(text::trim_start(s) == s);
    assert(text::trim_end(s) == text::trim_end(l));
    assert(l.push('{').drop_last() =~= l);
    assert(l.push(':').drop_last() =~= l);
    assert(s.push('{').drop_last() =~= s);
    reveal_with_fuel(text::strip_end, 3);
}

/// The signature of a declaration is its line as it stands, without the bracket or
/// the colon that opens its body, up to 120 characters.
pub proof fn a_signature_is_the_bare_line(l: Seq<char>)
    requires
        is_bare(l),
    ensures
        declares(l) ==> signature(l) == Some(
            if l.len() <= 120 {
                l
            } else {
                l.take(120)
            },
        ),
        declares(l.push('{')) ==> signature(l.push('{')) == Some(
            if l.len() <= 120 {
                l
            } else {
                l.take(120)
            },
        ),
        declares(l.push(':')) ==> signature(l.push(':')) == Some(
            if l.len() <= 120 {
                l
            } else {
                l.take(120)
            },
        ),
        declares(l.push(' ').push('{')) ==> signature(l.push(' ').push('{')) == Some(
            if l.len() <= 120 {
                l
            } else {
                l.take(120)
            },
        ),
{
    bare_is_trimmed(l);
    declarations_have_signatures(l);
    declarations_have_signatures(l.push('{'));
    declarations_have_signatures(l.push(':'));
    declarations_have_signatures(l.push(' ').push('{'));
}

proof fn among_the_first(lines: Seq<Seq<char>>, n: nat)
    requires
        n <= lines.len(),
    ensures
        forall|i: int, t: Seq<char>|
            0 <= i < n && signature(text::trim(#[trigger] lines[i])) == Some(t)
                ==> #[trigger] symbols_in(lines, n).contains(t),
        forall|t: Seq<char>| #[trigger]
            symbols_in(lines, n).contains(t) ==> exists|i: int|
                0 <= i < n && signature(text::trim(#[trigger] lines[i])) == Some(t),
        forall|i: int, t: Seq<char>|
            0 <= i < n && import_target(text::trim(#[trigger] lines[i])) == Some(t)
                ==> #[trigger] imports_in(lines, n).contains(t),
        forall|t: Seq<char>| #[trigger]
            imports_in(lines, n).contains(t) ==> exists|i: int|
                0 <= i < n && import_target(text::trim(#[trigger] lines[i])) == Some(t),
    decreases n,
{
    if n > 0 {
        let m = (n - 1) as nat;
        among_the_first(lines, m);
        let a = symbols_in(lines, m);
        let b = symbols_in(lines, n);
        let c = imports_in(lines, m);
        let d = imports_in(lines, n);
        assert forall|t: Seq<char>| #[trigger] a.contains(t) implies b.contains(t) by {
            let k = choose|k: int| 0 <= k < a.len() && a[k] == t;
            assert(b[k] == t);
        }
        assert forall|t: Seq<char>| #[trigger] c.contains(t) implies d.contains(t) by {
            let k = choose|k: int| 0 <= k < c.len() && c[k] == t;
            assert(d[k] == t);
        }
        if let Some(t) = signature(text::trim(lines[n - 1])) {
            assert(b[b.len() - 1] == t);
        }
        if let Some(t) = import_target(text::trim(lines[n - 1])) {
            assert(d[d.len() - 1] == t);
        }
        assert forall|i: int, t: Seq<char>|
            0 <= i < n && signature(text::trim(#[trigger] lines[i])) == Some(t) implies #[trigger]
        symbols_in(lines, n).contains(t) by {
            if i < m {
                assert(a.contains(t));
            }
        }
        assert forall|i: int, t: Seq<char>|
            0 <= i < n && import_target(text::trim(#[trigger] lines[i])) == Some(t) implies #[trigger]
        imports_in(lines, n).contains(t) by {
            if i < m {
                assert(c.contains(t));
            }
        }
        assert forall|t: Seq<char>| #[trigger] b.contains(t) implies exists|i: int|
            0 <= i < n && signature(text::trim(#[trigger] lines[i])) == Some(t) by {
            let k = choose|k: int| 0 <= k < b.len() && b[k] == t;
            if k < a.len() {
                assert(a[k] == t);
                assert(a.contains(t));
            } else {
                assert(signature(text::trim(lines[n - 1])) == Some(t));
            }
        }
        assert forall|t: Seq<char>| #[trigger] d.contains(t) implies exists|i: int|
            0 <= i < n && import_target(text::trim(#[trigger] lines[i])) == Some(t) by {
            let k = choose|k: int| 0 <= k < d.len() && d[k] == t;
            if k < c.len() {
                assert(c[k] == t);
                assert(c.contains(t));
            } else {
                assert(import_target(text::trim(lines[n - 1])) == Some(t));
            }
        }
    }
}

/// Every declaration and every import of a text is noted, each once and whatever line
/// it stands on, and nothing else is.
pub proof fn every_declaration_is_noted(content: Seq<char>, f: StructuralFingerprint)
    requires
        is_structure(content, f),
    ensures
        forall|i: int, t: Seq<char>|
            0 <= i < text::lines(content).len() && signature(
                text::trim(#[trigger] text::lines(content)[i]),
            ) == Some(t) ==> #[trigger] text::views(f.symbols@).contains(t),
        forall|t: Seq<char>| #[trigger]
            text::views(f.symbols@).contains(t) ==> exists|i: int|
                0 <= i < text::lines(content).len() && signature(
                    text::trim(#[trigger] text::lines(content)[i]),
                ) == Some(t),
        forall|i: int, t: Seq<char>|
            0 <= i < text::lines(content).len() && import_target(
                text::trim(#[trigger] text::lines(content)[i]),
            ) == Some(t) ==> #[trigger] text::views(f.imports@).contains(t),
        forall|t: Seq<char>| #[trigger]
            text::views(f.imports@).contains(t) ==> exists|i: int|
                0 <= i < text::lines(content).len() && import_target(
                    text::trim(#[trigger] text::lines(content)[i]),
                ) == Some(t),
        f.symbol_count == f.symbols@.len(),
        f.line_count == text::lines(content).len(),
{
    among_the_first(text::lines(content), text::lines(content).len());
}

/// A line begins a comment.
pub open spec fn is_comment(line: Seq<char>) -> bool {
    text::begins(line, "//"@) || text::begins(line, "#"@) || text::begins(line, "/*"@)
        || text::begins(line, "* "@) || text::begins(line, "\"\"\""@) || text::begins(line, "'''"@)
}

proof fn comments_are_told(line: Seq<char>)
    ensures
        comment(line) <==> is_comment(line),
{
    let m = seq!["//"@, "#"@, "/*"@, "* "@, "\"\"\""@, "'''"@];
    assert(m.len() == 6 && m[0] == "//"@ && m[1] == "#"@ && m[2] == "/*"@ && m[3] == "* "@ && m[4]
        == "\"\"\""@ && m[5] == "'''"@);
}

/// The comments among lines, each up to a hundred characters.
pub open spec fn comment_lines(lines: Seq<Seq<char>>) -> Seq<Seq<char>> {
    lines.filter(|l: Seq<char>| is_comment(text::trim(l))).map_values(
        |l: Seq<char>| text::head(text::trim(text::trim(l)), 100),
    )
}

proof fn first_comments(lines: Seq<Seq<char>>, n: nat)
    requires
        n <= lines.len(),
    ensures
        comments_in(lines, n) == (if comment_lines(lines.take(n as int)).len() <= 5 {
            comment_lines(lines.take(n as int))
        } else {
            comment_lines(lines.take(n as int)).take(5)
        }),
    decreases n,
{
    reveal(Seq::filter);
    let p = lines.take(n as int);
    if n > 0 {
        let q = lines.take(n - 1);
        first_comments(lines, (n - 1) as nat);
        assert(p.drop_last() =~= q);
        let line = text::trim(lines[n - 1]);
        comments_are_told(line);
        let a = comment_lines(q);
        let b = comment_lines(p);
        if is_comment(line) {
            assert(b =~= a.push(text::head(text::trim(line), 100)));
        } else {
            assert(b =~= a);
        }
        assert(comments_in(lines, n) =~= if b.len() <= 5 {
            b
        } else {
            b.take(5)
        });
    } else {
        assert(comment_lines(p) =~= Seq::empty());
        assert(comments_in(lines, n) =~= comment_lines(p));
    }
}

/// The first five comments of a text are noted, each up to a hundred characters.
pub proof fn the_first_comments_are_noted(content: Seq<char>, f: StructuralFingerprint)
    requires
        is_structure(content, f),
    ensures
        ({
            let all = comment_lines(text::lines(content));
            text::views(f.comments@) == (if all.len() <= 5 {
                all
            } else {
                all.take(5)
            })
        }),
{
    let lines = text::lines(content);
    first_comments(lines, lines.len());
    assert(lines.take(lines.len() as int) =~= lines);
}

/// One where something stands in a line, with a space at both ends of it.
pub open spec fn one_if(line: Seq<char>, token: Seq<char>) -> nat {
    if text::occurs(" "@ + line + " "@, token) {
        1
    } else {
        0
    }
}

/// How often a line branches: one for each of nine words and signs in it.
pub proof fn nine_words_branch(line: Seq<char>)
    ensures
        branch_count(line, 9) == one_if(line, " if "@) + one_if(line, " for "@) + one_if(
            line,
            " while "@,
        ) + one_if(line, " match "@) + one_if(line, " case "@) + one_if(line, " elif "@) + one_if(
            line,
            " except "@,
        ) + one_if(line, "&&"@) + one_if(line, "||"@),
{
    let b = branches();
    assert(b[0] == " if "@ && b[1] == " for "@ && b[2] == " while "@ && b[3] == " match "@ && b[4]
        == " case "@ && b[5] == " elif "@ && b[6] == " except "@ && b[7] == "&&"@ && b[8]
        == "||"@);
    reveal_with_fuel(branch_count, 10);
}

/// The branches of lines add up, and those of a text are one more.
pub proof fn branches_add_up(a: Seq<Seq<char>>, b: Seq<Seq<char>>)
    ensures
        branches_in(a + b, (a + b).len()) == branches_in(a, a.len()) + branches_in(b, b.len()),
        a.len() == 1 ==> branches_in(a, a.len()) == branch_count(text::trim(a[0]), 9),
        forall|content: Seq<char>, f: StructuralFingerprint| #[trigger]
            is_structure(content, f) ==> f.cyclomatic_complexity == branches_in(
                text::lines(content),
                text::lines(content).len(),
            ) + 1,
{
    branches_up_to(a, b, b.len());
    reveal_with_fuel(branches_in, 2);
}

proof fn branches_up_to(a: Seq<Seq<char>>, b: Seq<Seq<char>>, n: nat)
    requires
        n <= b.len(),
    ensures
        branches_in(a + b, a.len() + n) == branches_in(a, a.len()) + branches_in(b, n),
    decreases n,
{
    if n > 0 {
        branches_up_to(a, b, (n - 1) as nat);
        assert((a + b)[a.len() + n - 1] == b[n - 1]);
    } else {
        same_front(a, b, a.len());
    }
}

proof fn same_front(a: Seq<Seq<char>>, b: Seq<Seq<char>>, n: nat)
    requires
        n <= a.len(),
    ensures
        branches_in(a + b, n) == branches_in(a, n),
    decreases n,
{
    if n > 0 {
        same_front(a, b, (n - 1) as nat);
        assert((a + b)[n - 1] == a[n - 1]);
    }
}

proof fn begins_behind(front: Seq<char>, rest: Seq<char>)
    ensures
        text::begins(front + rest, front),
        (front + rest).skip(front.len() as int) == rest,
{
    assert((front + rest).subrange(0, front.len() as int) =~= front);
    assert((front + rest).skip(front.len() as int) =~= rest);
}

/// The first words of a text.
pub open spec fn words_up_to(s: Seq<char>, n: int) -> Seq<char> {
    let w = text::words(s);
    text::join(
        if w.len() <= n {
            w
        } else {
            w.take(n)
        },
        " "@,
    )
}

/// What a line takes in: what `use` names, up to its semicolon, the three words behind
/// `import`, the two behind `from`, and the whole of an `#include`.
pub proof fn imports_are_read(rest: Seq<char>)
    ensures
        (rest.len() == 0 || rest.last() != ';') ==> import_target("use "@ + rest) == Some(rest)
            && import_target("use "@ + rest.push(';')) == Some(rest),
        import_target("import "@ + rest) == Some(words_up_to(rest, 3)),
        import_target("from "@ + rest) == Some(words_up_to(rest, 2)),
        import_target("#include"@ + rest) == Some("#include"@ + rest),
{
    reveal_strlit("use ");
    reveal_strlit("import ");
    reveal_strlit("from ");
    reveal_strlit("#include");
    begins_behind("use "@, rest);
    begins_behind("use "@, rest.push(';'));
    begins_behind("import "@, rest);
    begins_behind("from "@, rest);
    begins_behind("#include"@, rest);
    assert(rest.push(';').drop_last() =~= rest);
    reveal_with_fuel(text::strip_end, 2);
    let i = "import "@ + rest;
    let f = "from "@ + rest;
    let c = "#include"@ + rest;
    assert(i[0] == 'i' && f[0] == 'f' && c[0] == '#');
    if text::begins(i, "use "@) {
        assert(i.subrange(0, 4)[0] == 'u');
    }
    if text::begins(f, "use "@) {
        assert(f.subrange(0, 4)[0] == 'u');
    }
    if text::begins(f, "import "@) {
        assert(f.subrange(0, 7)[0] == 'i');
    }
    if text::begins(c, "use "@) {
        assert(c.subrange(0, 4)[0] == 'u');
    }
    if text::begins(c, "import "@) {
        assert(c.subrange(0, 7)[0] == 'i');
    }
    if text::begins(c, "from "@) {
        assert(c.subrange(0, 5)[0] == 'f');
    }
}

/// A line that begins in none of these ways takes nothing in.
pub proof fn no_other_line_imports(line: Seq<char>)
    ensures
        import_target(line) is Some <==> text::begins(line, "use "@) || text::begins(
            line,
            "import "@,
        ) || text::begins(line, "from "@) || text::begins(line, "#include"@),
{
}

/// A chunk holds up to thirty-two lines, told by their numbers, and begins where the
/// one before it ends.
pub proof fn a_chunk_holds_its_lines(lines: Seq<Seq<char>>, i: nat)
    requires
        32 * i < lines.len(),
    ensures
        ({
            let end = if 32 * i + 32 <= lines.len() {
                32 * i + 32
            } else {
                lines.len()
            };
            let c = chunk(lines, i);
            &&& c.content == text::join(lines.subrange((32 * i) as int, end as int), "\n"@)
            &&& text::begins(
                c.summary,
                "Chunk "@ + text::decimal(i + 1) + " (lines "@ + text::decimal((32 * i + 1) as nat)
                    + "-"@ + text::decimal(end as nat) + "). Symbols: "@,
            )
        }),
{
    let end = if 32 * i + 32 <= lines.len() {
        32 * i + 32
    } else {
        lines.len()
    };
    assert(segment(lines, i) =~= lines.subrange((32 * i) as int, end as int));
    let head = "Chunk "@ + text::decimal(i + 1) + " (lines "@ + text::decimal((32 * i + 1) as nat)
        + "-"@ + text::decimal(end as nat) + "). Symbols: "@;
    let c = chunk(lines, i);
    assert(c.summary.subrange(0, head.len() as int) =~= head);
}

/// A chunk tells the first four things that are declared in it, and the first line
/// that is not blank, up to ninety characters.
pub proof fn a_chunk_tells_what_it_declares(lines: Seq<Seq<char>>, i: nat)
    requires
        32 * i < lines.len(),
    ensures
        ({
            let part = segment(lines, i);
            let found = symbols_in(part, part.len());
            text::ends(
                chunk(lines, i).summary,
                "). Symbols: "@ + (if found.len() == 0 {
                    "none"@
                } else if found.len() <= 4 {
                    text::join(found, ", "@)
                } else {
                    text::join(found.take(4), ", "@)
                }) + ". Preview: "@ + text::head(text::trim(first_inked(part)), 90),
            )
        }),
{
    let part = segment(lines, i);
    let found = symbols_in(part, part.len());
    let tail = "). Symbols: "@ + listed_or_none(found, 4, ", "@) + ". Preview: "@ + truncated(
        first_inked(part),
        90,
    );
    let s = chunk(lines, i).summary;
    assert(found.len() == 4 ==> found.take(4) =~= found);
    assert(s.subrange(s.len() - tail.len(), s.len() as int) =~= tail);
}

/// The preview is the first line that is not blank.
pub proof fn the_first_inked_line_is_shown(lines: Seq<Seq<char>>, i: int)
    requires
        0 <= i < lines.len(),
        text::trim(lines[i]).len() > 0,
        forall|j: int| 0 <= j < i ==> text::trim(#[trigger] lines[j]).len() == 0,
    ensures
        first_inked(lines) == text::trim(lines[i]),
    decreases lines.len(),
{
    if i > 0 {
        assert(text::trim(lines[0]).len() == 0);
        assert forall|j: int| 0 <= j < i - 1 implies text::trim(
            #[trigger] lines.skip(1)[j],
        ).len() == 0 by {
            assert(lines.skip(1)[j] == lines[j + 1]);
        }
        the_first_inked_line_is_shown(lines.skip(1), i - 1);
    }
}

/// A text has as many chunks as its lines need, up to twenty-four.
pub proof fn as_many_chunks_as_needed(content: Seq<char>)
    ensures
        ({
            let n = text::lines(content).len();
            let k = chunks(content).len();
            &&& k <= 24
            &&& k < 24 ==> n <= 32 * k
            &&& k > 0 ==> 32 * (k - 1) < n
        }),
        forall|i: int|
            0 <= i < chunks(content).len() ==> #[trigger] chunks(content)[i] == chunk(
                text::lines(content),
                i as nat,
            ),
{
}

} // verus!
