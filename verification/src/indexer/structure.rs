//! What the text of a file shows of its structure.

use crate::order;
use crate::text;
use vstd::prelude::*;

verus! {

/// How many lines a chunk has.
pub const CHUNK_LINES: usize = 32;

/// How many chunks of a file are noted.
pub const MAX_CHUNKS_PER_FILE: usize = 24;

/// How many comments of a file are noted.
pub const MAX_COMMENTS: usize = 5;

/// The start of a text without the space around it.
pub open spec fn truncated(s: Seq<char>, max: nat) -> Seq<char> {
    text::head(text::trim(s), max)
}

/// The start of a text without the space around it.
pub fn truncate_text(s: &str, max_len: usize) -> (r: String)
    ensures
        r@ == truncated(s@, max_len as nat),
{
    text::take_chars(&text::trimmed(s), max_len)
}

// ---------------------------------------------------------------------------
// Lines
// ---------------------------------------------------------------------------

/// The line begins a comment.
pub open spec fn comment(line: Seq<char>) -> bool {
    text::begins_any(line, seq!["//"@, "#"@, "/*"@, "* "@, "\"\"\""@, "'''"@])
}

/// Whether the line begins a comment.
pub fn is_comment_line(trimmed: &str) -> (r: bool)
    ensures
        r == comment(trimmed@),
{
    let marks = ["//", "#", "/*", "* ", "\"\"\"", "'''"];
    assert(text::slice_views(marks@) =~= seq!["//"@, "#"@, "/*"@, "* "@, "\"\"\""@, "'''"@]);
    text::starts_with_any(trimmed, &marks)
}

/// The first words of a text, with a space between them.
pub open spec fn first_words(s: Seq<char>, n: nat) -> Seq<char> {
    let w = text::words(s);
    text::join(
        if n < w.len() {
            w.take(n as int)
        } else {
            w
        },
        " "@,
    )
}

fn take_words(s: &str, n: usize) -> (r: String)
    ensures
        r@ == first_words(s@, n as nat),
{
    let mut w = text::split_words(s);
    let ghost all = w@;
    w.truncate(n);
    assert(text::views(w@) =~= if n < text::words(s@).len() {
        text::words(s@).take(n as int)
    } else {
        text::words(s@)
    });
    text::joined(&w, " ")
}

/// What a line takes in from elsewhere, if it does.
pub open spec fn import_target(line: Seq<char>) -> Option<Seq<char>> {
    if text::begins(line, "use "@) {
        Some(text::strip_end(line.skip("use "@.len() as int), ';'))
    } else if text::begins(line, "import "@) {
        Some(first_words(line.skip("import "@.len() as int), 3))
    } else if text::begins(line, "from "@) {
        Some(first_words(line.skip("from "@.len() as int), 2))
    } else if text::begins(line, "#include"@) {
        Some(line)
    } else {
        None
    }
}

/// What a line takes in from elsewhere, if it does.
pub fn extract_import_target(trimmed: &str) -> (r: Option<String>)
    ensures
        match r {
            Some(t) => import_target(trimmed@) == Some(t@),
            None => import_target(trimmed@) is None,
        },
{
    if let Some(rest) = text::strip_prefix(trimmed, "use ") {
        return Some(text::stripped_end(&rest, ';'));
    }
    if let Some(rest) = text::strip_prefix(trimmed, "import ") {
        return Some(take_words(&rest, 3));
    }
    if let Some(rest) = text::strip_prefix(trimmed, "from ") {
        return Some(take_words(&rest, 2));
    }
    if text::starts_with(trimmed, "#include") {
        return Some(trimmed.to_owned());
    }
    None
}

/// What a line begins with that declares a symbol.
pub open spec fn symbol_starts() -> Seq<Seq<char>> {
    seq![
        "fn "@,
        "pub fn "@,
        "async fn "@,
        "pub async fn "@,
        "def "@,
        "class "@,
        "struct "@,
        "pub struct "@,
        "enum "@,
        "pub enum "@,
        "trait "@,
        "pub trait "@,
        "interface "@,
        "impl "@,
    ]
}

/// The symbol that a line declares, if it does: the line without the bracket or
/// the colon at its end, up to 120 characters.
pub open spec fn signature(line: Seq<char>) -> Option<Seq<char>> {
    if text::begins_any(line, symbol_starts()) {
        Some(
            text::head(text::trim(text::strip_end(text::strip_end(line, '{'), ':')), 120),
        )
    } else {
        None
    }
}

/// The symbol that a line declares, if it does.
pub fn extract_symbol_signature(trimmed: &str) -> (r: Option<String>)
    ensures
        match r {
            Some(t) => signature(trimmed@) == Some(t@),
            None => signature(trimmed@) is None,
        },
{
    let starts = [
        "fn ",
        "pub fn ",
        "async fn ",
        "pub async fn ",
        "def ",
        "class ",
        "struct ",
        "pub struct ",
        "enum ",
        "pub enum ",
        "trait ",
        "pub trait ",
        "interface ",
        "impl ",
    ];
    assert(text::slice_views(starts@) =~= symbol_starts());
    if text::starts_with_any(trimmed, &starts) {
        let bare = text::stripped_end(&text::stripped_end(trimmed, '{'), ':');
        Some(text::take_chars(&text::trimmed(&bare), 120))
    } else {
        None
    }
}

/// The words and signs that branch.
pub open spec fn branches() -> Seq<Seq<char>> {
    seq![
        " if "@,
        " for "@,
        " while "@,
        " match "@,
        " case "@,
        " elif "@,
        " except "@,
        "&&"@,
        "||"@,
    ]
}

/// How many of the first `n` words and signs stand in a line.
pub open spec fn branch_count(line: Seq<char>, n: nat) -> nat
    decreases n,
{
    if n == 0 {
        0
    } else {
        branch_count(line, (n - 1) as nat) + (if text::occurs(" "@ + line + " "@, branches()[n
            - 1]) {
            1nat
        } else {
            0
        })
    }
}

/// How many of the words and signs that branch stand in a line.
pub fn count_control_flow_tokens(line: &str) -> (r: usize)
    ensures
        r == branch_count(line@, 9),
        r <= 9,
{
    let tokens = [
        " if ",
        " for ",
        " while ",
        " match ",
        " case ",
        " elif ",
        " except ",
        "&&",
        "||",
    ];
    assert(text::slice_views(tokens@) =~= branches());
    let mut padded = " ".to_owned();
    padded.append(line);
    padded.append(" ");
    let mut count: usize = 0;
    for i in 0..9
        invariant
            tokens@.len() == 9,
            text::slice_views(tokens@) == branches(),
            padded@ == " "@ + line@ + " "@,
            count == branch_count(line@, i as nat),
            count <= i,
    {
        assert(text::slice_views(tokens@)[i as int] == tokens@[i as int]@);
        if text::contains(&padded, tokens[i]) {
            count = count + 1;
        }
    }
    count
}

// ---------------------------------------------------------------------------
// Fingerprints
// ---------------------------------------------------------------------------

/// What the text of a file shows of its structure.
#[derive(Debug)]
pub struct StructuralFingerprint {
    /// What it takes in, each once and in order.
    pub imports: Vec<String>,
    /// What it declares, each once and in order.
    pub symbols: Vec<String>,
    /// Its first comments.
    pub comments: Vec<String>,
    pub line_count: usize,
    pub symbol_count: usize,
    pub cyclomatic_complexity: usize,
}

/// The imports among the first `n` lines.
pub open spec fn imports_in(lines: Seq<Seq<char>>, n: nat) -> Seq<Seq<char>>
    decreases n,
{
    if n == 0 {
        Seq::empty()
    } else {
        let before = imports_in(lines, (n - 1) as nat);
        match import_target(text::trim(lines[n - 1])) {
            Some(t) => before.push(t),
            None => before,
        }
    }
}

/// The symbols among the first `n` lines.
pub open spec fn symbols_in(lines: Seq<Seq<char>>, n: nat) -> Seq<Seq<char>>
    decreases n,
{
    if n == 0 {
        Seq::empty()
    } else {
        let before = symbols_in(lines, (n - 1) as nat);
        match signature(text::trim(lines[n - 1])) {
            Some(t) => before.push(t),
            None => before,
        }
    }
}

/// The comments among the first `n` lines, up to five.
pub open spec fn comments_in(lines: Seq<Seq<char>>, n: nat) -> Seq<Seq<char>>
    decreases n,
{
    if n == 0 {
        Seq::empty()
    } else {
        let before = comments_in(lines, (n - 1) as nat);
        let line = text::trim(lines[n - 1]);
        if comment(line) && before.len() < MAX_COMMENTS {
            before.push(truncated(line, 100))
        } else {
            before
        }
    }
}

/// How often the first `n` lines branch.
pub open spec fn branches_in(lines: Seq<Seq<char>>, n: nat) -> nat
    decreases n,
{
    if n == 0 {
        0
    } else {
        branches_in(lines, (n - 1) as nat) + branch_count(text::trim(lines[n - 1]), 9)
    }
}

/// What a text shows of its structure.
pub open spec fn is_structure(content: Seq<char>, f: StructuralFingerprint) -> bool {
    let lines = text::lines(content);
    &&& order::is_sorted_set(text::views(f.imports@), imports_in(lines, lines.len()))
    &&& order::is_sorted_set(text::views(f.symbols@), symbols_in(lines, lines.len()))
    &&& text::views(f.comments@) == comments_in(lines, lines.len())
    &&& f.line_count == lines.len()
    &&& f.symbol_count == f.symbols@.len()
    &&& f.cyclomatic_complexity == 1 + branches_in(lines, lines.len())
}

/// What is shown of a file that is not text.
pub open spec fn is_blank_structure(f: StructuralFingerprint) -> bool {
    &&& f.imports@.len() == 0
    &&& f.symbols@.len() == 0
    &&& f.comments@.len() == 0
    &&& f.line_count == 0
    &&& f.symbol_count == 0
    &&& f.cyclomatic_complexity == 0
}

/// What is shown of a file that is not text.
pub fn no_structure() -> (r: StructuralFingerprint)
    ensures
        is_blank_structure(r),
{
    StructuralFingerprint {
        imports: Vec::new(),
        symbols: Vec::new(),
        comments: Vec::new(),
        line_count: 0,
        symbol_count: 0,
        cyclomatic_complexity: 0,
    }
}

proof fn no_more_branches(lines: Seq<Seq<char>>, n: nat)
    ensures
        branches_in(lines, n) <= 9 * n,
    decreases n,
{
    if n > 0 {
        no_more_branches(lines, (n - 1) as nat);
        few_branches(text::trim(lines[n - 1]), 9);
    }
}

proof fn few_branches(line: Seq<char>, n: nat)
    ensures
        branch_count(line, n) <= n,
    decreases n,
{
    if n > 0 {
        few_branches(line, (n - 1) as nat);
    }
}

/// What a text shows of its structure. The text is not so long that its
/// branches cannot be counted.
pub fn extract_structure(content: &str) -> (r: StructuralFingerprint)
    requires
        9 * text::lines(content@).len() < usize::MAX,
    ensures
        is_structure(content@, r),
{
    broadcast use text::views_push;

    let lines = text::split_lines(content);
    let ghost all = text::views(lines@);
    let mut imports: Vec<String> = Vec::new();
    let mut symbols: Vec<String> = Vec::new();
    let mut comments: Vec<String> = Vec::new();
    let mut complexity: usize = 1;
    assert(text::views(imports@) =~= Seq::empty());
    assert(all.len() == lines@.len());
    for i in 0..lines.len()
        invariant
            all == text::views(lines@),
            all.len() == lines@.len(),
            9 * all.len() < usize::MAX,
            text::views(imports@) == imports_in(all, i as nat),
            text::views(symbols@) == symbols_in(all, i as nat),
            text::views(comments@) == comments_in(all, i as nat),
            complexity == 1 + branches_in(all, i as nat),
    {
        assert(all[i as int] == lines@[i as int]@);
        let trimmed = text::trimmed(&lines[i]);
        assert(text::views(comments@).len() == comments@.len());
        if is_comment_line(&trimmed) && comments.len() < MAX_COMMENTS {
            comments.push(truncate_text(&trimmed, 100));
        }
        if let Some(t) = extract_import_target(&trimmed) {
            imports.push(t);
        }
        if let Some(t) = extract_symbol_signature(&trimmed) {
            symbols.push(t);
        }
        proof {
            no_more_branches(all, i as nat);
        }
        complexity = complexity + count_control_flow_tokens(&trimmed);
    }
    let imports = order::sorted_set(&imports);
    let symbols = order::sorted_set(&symbols);
    let symbol_count: usize = symbols.len();
    StructuralFingerprint {
        imports,
        symbols,
        comments,
        line_count: lines.len(),
        symbol_count,
        cyclomatic_complexity: complexity,
    }
}

// ---------------------------------------------------------------------------
// Chunks
// ---------------------------------------------------------------------------

/// A chunk of a file: some lines of it, and a line about them.
#[derive(Debug)]
pub struct ChunkFingerprint {
    pub summary: String,
    pub content: String,
}

/// The model of a chunk.
#[verifier::ext_equal]
pub struct ChunkV {
    pub summary: Seq<char>,
    pub content: Seq<char>,
}

impl View for ChunkFingerprint {
    type V = ChunkV;

    open spec fn view(&self) -> ChunkV {
        ChunkV { summary: self.summary@, content: self.content@ }
    }
}

/// The models of a list of chunks.
pub open spec fn chunk_views(l: Seq<ChunkFingerprint>) -> Seq<ChunkV> {
    l.map_values(|c: ChunkFingerprint| c@)
}

/// The lines of a chunk.
pub open spec fn segment(lines: Seq<Seq<char>>, index: nat) -> Seq<Seq<char>> {
    let start = index * CHUNK_LINES;
    if start + CHUNK_LINES < lines.len() {
        lines.subrange(start as int, start + CHUNK_LINES)
    } else if start < lines.len() {
        lines.skip(start as int)
    } else {
        Seq::empty()
    }
}

/// The first line that is not blank, without the space around it; empty where
/// there is none.
pub open spec fn first_inked(lines: Seq<Seq<char>>) -> Seq<char>
    decreases lines.len(),
{
    if lines.len() == 0 {
        Seq::empty()
    } else if text::trim(lines[0]).len() > 0 {
        text::trim(lines[0])
    } else {
        first_inked(lines.skip(1))
    }
}

/// The first symbols of a list, or a word for none.
pub open spec fn listed_or_none(l: Seq<Seq<char>>, most: nat, sep: Seq<char>) -> Seq<char> {
    if l.len() == 0 {
        "none"@
    } else {
        text::join(
            if most < l.len() {
                l.take(most as int)
            } else {
                l
            },
            sep,
        )
    }
}

/// The chunk with a number, counted from zero.
pub open spec fn chunk(lines: Seq<Seq<char>>, index: nat) -> ChunkV {
    let part = segment(lines, index);
    let first = index * CHUNK_LINES + 1;
    let last = if part.len() == 0 {
        first as int
    } else {
        first + part.len() - 1
    };
    ChunkV {
        summary: "Chunk "@ + text::decimal(index + 1) + " (lines "@ + text::decimal(first as nat)
            + "-"@ + text::decimal(last as nat) + "). Symbols: "@ + listed_or_none(
            symbols_in(part, part.len()),
            4,
            ", "@,
        ) + ". Preview: "@ + truncated(first_inked(part), 90),
        content: text::join(part, "\n"@),
    }
}

/// How many chunks a text has.
pub open spec fn chunk_count(lines: nat) -> nat {
    let n = (lines + CHUNK_LINES - 1) / CHUNK_LINES as int;
    if n < MAX_CHUNKS_PER_FILE {
        n as nat
    } else {
        MAX_CHUNKS_PER_FILE as nat
    }
}

/// The chunks of a text.
pub open spec fn chunks(content: Seq<char>) -> Seq<ChunkV> {
    let lines = text::lines(content);
    Seq::new(chunk_count(lines.len()), |i: int| chunk(lines, i as nat))
}

/// The first line that is not blank, without the space around it; nothing where
/// there is none.
pub fn find_inked(lines: &Vec<String>) -> (r: String)
    ensures
        r@ == first_inked(text::views(lines@)),
{
    let ghost all = text::views(lines@);
    let mut i: usize = 0;
    assert(all.skip(0) =~= all);
    while i < lines.len()
        invariant
            i <= lines@.len(),
            all == text::views(lines@),
            first_inked(all) == first_inked(all.skip(i as int)),
        decreases lines@.len() - i,
    {
        assert(all.skip(i as int)[0] == lines@[i as int]@);
        assert(all.skip(i as int).skip(1) =~= all.skip(i + 1));
        let t = text::trimmed(&lines[i]);
        if !t.as_str().is_empty() {
            return t;
        }
        i = i + 1;
    }
    assert(all.skip(i as int) =~= Seq::empty());
    String::new()
}

/// A copy of the first texts of a list.
pub fn first_of(l: &Vec<String>, most: usize) -> (r: Vec<String>)
    ensures
        text::views(r@) == (if most < l@.len() {
            text::views(l@).take(most as int)
        } else {
            text::views(l@)
        }),
{
    broadcast use text::views_push;

    let n: usize = if most < l.len() {
        most
    } else {
        l.len()
    };
    let ghost all = text::views(l@);
    let mut out: Vec<String> = Vec::new();
    assert(text::views(out@) =~= all.take(0));
    for i in 0..n
        invariant
            n <= l@.len(),
            all == text::views(l@),
            text::views(out@) == all.take(i as int),
    {
        out.push(l[i].clone());
        assert(all.take(i + 1) =~= all.take(i as int).push(l@[i as int]@));
    }
    assert(all.take(all.len() as int) =~= all);
    out
}

/// The first texts of a list, or a word for none.
pub fn list_or_none(l: &Vec<String>, most: usize, sep: &str) -> (r: String)
    ensures
        r@ == listed_or_none(text::views(l@), most as nat, sep@),
{
    assert(text::views(l@).len() == l@.len());
    if l.len() == 0 {
        "none".to_owned()
    } else {
        text::joined(&first_of(l, most), sep)
    }
}

fn find_symbols(lines: &Vec<String>) -> (r: Vec<String>)
    ensures
        text::views(r@) == symbols_in(text::views(lines@), lines@.len()),
{
    broadcast use text::views_push;

    let ghost all = text::views(lines@);
    let mut out: Vec<String> = Vec::new();
    assert(text::views(out@) =~= Seq::empty());
    for i in 0..lines.len()
        invariant
            all == text::views(lines@),
            text::views(out@) == symbols_in(all, i as nat),
    {
        assert(all[i as int] == lines@[i as int]@);
        if let Some(t) = extract_symbol_signature(&text::trimmed(&lines[i])) {
            out.push(t);
        }
    }
    out
}

fn take_segment(lines: &Vec<String>, index: usize) -> (r: Vec<String>)
    requires
        index < MAX_CHUNKS_PER_FILE,
        index * CHUNK_LINES < lines@.len(),
    ensures
        text::views(r@) == segment(text::views(lines@), index as nat),
        0 < r@.len() <= CHUNK_LINES,
{
    broadcast use text::views_push;

    let start: usize = index * CHUNK_LINES;
    let room: usize = lines.len() - start;
    let end: usize = if CHUNK_LINES < room {
        start + CHUNK_LINES
    } else {
        lines.len()
    };
    let ghost all = text::views(lines@);
    let ghost want = all.subrange(start as int, end as int);
    let mut out: Vec<String> = Vec::new();
    assert(text::views(out@) =~= want.take(0));
    for i in start..end
        invariant
            start <= i,
            end <= lines@.len(),
            all == text::views(lines@),
            want == all.subrange(start as int, end as int),
            text::views(out@) == want.take(i - start),
            out@.len() == i - start,
    {
        out.push(lines[i].clone());
        assert(want[i - start] == lines@[i as int]@);
        assert(want.take(i + 1 - start) =~= want.take(i - start).push(lines@[i as int]@));
    }
    assert(want.take(want.len() as int) =~= want);
    assert(want =~= segment(all, index as nat));
    out
}

fn make_chunk(lines: &Vec<String>, index: usize) -> (r: ChunkFingerprint)
    requires
        index < MAX_CHUNKS_PER_FILE,
        index * CHUNK_LINES < lines@.len(),
    ensures
        r@ == chunk(text::views(lines@), index as nat),
{
    let part = take_segment(lines, index);
    assert(text::views(part@).len() == part@.len());
    let first: usize = index * CHUNK_LINES + 1;
    let last: usize = first + part.len() - 1;
    let mut summary = "Chunk ".to_owned();
    summary.append(&text::number((index + 1) as u64));
    summary.append(" (lines ");
    summary.append(&text::number(first as u64));
    summary.append("-");
    summary.append(&text::number(last as u64));
    summary.append("). Symbols: ");
    summary.append(&list_or_none(&find_symbols(&part), 4, ", "));
    summary.append(". Preview: ");
    summary.append(&truncate_text(&find_inked(&part), 90));
    ChunkFingerprint { summary, content: text::joined(&part, "\n") }
}

/// The chunks of a text.
pub fn chunk_fingerprints(content: &str) -> (r: Vec<ChunkFingerprint>)
    ensures
        chunk_views(r@) == chunks(content@),
{
    let lines = text::split_lines(content);
    let ghost all = text::views(lines@);
    let ghost want = chunks(content@);
    let mut out: Vec<ChunkFingerprint> = Vec::new();
    let mut index: usize = 0;
    assert(all.len() == lines@.len());
    assert(chunk_views(out@) =~= want.take(0));
    while index < MAX_CHUNKS_PER_FILE && index * CHUNK_LINES < lines.len()
        invariant
            index <= MAX_CHUNKS_PER_FILE,
            index <= chunk_count(lines@.len()),
            all == text::views(lines@),
            all.len() == lines@.len(),
            want == Seq::new(chunk_count(all.len()), |i: int| chunk(all, i as nat)),
            chunk_views(out@) == want.take(index as int),
        decreases MAX_CHUNKS_PER_FILE - index,
    {
        let c = make_chunk(&lines, index);
        let ghost before = out@;
        assert(want[index as int] == c@);
        out.push(c);
        assert(chunk_views(out@) =~= chunk_views(before).push(c@));
        assert(want.take(index + 1) =~= want.take(index as int).push(c@));
        index = index + 1;
    }
    assert(index == chunk_count(lines@.len()));
    assert(want.take(want.len() as int) =~= want);
    out
}

/// The lines of the chunks of a text, one after the other.
pub open spec fn segments(lines: Seq<Seq<char>>, n: nat) -> Seq<Seq<char>>
    decreases n,
{
    if n == 0 {
        Seq::empty()
    } else {
        segments(lines, (n - 1) as nat) + segment(lines, (n - 1) as nat)
    }
}

proof fn segments_are_a_start(lines: Seq<Seq<char>>, n: nat)
    ensures
        segments(lines, n) == (if n * CHUNK_LINES < lines.len() {
            lines.take(n * CHUNK_LINES)
        } else {
            lines
        }),
    decreases n,
{
    if n > 0 {
        segments_are_a_start(lines, (n - 1) as nat);
        assert(segments(lines, n) =~= if n * CHUNK_LINES < lines.len() {
            lines.take(n * CHUNK_LINES)
        } else {
            lines
        });
    } else {
        assert(segments(lines, n) =~= if lines.len() > 0 {
            lines.take(0)
        } else {
            lines
        });
    }
}

/// The chunks of a text hold its lines one after the other: all of them, or the
/// first 768.
pub proof fn chunks_hold_the_lines(content: Seq<char>)
    ensures
        ({
            let lines = text::lines(content);
            segments(lines, chunk_count(lines.len())) == (if lines.len() <= 768 {
                lines
            } else {
                lines.take(768)
            })
        }),
{
    let lines = text::lines(content);
    segments_are_a_start(lines, chunk_count(lines.len()));
    assert(segments(lines, chunk_count(lines.len())) =~= if lines.len() <= 768 {
        lines
    } else {
        lines.take(768)
    });
}

} // verus!
