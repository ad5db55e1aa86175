//! What is noted of a file.

use crate::indexer::structure;
use crate::indexer::structure::{ChunkFingerprint, StructuralFingerprint};
use crate::json::{Json, JsonV, Number};
use crate::llm::types::text_view;
use crate::order;
use crate::outside;
use crate::text;
use vstd::prelude::*;

verus! {

/// The media type of a file, by the ending of its name.
pub open spec fn mime_type(ext: Seq<char>, is_text: bool) -> Seq<char> {
    let e = text::lower(ext);
    if e == "rs"@ {
        "text/x-rust"@
    } else if e == "py"@ {
        "text/x-python"@
    } else if e == "js"@ {
        "text/javascript"@
    } else if e == "ts"@ {
        "text/typescript"@
    } else if e == "tsx"@ {
        "text/tsx"@
    } else if e == "jsx"@ {
        "text/jsx"@
    } else if e == "svelte"@ {
        "text/x-svelte"@
    } else if e == "json"@ {
        "application/json"@
    } else if e == "md"@ {
        "text/markdown"@
    } else if e == "toml"@ {
        "application/toml"@
    } else if e == "yaml"@ || e == "yml"@ {
        "application/yaml"@
    } else if e == "html"@ {
        "text/html"@
    } else if e == "css"@ {
        "text/css"@
    } else if e == "cpp"@ || e == "cc"@ || e == "cxx"@ {
        "text/x-c++src"@
    } else if e == "c"@ {
        "text/x-csrc"@
    } else if e == "h"@ || e == "hpp"@ {
        "text/x-chdr"@
    } else if e == "xaml"@ {
        "application/xaml+xml"@
    } else if is_text {
        "text/plain"@
    } else {
        "application/octet-stream"@
    }
}

/// The media type of a file, by the ending of its name.
pub fn guess_mime_type(ext: &str, is_text: bool) -> (r: String)
    ensures
        r@ == mime_type(ext@, is_text),
{
    let e = text::to_lower(ext);
    if text::same(&e, "rs") {
        return "text/x-rust".to_owned();
    }
    if text::same(&e, "py") {
        return "text/x-python".to_owned();
    }
    if text::same(&e, "js") {
        return "text/javascript".to_owned();
    }
    if text::same(&e, "ts") {
        return "text/typescript".to_owned();
    }
    if text::same(&e, "tsx") {
        return "text/tsx".to_owned();
    }
    if text::same(&e, "jsx") {
        return "text/jsx".to_owned();
    }
    if text::same(&e, "svelte") {
        return "text/x-svelte".to_owned();
    }
    if text::same(&e, "json") {
        return "application/json".to_owned();
    }
    if text::same(&e, "md") {
        return "text/markdown".to_owned();
    }
    if text::same(&e, "toml") {
        return "application/toml".to_owned();
    }
    if text::same(&e, "yaml") || text::same(&e, "yml") {
        return "application/yaml".to_owned();
    }
    if text::same(&e, "html") {
        return "text/html".to_owned();
    }
    if text::same(&e, "css") {
        return "text/css".to_owned();
    }
    if text::same(&e, "cpp") || text::same(&e, "cc") || text::same(&e, "cxx") {
        return "text/x-c++src".to_owned();
    }
    if text::same(&e, "c") {
        return "text/x-csrc".to_owned();
    }
    if text::same(&e, "h") || text::same(&e, "hpp") {
        return "text/x-chdr".to_owned();
    }
    if text::same(&e, "xaml") {
        return "application/xaml+xml".to_owned();
    }
    if is_text {
        "text/plain".to_owned()
    } else {
        "application/octet-stream".to_owned()
    }
}

/// What a file is, by the ending of its name.
pub open spec fn file_type(ext: Seq<char>, is_text: bool) -> Seq<char> {
    let e = text::lower(ext);
    if e == "rs"@ {
        "Rust source file"@
    } else if e == "py"@ {
        "Python source file"@
    } else if e == "js"@ || e == "ts"@ || e == "tsx"@ || e == "jsx"@ || e == "svelte"@ {
        "Web source file"@
    } else if e == "json"@ || e == "yaml"@ || e == "yml"@ || e == "toml"@ {
        "Configuration file"@
    } else if e == "md"@ {
        "Markdown document"@
    } else if e == "cpp"@ || e == "cc"@ || e == "cxx"@ || e == "c"@ || e == "h"@ || e == "hpp"@ {
        "C/C++ source file"@
    } else if e == "xaml"@ {
        "XAML UI file"@
    } else if is_text {
        "Text file"@
    } else {
        "Binary file"@
    }
}

/// What a file is, by the ending of its name.
pub fn guess_file_type(ext: &str, is_text: bool) -> (r: String)
    ensures
        r@ == file_type(ext@, is_text),
{
    let e = text::to_lower(ext);
    if text::same(&e, "rs") {
        return "Rust source file".to_owned();
    }
    if text::same(&e, "py") {
        return "Python source file".to_owned();
    }
    if text::same(&e, "js") || text::same(&e, "ts") || text::same(&e, "tsx")
        || text::same(&e, "jsx") || text::same(&e, "svelte") {
        return "Web source file".to_owned();
    }
    if text::same(&e, "json") || text::same(&e, "yaml") || text::same(&e, "yml")
        || text::same(&e, "toml") {
        return "Configuration file".to_owned();
    }
    if text::same(&e, "md") {
        return "Markdown document".to_owned();
    }
    if text::same(&e, "cpp") || text::same(&e, "cc") || text::same(&e, "cxx")
        || text::same(&e, "c") || text::same(&e, "h") || text::same(&e, "hpp") {
        return "C/C++ source file".to_owned();
    }
    if text::same(&e, "xaml") {
        return "XAML UI file".to_owned();
    }
    if is_text {
        "Text file".to_owned()
    } else {
        "Binary file".to_owned()
    }
}

/// What is known of a file before it is read. A part of a path that is no text
/// stands by a text that is as close as can be.
#[derive(Debug)]
pub struct FileFacts {
    pub path: String,
    pub file_name: Option<String>,
    pub extension: Option<String>,
    /// How many parts the path has.
    pub depth: usize,
    /// The parts of the path of the directory that the file is in, if there is
    /// one.
    pub parent: Option<Vec<String>>,
    pub size: u64,
    /// The size in words.
    pub size_human: String,
    pub modified: Option<String>,
    pub created: Option<String>,
}

/// A text that may be absent, or a word for that.
pub open spec fn known(t: Option<Seq<char>>, word: Seq<char>) -> Seq<char> {
    match t {
        Some(s) => s,
        None => word,
    }
}

fn known_or(t: &Option<String>, word: &str) -> (r: String)
    ensures
        r@ == known(text_view(*t), word@),
{
    match t {
        Some(s) => s.clone(),
        None => word.to_owned(),
    }
}

/// The ending of the name of a file; empty where it has none.
pub open spec fn ending(f: FileFacts) -> Seq<char> {
    known(text_view(f.extension), Seq::empty())
}

/// The ending of the name of a file; empty where it has none.
pub fn ending_of(f: &FileFacts) -> (r: String)
    ensures
        r@ == ending(*f),
{
    match &f.extension {
        Some(s) => s.clone(),
        None => String::new(),
    }
}

/// The name of a file.
pub open spec fn name(f: FileFacts) -> Seq<char> {
    known(text_view(f.file_name), "unknown"@)
}

/// The name of a file.
pub fn name_of(f: &FileFacts) -> (r: String)
    ensures
        r@ == name(*f),
{
    known_or(&f.file_name, "unknown")
}

/// The names of the last four directories of a path.
pub open spec fn folder_names(parts: Seq<Seq<char>>) -> Seq<char> {
    text::join(
        if parts.len() > 4 {
            parts.skip(parts.len() - 4)
        } else {
            parts
        },
        " > "@,
    )
}

/// The names of the last four directories of a path.
pub fn parent_folder_names(parts: &Vec<String>) -> (r: String)
    ensures
        r@ == folder_names(text::views(parts@)),
{
    broadcast use text::views_push;

    let start: usize = if parts.len() > 4 {
        parts.len() - 4
    } else {
        0
    };
    let ghost all = text::views(parts@);
    let ghost want = all.skip(start as int);
    let mut names: Vec<String> = Vec::new();
    assert(text::views(names@) =~= want.take(0));
    for i in start..parts.len()
        invariant
            start <= i,
            all == text::views(parts@),
            want == all.skip(start as int),
            text::views(names@) == want.take(i - start),
    {
        names.push(parts[i].clone());
        assert(want[i - start] == parts@[i as int]@);
        assert(want.take(i + 1 - start) =~= want.take(i - start).push(parts@[i as int]@));
    }
    assert(want.take(want.len() as int) =~= want);
    assert(start == 0 ==> want =~= all);
    text::joined(&names, " > ")
}

/// The directories that a file is in.
pub open spec fn folders(f: FileFacts) -> Seq<char> {
    match f.parent {
        Some(p) => folder_names(text::views(p@)),
        None => "root"@,
    }
}

fn folders_of(f: &FileFacts) -> (r: String)
    ensures
        r@ == folders(*f),
{
    match &f.parent {
        Some(p) => parent_folder_names(p),
        None => "root".to_owned(),
    }
}

/// A point in time with its date, its time of day and the zone; none where
/// there is no date for it.
pub fn format_system_time(secs: i64) -> (r: Option<String>)
    ensures
        text_view(r) == outside::utc_text(secs),
        crate::error_log::agrees_with_calendar(secs, text_view(r)),
{
    outside::utc_time(secs)
}

/// A summary of a file.
pub open spec fn metadata_summary(f: FileFacts, mime: Seq<char>, kind: Seq<char>) -> Seq<char> {
    "Type: "@ + kind + "\nPath: "@ + f.path@ + "\nExtension: "@ + (if ending(f).len() == 0 {
        "none"@
    } else {
        ending(f)
    }) + "\nSize: "@ + f.size_human@ + "\nModified: "@ + known(text_view(f.modified), "unknown"@)
        + "\nCreated: "@ + known(text_view(f.created), "unknown"@) + "\nPath depth: "@
        + text::decimal(f.depth as nat) + "\nParent folders: "@ + folders(f) + "\nMIME type: "@
        + mime
}

/// A summary of a file.
pub fn build_metadata_summary(f: &FileFacts, mime: &str, kind: &str) -> (r: String)
    ensures
        r@ == metadata_summary(*f, mime@, kind@),
{
    let ending = ending_of(f);
    let mut t = "Type: ".to_owned();
    t.append(kind);
    t.append("\nPath: ");
    t.append(&f.path);
    t.append("\nExtension: ");
    if ending.as_str().is_empty() {
        t.append("none");
    } else {
        t.append(&ending);
    }
    t.append("\nSize: ");
    t.append(&f.size_human);
    t.append("\nModified: ");
    t.append(&known_or(&f.modified, "unknown"));
    t.append("\nCreated: ");
    t.append(&known_or(&f.created, "unknown"));
    t.append("\nPath depth: ");
    t.append(&text::number(f.depth as u64));
    t.append("\nParent folders: ");
    t.append(&folders_of(f));
    t.append("\nMIME type: ");
    t.append(mime);
    t
}

/// What is noted of a file, by name.
pub open spec fn file_metadata(
    f: FileFacts,
    mime: Seq<char>,
    kind: Seq<char>,
    s: StructuralFingerprint,
    chunks: nat,
    neural: bool,
) -> JsonV {
    JsonV::Object(
        seq![
            ("path"@, JsonV::Text(f.path@)),
            ("extension"@, JsonV::Text(ending(f))),
            ("size_bytes"@, JsonV::Num(Number::Unsigned(f.size))),
            ("size_human"@, JsonV::Text(f.size_human@)),
            ("modified"@, JsonV::Text(known(text_view(f.modified), "unknown"@))),
            ("created"@, JsonV::Text(known(text_view(f.created), "unknown"@))),
            ("path_depth"@, JsonV::Num(Number::Unsigned(f.depth as u64))),
            ("parent_folders"@, JsonV::Text(folders(f))),
            ("mime_type"@, JsonV::Text(mime)),
            ("file_type"@, JsonV::Text(kind)),
            ("line_count"@, JsonV::Num(Number::Unsigned(s.line_count as u64))),
            ("symbol_count"@, JsonV::Num(Number::Unsigned(s.symbol_count as u64))),
            (
                "cyclomatic_complexity"@,
                JsonV::Num(Number::Unsigned(s.cyclomatic_complexity as u64)),
            ),
            ("chunk_count"@, JsonV::Num(Number::Unsigned(chunks as u64))),
            (
                "indexing_mode"@,
                JsonV::Text(
                    if neural {
                        "neural"@
                    } else {
                        "hash"@
                    },
                ),
            ),
        ],
    )
}

/// What is noted of a file, by name.
pub fn build_file_metadata(
    f: &FileFacts,
    mime: &str,
    kind: &str,
    s: &StructuralFingerprint,
    chunks: usize,
    neural: bool,
) -> (r: Json)
    ensures
        r@ == file_metadata(*f, mime@, kind@, *s, chunks as nat, neural),
{
    let mode = (if neural {
        "neural"
    } else {
        "hash"
    }).to_owned();
    let r = Json::Object(
        vec![
            ("path".to_owned(), Json::Text(f.path.clone())),
            ("extension".to_owned(), Json::Text(ending_of(f))),
            ("size_bytes".to_owned(), Json::Num(Number::Unsigned(f.size))),
            ("size_human".to_owned(), Json::Text(f.size_human.clone())),
            ("modified".to_owned(), Json::Text(known_or(&f.modified, "unknown"))),
            ("created".to_owned(), Json::Text(known_or(&f.created, "unknown"))),
            ("path_depth".to_owned(), Json::Num(Number::Unsigned(f.depth as u64))),
            ("parent_folders".to_owned(), Json::Text(folders_of(f))),
            ("mime_type".to_owned(), Json::Text(mime.to_owned())),
            ("file_type".to_owned(), Json::Text(kind.to_owned())),
            ("line_count".to_owned(), Json::Num(Number::Unsigned(s.line_count as u64))),
            ("symbol_count".to_owned(), Json::Num(Number::Unsigned(s.symbol_count as u64))),
            (
                "cyclomatic_complexity".to_owned(),
                Json::Num(Number::Unsigned(s.cyclomatic_complexity as u64)),
            ),
            ("chunk_count".to_owned(), Json::Num(Number::Unsigned(chunks as u64))),
            ("indexing_mode".to_owned(), Json::Text(mode)),
        ],
    );
    proof {
        reveal_with_fuel(Json::model, 3);
        assert(r@->Object_0 =~= file_metadata(
            *f,
            mime@,
            kind@,
            *s,
            chunks as nat,
            neural,
        )->Object_0);
    }
    r
}

/// What is said of the structure of a file.
pub open spec fn structure_summary(s: StructuralFingerprint, is_text: bool) -> Seq<char> {
    if !is_text {
        "Structural summary: binary or non-UTF8 file; metadata-only indexing applied."@
    } else {
        let imports = structure::listed_or_none(text::views(s.imports@), 12, ", "@);
        "Lines: "@ + text::decimal(s.line_count as nat) + "\nSymbols: "@
            + structure::listed_or_none(text::views(s.symbols@), 12, ", "@) + "\nImports: "@
            + imports + "\nTop-level comments: "@ + (if s.comments@.len() == 0 {
            "none"@
        } else {
            text::join(text::views(s.comments@), " | "@)
        }) + "\nApprox cyclomatic complexity: "@ + text::decimal(s.cyclomatic_complexity as nat)
            + "\nDependency graph: "@ + imports
    }
}

/// What is said of the structure of a file.
pub fn format_structure_summary(s: &StructuralFingerprint, is_text: bool) -> (r: String)
    ensures
        r@ == structure_summary(*s, is_text),
{
    if !is_text {
        return "Structural summary: binary or non-UTF8 file; metadata-only indexing applied.".to_owned();
    }
    let imports = structure::list_or_none(&s.imports, 12, ", ");
    let mut t = "Lines: ".to_owned();
    t.append(&text::number(s.line_count as u64));
    t.append("\nSymbols: ");
    t.append(&structure::list_or_none(&s.symbols, 12, ", "));
    t.append("\nImports: ");
    t.append(&imports);
    t.append("\nTop-level comments: ");
    if s.comments.len() == 0 {
        t.append("none");
    } else {
        t.append(&text::joined(&s.comments, " | "));
    }
    t.append("\nApprox cyclomatic complexity: ");
    t.append(&text::number(s.cyclomatic_complexity as u64));
    t.append("\nDependency graph: ");
    t.append(&imports);
    t
}

/// The summaries of a list of chunks.
pub open spec fn summaries(l: Seq<ChunkFingerprint>) -> Seq<Seq<char>> {
    l.map_values(|c: ChunkFingerprint| c.summary@)
}

/// What is said of the symbols and the chunks of a file.
pub open spec fn signatures_and_chunks(
    s: StructuralFingerprint,
    l: Seq<ChunkFingerprint>,
) -> Seq<char> {
    "Signatures:\n"@ + (if s.symbols@.len() == 0 {
        "none"@
    } else {
        text::join(text::views(s.symbols@), "\n"@)
    }) + "\n\nChunk fingerprints:\n"@ + (if l.len() == 0 {
        "Chunk fingerprints: none"@
    } else {
        text::join(summaries(l), "\n"@)
    })
}

/// What is said of the symbols and the chunks of a file.
pub fn format_signatures_and_chunks(
    s: &StructuralFingerprint,
    l: &Vec<ChunkFingerprint>,
) -> (r: String)
    ensures
        r@ == signatures_and_chunks(*s, l@),
{
    broadcast use text::views_push;

    let mut t = "Signatures:\n".to_owned();
    if s.symbols.len() == 0 {
        t.append("none");
    } else {
        t.append(&text::joined(&s.symbols, "\n"));
    }
    t.append("\n\nChunk fingerprints:\n");
    if l.len() == 0 {
        t.append("Chunk fingerprints: none");
    } else {
        let ghost want = summaries(l@);
        let mut lines: Vec<String> = Vec::new();
        assert(text::views(lines@) =~= want.take(0));
        for i in 0..l.len()
            invariant
                want == summaries(l@),
                text::views(lines@) == want.take(i as int),
        {
            lines.push(l[i].summary.clone());
            assert(want.take(i + 1) =~= want.take(i as int).push(l@[i as int].summary@));
        }
        assert(want.take(want.len() as int) =~= want);
        t.append(&text::joined(&lines, "\n"));
    }
    t
}

/// A fact, with its name in front.
pub open spec fn fact(name: Seq<char>, value: Seq<char>) -> Seq<Seq<char>> {
    seq![name + value]
}

/// The facts about a file.
pub open spec fn key_facts(
    f: FileFacts,
    mime: Seq<char>,
    kind: Seq<char>,
    s: StructuralFingerprint,
    chunks: nat,
) -> Seq<Seq<char>> {
    fact("File type: "@, kind) + fact("MIME type: "@, mime) + fact(
        "Path depth: "@,
        text::decimal(f.depth as nat),
    ) + seq!["Indexed with local deterministic 4-layer summarization"@] + (if s.line_count > 0 {
        fact("Line count: "@, text::decimal(s.line_count as nat))
    } else {
        Seq::empty()
    }) + (if s.symbol_count > 0 {
        fact("Symbol count: "@, text::decimal(s.symbol_count as nat))
    } else {
        Seq::empty()
    }) + fact("Chunk fingerprints: "@, text::decimal(chunks)) + fact(
        "Approx cyclomatic complexity: "@,
        text::decimal(s.cyclomatic_complexity as nat),
    ) + (if s.imports@.len() > 0 {
        fact("Imports: "@, text::join(text::views(s.imports@), ", "@))
    } else {
        Seq::empty()
    })
}

fn add_fact(facts: &mut Vec<String>, name: &str, value: &str)
    ensures
        text::views(final(facts)@) == text::views(old(facts)@) + fact(name@, value@),
{
    let mut t = name.to_owned();
    t.append(value);
    facts.push(t);
    assert(text::views(facts@) =~= text::views(old(facts)@) + fact(name@, value@));
}

/// The facts about a file.
pub fn build_key_facts(
    f: &FileFacts,
    mime: &str,
    kind: &str,
    s: &StructuralFingerprint,
    chunks: usize,
) -> (r: Vec<String>)
    ensures
        text::views(r@) == key_facts(*f, mime@, kind@, *s, chunks as nat),
{
    let mut facts: Vec<String> = Vec::new();
    assert(text::views(facts@) =~= Seq::empty());
    add_fact(&mut facts, "File type: ", kind);
    add_fact(&mut facts, "MIME type: ", mime);
    add_fact(&mut facts, "Path depth: ", &text::number(f.depth as u64));
    let ghost before = text::views(facts@);
    facts.push("Indexed with local deterministic 4-layer summarization".to_owned());
    assert(text::views(facts@) =~= before + seq![
        "Indexed with local deterministic 4-layer summarization"@,
    ]);
    if s.line_count > 0 {
        add_fact(&mut facts, "Line count: ", &text::number(s.line_count as u64));
    } else {
        assert(text::views(facts@) =~= text::views(facts@) + Seq::<Seq<char>>::empty());
    }
    if s.symbol_count > 0 {
        add_fact(&mut facts, "Symbol count: ", &text::number(s.symbol_count as u64));
    } else {
        assert(text::views(facts@) =~= text::views(facts@) + Seq::<Seq<char>>::empty());
    }
    add_fact(&mut facts, "Chunk fingerprints: ", &text::number(chunks as u64));
    add_fact(
        &mut facts,
        "Approx cyclomatic complexity: ",
        &text::number(s.cyclomatic_complexity as u64),
    );
    if s.imports.len() > 0 {
        add_fact(&mut facts, "Imports: ", &text::joined(&s.imports, ", "));
    } else {
        assert(text::views(facts@) =~= text::views(facts@) + Seq::<Seq<char>>::empty());
    }
    assert(text::views(facts@) =~= key_facts(*f, mime@, kind@, *s, chunks as nat));
    facts
}

/// The line is about something left to do.
pub open spec fn is_todo(line: Seq<char>) -> bool {
    text::occurs(line, "TODO"@) || text::occurs(line, "FIXME"@) || text::occurs(line, "HACK"@)
}

/// The first `n` lines that are about something left to do.
pub open spec fn todos_in(lines: Seq<Seq<char>>, n: nat) -> Seq<Seq<char>>
    decreases n,
{
    if n == 0 {
        Seq::empty()
    } else {
        let before = todos_in(lines, (n - 1) as nat);
        if is_todo(text::trim(lines[n - 1])) {
            before.push(text::trim(lines[n - 1]))
        } else {
            before
        }
    }
}

/// The lines of a text that are about something left to do.
pub fn extract_todos(content: &str) -> (r: Vec<String>)
    ensures
        text::views(r@) == todos_in(text::lines(content@), text::lines(content@).len()),
{
    broadcast use text::views_push;

    let lines = text::split_lines(content);
    let ghost all = text::views(lines@);
    let mut out: Vec<String> = Vec::new();
    assert(text::views(out@) =~= Seq::empty());
    assert(all.len() == lines@.len());
    for i in 0..lines.len()
        invariant
            all == text::views(lines@),
            text::views(out@) == todos_in(all, i as nat),
    {
        assert(all[i as int] == lines@[i as int]@);
        let t = text::trimmed(&lines[i]);
        if text::contains(&t, "TODO") || text::contains(&t, "FIXME") || text::contains(&t, "HACK") {
            out.push(t);
        }
    }
    out
}

/// A character of a word of a tag.
pub open spec fn in_tag(c: char) -> bool {
    outside::alphanumeric(c) || c == '_' || c == '-'
}

/// A text from the first character of a word on.
pub open spec fn from_word(s: Seq<char>) -> Seq<char>
    decreases s.len(),
{
    if s.len() == 0 || in_tag(s[0]) {
        s
    } else {
        from_word(s.skip(1))
    }
}

/// How long the word is that a text begins with.
pub open spec fn tag_len(s: Seq<char>) -> nat
    decreases s.len(),
{
    if s.len() == 0 || !in_tag(s[0]) {
        0
    } else {
        1 + tag_len(s.skip(1))
    }
}

/// The tag for an import: its first word in small letters, or all of it where
/// it has none.
pub open spec fn import_tag(import: Seq<char>) -> Seq<char> {
    let s = from_word(import);
    text::lower(
        if s.len() == 0 {
            import
        } else {
            s.take(tag_len(s) as int)
        },
    )
}

fn make_import_tag(import: &str) -> (r: String)
    ensures
        r@ == import_tag(import@),
{
    let v = text::to_chars(import);
    let n: usize = v.len();
    let mut i: usize = 0;
    assert(v@.skip(0) =~= v@);
    while i < n && !(outside::is_alphanumeric(v[i]) || v[i] == '_' || v[i] == '-')
        invariant
            i <= n,
            n == v@.len(),
            from_word(v@) == from_word(v@.skip(i as int)),
        decreases n - i,
    {
        assert(v@.skip(i as int).skip(1) =~= v@.skip(i + 1));
        i = i + 1;
    }
    let ghost s = from_word(v@);
    if i == n {
        assert(v@.skip(i as int) =~= Seq::empty());
        return text::to_lower(import);
    }
    assert(s == v@.skip(i as int));
    let mut j: usize = i;
    while j < n && (outside::is_alphanumeric(v[j]) || v[j] == '_' || v[j] == '-')
        invariant
            i <= j <= n,
            n == v@.len(),
            s == v@.skip(i as int),
            tag_len(s) == j - i + tag_len(v@.skip(j as int)),
        decreases n - j,
    {
        assert(v@.skip(j as int).skip(1) =~= v@.skip(j + 1));
        j = j + 1;
    }
    assert(tag_len(v@.skip(j as int)) == 0);
    let w = text::from_range(&v, i, j);
    assert(w@ =~= s.take(tag_len(s) as int));
    text::to_lower(&w)
}

/// The tags for the first `n` imports.
pub open spec fn import_tags(imports: Seq<Seq<char>>, n: nat) -> Seq<Seq<char>>
    decreases n,
{
    if n == 0 {
        Seq::empty()
    } else {
        import_tags(imports, (n - 1) as nat).push(import_tag(imports[n - 1]))
    }
}

/// The tags of a file, as they are found.
pub open spec fn tags_found(
    f: FileFacts,
    mime: Seq<char>,
    kind: Seq<char>,
    s: StructuralFingerprint,
) -> Seq<Seq<char>> {
    seq!["local-indexed"@] + (match text_view(f.extension) {
        Some(e) => seq![text::lower(e)],
        None => Seq::empty(),
    }) + (if text::begins(mime, "text/"@) {
        seq!["text"@]
    } else {
        Seq::empty()
    }) + (if text::occurs(kind, "source"@) {
        seq!["code"@]
    } else {
        Seq::empty()
    }) + (if s.cyclomatic_complexity >= 8 {
        seq!["complex"@]
    } else {
        Seq::empty()
    }) + import_tags(
        text::views(s.imports@),
        if s.imports@.len() < 6 {
            s.imports@.len()
        } else {
            6
        },
    )
}

fn add_tag(tags: &mut Vec<String>, wanted: bool, tag: &str)
    ensures
        text::views(final(tags)@) == text::views(old(tags)@) + (if wanted {
            seq![tag@]
        } else {
            Seq::empty()
        }),
{
    if wanted {
        tags.push(tag.to_owned());
    }
    assert(text::views(tags@) =~= text::views(old(tags)@) + (if wanted {
        seq![tag@]
    } else {
        Seq::empty()
    }));
}

/// The tags of a file, each once and in order.
pub fn generate_tags(
    f: &FileFacts,
    mime: &str,
    kind: &str,
    s: &StructuralFingerprint,
) -> (r: Vec<String>)
    ensures
        order::is_sorted_set(text::views(r@), tags_found(*f, mime@, kind@, *s)),
{
    broadcast use text::views_push;

    let mut tags: Vec<String> = Vec::new();
    assert(text::views(tags@) =~= Seq::empty());
    add_tag(&mut tags, true, "local-indexed");
    assert(text::views(tags@) =~= seq!["local-indexed"@]);
    match &f.extension {
        Some(e) => {
            add_tag(&mut tags, true, &text::to_lower(e));
        },
        None => {
            assert(text::views(tags@) =~= text::views(tags@) + Seq::<Seq<char>>::empty());
        },
    }
    add_tag(&mut tags, text::starts_with(mime, "text/"), "text");
    add_tag(&mut tags, text::contains(kind, "source"), "code");
    add_tag(&mut tags, s.cyclomatic_complexity >= 8, "complex");
    let n: usize = if s.imports.len() < 6 {
        s.imports.len()
    } else {
        6
    };
    let ghost start = text::views(tags@);
    let ghost imports = text::views(s.imports@);
    assert(start + import_tags(imports, 0) =~= start);
    for i in 0..n
        invariant
            n <= s.imports@.len(),
            imports == text::views(s.imports@),
            text::views(tags@) == start + import_tags(imports, i as nat),
    {
        assert(imports[i as int] == s.imports@[i as int]@);
        let t = make_import_tag(&s.imports[i]);
        let ghost before = tags@;
        tags.push(t);
        assert(text::views(tags@) == text::views(before).push(t@));
        assert(import_tags(imports, (i + 1) as nat) == import_tags(imports, i as nat).push(t@));
        assert(text::views(tags@) =~= start + import_tags(imports, (i + 1) as nat));
    }
    assert(text::views(tags@) =~= tags_found(*f, mime@, kind@, *s));
    order::sorted_set(&tags)
}

} // verus!
