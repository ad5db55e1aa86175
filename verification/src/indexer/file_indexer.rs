//! Indexing files: which ones, when again, and what is kept of each.

use crate::indexer::notes;
use crate::indexer::notes::FileFacts;
use crate::indexer::structure;
use crate::indexer::structure::{ChunkFingerprint, StructuralFingerprint, CHUNK_LINES};
use crate::json::{Json, JsonV, Number};
use crate::llm::types::text_view;
use crate::order;
use crate::outside;
use crate::strmap::StrMap;
use crate::text;
use vstd::prelude::*;

verus! {

/// The largest file, in bytes, whose content is looked at.
pub const MAX_FILE_BYTES_FOR_CONTENT: usize = 524_288;

/// How many imports of a file are linked to it.
pub const MAX_DEPENDENCIES: usize = 24;

/// How many characters of a file are kept as its excerpt.
pub const EXCERPT_CHARS: usize = 1200;

/// The names of directories and files that are passed over.
pub open spec fn skip_segments() -> Seq<Seq<char>> {
    seq![
        ".git"@,
        ".svn"@,
        ".hg"@,
        "target"@,
        "build"@,
        "dist"@,
        "out"@,
        "obj"@,
        "bin"@,
        "node_modules"@,
        ".npm"@,
        ".yarn"@,
        ".pnpm-store"@,
        "__pycache__"@,
        ".venv"@,
        "venv"@,
        "env"@,
        ".mypy_cache"@,
        ".cargo"@,
        "registry"@,
        "git"@,
        ".gradle"@,
        ".m2"@,
        "windows"@,
        "program files"@,
        "program files (x86)"@,
        "system32"@,
        "$recycle.bin"@,
        "appdata"@,
        "local"@,
        "roaming"@,
        "library"@,
        "caches"@,
        "system"@,
        "volumes"@,
        ".dropbox"@,
        ".dropbox.cache"@,
        ".syncthing"@,
        ".stfolder"@,
        ".idea"@,
        ".vscode"@,
        ".vs"@,
        ".settings"@,
        "docker"@,
        ".docker"@,
        "virtualbox vms"@,
        "tmp"@,
        "temp"@,
        "cache"@,
        "logs"@,
        "log"@,
        ".ds_store"@,
    ]
}

fn skip_list() -> (r: Vec<&'static str>)
    ensures
        text::slice_views(r@) == skip_segments(),
{
    let r: Vec<&'static str> = vec![
        ".git",
        ".svn",
        ".hg",
        "target",
        "build",
        "dist",
        "out",
        "obj",
        "bin",
        "node_modules",
        ".npm",
        ".yarn",
        ".pnpm-store",
        "__pycache__",
        ".venv",
        "venv",
        "env",
        ".mypy_cache",
        ".cargo",
        "registry",
        "git",
        ".gradle",
        ".m2",
        "windows",
        "program files",
        "program files (x86)",
        "system32",
        "$recycle.bin",
        "appdata",
        "local",
        "roaming",
        "library",
        "caches",
        "system",
        "volumes",
        ".dropbox",
        ".dropbox.cache",
        ".syncthing",
        ".stfolder",
        ".idea",
        ".vscode",
        ".vs",
        ".settings",
        "docker",
        ".docker",
        "virtualbox vms",
        "tmp",
        "temp",
        "cache",
        "logs",
        "log",
        ".ds_store",
    ];
    assert(text::slice_views(r@) =~= skip_segments());
    r
}

/// A part of a path is passed over, whatever the case of its letters.
pub open spec fn skipped(segment: Seq<char>) -> bool {
    exists|i: int|
        0 <= i < skip_segments().len() && text::lower(segment) == text::lower(
            #[trigger] skip_segments()[i],
        )
}

/// A path is passed over: one of its parts is.
pub open spec fn skips(segments: Seq<Seq<char>>) -> bool {
    exists|i: int| 0 <= i < segments.len() && skipped(#[trigger] segments[i])
}

/// The hash of the content of a file.
pub open spec fn hash_of(bytes: Seq<u8>) -> Seq<char> {
    text::hex(outside::sha256_of(bytes))
}

/// The hash of the content of a file.
pub fn compute_hash(content: &[u8]) -> (r: String)
    ensures
        r@ == hash_of(content@),
{
    let digest = outside::sha256(content);
    let n: usize = digest.len();
    assert(digest@.take(n as int) =~= digest@);
    text::to_hex(&digest, n)
}

// ---------------------------------------------------------------------------
// What is kept of a file
// ---------------------------------------------------------------------------

/// The text of a file, if it is text and not too large.
pub open spec fn content_of(bytes: Seq<u8>) -> Option<Seq<char>> {
    if bytes.len() <= MAX_FILE_BYTES_FOR_CONTENT && vstd::utf8::valid_utf8(bytes) {
        Some(vstd::utf8::decode_utf8(bytes))
    } else {
        None
    }
}

/// A chunk as it is kept.
#[derive(Debug)]
pub struct ChunkNode {
    pub label: String,
    pub index: usize,
    pub line_start: usize,
    pub line_end: usize,
    pub summary: String,
    pub content: String,
    /// The text that it is found by.
    pub embed_text: String,
}

/// The model of a chunk as it is kept.
#[verifier::ext_equal]
pub struct ChunkNodeV {
    pub label: Seq<char>,
    pub index: nat,
    pub line_start: nat,
    pub line_end: nat,
    pub summary: Seq<char>,
    pub content: Seq<char>,
    pub embed_text: Seq<char>,
}

impl View for ChunkNode {
    type V = ChunkNodeV;

    open spec fn view(&self) -> ChunkNodeV {
        ChunkNodeV {
            label: self.label@,
            index: self.index as nat,
            line_start: self.line_start as nat,
            line_end: self.line_end as nat,
            summary: self.summary@,
            content: self.content@,
            embed_text: self.embed_text@,
        }
    }
}

/// The models of a list of chunks.
pub open spec fn node_views(l: Seq<ChunkNode>) -> Seq<ChunkNodeV> {
    l.map_values(|c: ChunkNode| c@)
}

/// The label of a chunk: its first line that is not blank, up to sixty
/// characters, or its number where there is none.
pub open spec fn chunk_label(name: Seq<char>, content: Seq<char>, index: nat) -> Seq<char> {
    let start = text::head(structure::first_inked(text::lines(content)), 60);
    if text::blank(start) {
        name + " chunk "@ + text::decimal(index + 1)
    } else {
        start
    }
}

/// A chunk as it is kept.
pub open spec fn chunk_node(
    name: Seq<char>,
    c: structure::ChunkV,
    index: nat,
    line_count: nat,
) -> ChunkNodeV {
    let start = index * CHUNK_LINES;
    ChunkNodeV {
        label: chunk_label(name, c.content, index),
        index,
        line_start: start as nat,
        line_end: if start + CHUNK_LINES < line_count {
            (start + CHUNK_LINES) as nat
        } else {
            line_count
        },
        summary: c.summary,
        content: c.content,
        embed_text: name + " | "@ + c.summary + "\n"@ + c.content,
    }
}

/// The chunks of a file as they are kept.
pub open spec fn chunk_nodes(
    name: Seq<char>,
    chunks: Seq<structure::ChunkV>,
    line_count: nat,
) -> Seq<ChunkNodeV> {
    Seq::new(chunks.len(), |i: int| chunk_node(name, chunks[i], i as nat, line_count))
}

fn make_chunk_node(name: &str, c: &ChunkFingerprint, index: usize, line_count: usize) -> (r:
    ChunkNode)
    requires
        index < structure::MAX_CHUNKS_PER_FILE,
    ensures
        r@ == chunk_node(name@, c@, index as nat, line_count as nat),
{
    let start: usize = index * CHUNK_LINES;
    let line = structure::find_inked(&text::split_lines(&c.content));
    let first = text::take_chars(&line, 60);
    let label = if text::is_blank(&first) {
        let mut l = name.to_owned();
        l.append(" chunk ");
        l.append(&text::number((index + 1) as u64));
        l
    } else {
        first
    };
    let mut embed_text = name.to_owned();
    embed_text.append(" | ");
    embed_text.append(&c.summary);
    embed_text.append("\n");
    embed_text.append(&c.content);
    ChunkNode {
        label,
        index,
        line_start: start,
        line_end: if start + CHUNK_LINES < line_count {
            start + CHUNK_LINES
        } else {
            line_count
        },
        summary: c.summary.clone(),
        content: c.content.clone(),
        embed_text,
    }
}

fn make_chunk_nodes(name: &str, chunks: &Vec<ChunkFingerprint>, line_count: usize) -> (r: Vec<
    ChunkNode,
>)
    requires
        chunks@.len() <= structure::MAX_CHUNKS_PER_FILE,
    ensures
        node_views(r@) == chunk_nodes(
            name@,
            structure::chunk_views(chunks@),
            line_count as nat,
        ),
{
    let ghost all = structure::chunk_views(chunks@);
    let ghost want = chunk_nodes(name@, all, line_count as nat);
    let mut out: Vec<ChunkNode> = Vec::new();
    assert(node_views(out@) =~= want.take(0));
    for i in 0..chunks.len()
        invariant
            chunks@.len() <= structure::MAX_CHUNKS_PER_FILE,
            all == structure::chunk_views(chunks@),
            want == chunk_nodes(name@, all, line_count as nat),
            node_views(out@) == want.take(i as int),
    {
        let c = make_chunk_node(name, &chunks[i], i, line_count);
        assert(all[i as int] == chunks@[i as int]@);
        assert(want[i as int] == c@);
        let ghost before = out@;
        out.push(c);
        assert(node_views(out@) =~= node_views(before).push(c@));
        assert(want.take(i + 1) =~= want.take(i as int).push(c@));
    }
    assert(want.take(want.len() as int) =~= want);
    out
}

/// What is noted of a chunk: the file it is of, and its place there.
pub open spec fn chunk_metadata(c: ChunkNodeV, file_id: Seq<char>, path: Seq<char>) -> JsonV {
    JsonV::Object(
        seq![
            ("parent_file_id"@, JsonV::Text(file_id)),
            ("parent_path"@, JsonV::Text(path)),
            ("chunk_index"@, JsonV::Num(Number::Unsigned(c.index as u64))),
            ("line_start"@, JsonV::Num(Number::Unsigned(c.line_start as u64))),
            ("line_end"@, JsonV::Num(Number::Unsigned(c.line_end as u64))),
            ("content"@, JsonV::Text(c.content)),
        ],
    )
}

/// What is noted of a chunk.
pub fn build_chunk_metadata(c: &ChunkNode, file_id: &str, path: &str) -> (r: Json)
    ensures
        r@ == chunk_metadata(c@, file_id@, path@),
{
    let r = Json::Object(
        vec![
            ("parent_file_id".to_owned(), Json::Text(file_id.to_owned())),
            ("parent_path".to_owned(), Json::Text(path.to_owned())),
            ("chunk_index".to_owned(), Json::Num(Number::Unsigned(c.index as u64))),
            ("line_start".to_owned(), Json::Num(Number::Unsigned(c.line_start as u64))),
            ("line_end".to_owned(), Json::Num(Number::Unsigned(c.line_end as u64))),
            ("content".to_owned(), Json::Text(c.content.clone())),
        ],
    );
    proof {
        reveal_with_fuel(Json::model, 3);
        assert(r@->Object_0 =~= chunk_metadata(c@, file_id@, path@)->Object_0);
    }
    r
}

/// What is kept of a file.
#[derive(Debug)]
pub struct FileEntry {
    pub title: String,
    pub hash: String,
    pub metadata: Json,
    pub summary: String,
    pub key_facts: Vec<String>,
    pub structure: String,
    pub code_signatures: String,
    pub todos: Vec<String>,
    pub tags: Vec<String>,
    /// The text that the file is found by.
    pub summary_text: String,
    /// The start of the text of the file, if it is text.
    pub excerpt: Option<String>,
    /// The texts, one for each chunk, that the file is found by as by a fact.
    pub fact_texts: Vec<String>,
    pub chunks: Vec<ChunkNode>,
    /// What the file takes in, as far as it is linked to it.
    pub dependencies: Vec<String>,
}

/// What is kept of a file, from what its text shows.
pub open spec fn is_entry_of(
    e: FileEntry,
    f: FileFacts,
    bytes: Seq<u8>,
    neural: bool,
    s: StructuralFingerprint,
    l: Seq<ChunkFingerprint>,
) -> bool {
    let content = content_of(bytes);
    let is_text = content is Some;
    let mime = notes::mime_type(notes::ending(f), is_text);
    let kind = notes::file_type(notes::ending(f), is_text);
    let imports = text::views(s.imports@);
    &&& e.title@ == notes::name(f)
    &&& e.hash@ == hash_of(bytes)
    &&& e.metadata@ == notes::file_metadata(f, mime, kind, s, l.len(), neural)
    &&& e.summary@ == notes::metadata_summary(f, mime, kind)
    &&& text::views(e.key_facts@) == notes::key_facts(f, mime, kind, s, l.len())
    &&& e.structure@ == notes::structure_summary(s, is_text)
    &&& e.code_signatures@ == notes::signatures_and_chunks(s, l)
    &&& text::views(e.todos@) == (match content {
        Some(c) => notes::todos_in(text::lines(c), text::lines(c).len()),
        None => Seq::empty(),
    })
    &&& order::is_sorted_set(text::views(e.tags@), notes::tags_found(f, mime, kind, s))
    &&& e.summary_text@ == e.summary@ + "\n"@ + e.structure@
    &&& text_view(e.excerpt) == (match content {
        Some(c) => Some(structure::truncated(c, EXCERPT_CHARS as nat)),
        None => None,
    })
    &&& text::views(e.fact_texts@) == notes::summaries(l)
    &&& node_views(e.chunks@) == chunk_nodes(
        notes::name(f),
        structure::chunk_views(l),
        s.line_count as nat,
    )
    &&& text::views(e.dependencies@) == (if MAX_DEPENDENCIES < imports.len() {
        imports.take(MAX_DEPENDENCIES as int)
    } else {
        imports
    })
}

/// What is kept of a file.
pub open spec fn is_entry(e: FileEntry, f: FileFacts, bytes: Seq<u8>, neural: bool) -> bool {
    exists|s: StructuralFingerprint, l: Seq<ChunkFingerprint>| #[trigger]
        is_entry_of(e, f, bytes, neural, s, l) && (match content_of(bytes) {
            Some(c) => structure::is_structure(c, s) && structure::chunk_views(l)
                == structure::chunks(c),
            None => structure::is_blank_structure(s) && l.len() == 0,
        })
}

proof fn no_more_lines(s: Seq<char>)
    ensures
        text::lines(s).len() <= s.len(),
    decreases s.len(),
{
    text::index_of_bounds(s, '\n');
    let n = text::index_of(s, '\n') as int;
    if s.len() > 0 && n < s.len() {
        no_more_lines(s.skip(n + 1));
    }
}

proof fn no_fewer_bytes(s: Seq<char>)
    ensures
        s.len() <= text::byte_count(s),
    decreases s.len(),
{
    if s.len() > 0 {
        text::byte_count_front(s);
        no_fewer_bytes(s.skip(1));
    }
}

fn copy_summaries(l: &Vec<ChunkFingerprint>) -> (r: Vec<String>)
    ensures
        text::views(r@) == notes::summaries(l@),
{
    broadcast use text::views_push;

    let ghost want = notes::summaries(l@);
    let mut out: Vec<String> = Vec::new();
    assert(text::views(out@) =~= want.take(0));
    for i in 0..l.len()
        invariant
            want == notes::summaries(l@),
            text::views(out@) == want.take(i as int),
    {
        out.push(l[i].summary.clone());
        assert(want.take(i + 1) =~= want.take(i as int).push(l@[i as int].summary@));
    }
    assert(want.take(want.len() as int) =~= want);
    out
}

fn read_content(bytes: Vec<u8>) -> (r: Option<String>)
    ensures
        text_view(r) == content_of(bytes@),
        r matches Some(c) ==> 9 * text::lines(c@).len() < usize::MAX,
{
    if bytes.len() > MAX_FILE_BYTES_FOR_CONTENT {
        return None;
    }
    let ghost all = bytes@;
    match outside::utf8_text(bytes) {
        Some(c) => {
            proof {
                vstd::utf8::decode_utf8_encode_utf8(all);
                no_fewer_bytes(c@);
                no_more_lines(c@);
            }
            Some(c)
        },
        None => None,
    }
}

/// What is kept of a file with the given content.
pub fn make_entry(f: &FileFacts, bytes: Vec<u8>, neural: bool) -> (r: FileEntry)
    ensures
        is_entry(r, *f, bytes@, neural),
{
    let ghost all = bytes@;
    let hash = compute_hash(bytes.as_slice());
    let content = read_content(bytes);
    let is_text = content.is_some();
    let ending = notes::ending_of(f);
    let mime = notes::guess_mime_type(&ending, is_text);
    let kind = notes::guess_file_type(&ending, is_text);
    let (s, l) = match &content {
        Some(c) => (structure::extract_structure(c), structure::chunk_fingerprints(c)),
        None => (structure::no_structure(), Vec::new()),
    };
    assert(structure::chunk_views(l@).len() == l@.len());
    let title = notes::name_of(f);
    let summary = notes::build_metadata_summary(f, &mime, &kind);
    let structure = notes::format_structure_summary(&s, is_text);
    let mut summary_text = summary.clone();
    summary_text.append("\n");
    summary_text.append(&structure);
    let (todos, excerpt) = match &content {
        Some(c) => (notes::extract_todos(c), Some(structure::truncate_text(c, EXCERPT_CHARS))),
        None => (Vec::new(), None),
    };
    assert(content is None ==> text::views(todos@) =~= Seq::empty());
    assert(text::views(s.imports@).len() == s.imports@.len());
    let e = FileEntry {
        hash,
        metadata: notes::build_file_metadata(f, &mime, &kind, &s, l.len(), neural),
        key_facts: notes::build_key_facts(f, &mime, &kind, &s, l.len()),
        code_signatures: notes::format_signatures_and_chunks(&s, &l),
        todos,
        tags: notes::generate_tags(f, &mime, &kind, &s),
        summary_text,
        excerpt,
        fact_texts: copy_summaries(&l),
        chunks: make_chunk_nodes(&title, &l, s.line_count),
        dependencies: structure::first_of(&s.imports, MAX_DEPENDENCIES),
        title,
        summary,
        structure,
    };
    assert(is_entry_of(e, *f, all, neural, s, l@));
    e
}

// ---------------------------------------------------------------------------
// Finding what is kept already
// ---------------------------------------------------------------------------

/// A node that is kept already.
#[derive(Debug)]
pub struct KnownNode {
    pub id: String,
    pub title: String,
    pub metadata: Option<Json>,
}

/// What is noted of a node names the path.
pub open spec fn is_at_path(metadata: Option<Json>, path: Seq<char>) -> bool {
    match metadata {
        Some(m) => m@.text_at("path"@) == Some(path),
        None => false,
    }
}

/// The first of the nodes that stands for a path.
pub open spec fn file_among(nodes: Seq<KnownNode>, path: Seq<char>) -> Option<Seq<char>>
    decreases nodes.len(),
{
    if nodes.len() == 0 {
        None
    } else if is_at_path(nodes[0].metadata, path) {
        Some(nodes[0].id@)
    } else {
        file_among(nodes.skip(1), path)
    }
}

/// The first of the nodes whose title is the name of a dependency, whatever the
/// case of its letters.
pub open spec fn dependency_among(nodes: Seq<KnownNode>, name: Seq<char>) -> Option<Seq<char>>
    decreases nodes.len(),
{
    if nodes.len() == 0 {
        None
    } else if text::lower(nodes[0].title@) == text::lower(name) {
        Some(nodes[0].id@)
    } else {
        dependency_among(nodes.skip(1), name)
    }
}

/// The first of the nodes with the name of a file that stands for its path.
pub fn find_file_node(found: &Vec<KnownNode>, path: &str) -> (r: Option<String>)
    ensures
        text_view(r) == file_among(found@, path@),
{
    assert(found@.skip(0) =~= found@);
    for i in 0..found.len()
        invariant
            file_among(found@, path@) == file_among(found@.skip(i as int), path@),
    {
        if let Some(m) = &found[i].metadata {
            if let Some(p) = m.text_at("path") {
                if text::same(&p, path) {
                    return Some(found[i].id.clone());
                }
            }
        }
        assert(found@.skip(i as int).skip(1) =~= found@.skip(i + 1));
    }
    None
}

/// The first of the nodes whose title is the name of a dependency, whatever the
/// case of its letters.
pub fn find_dependency(found: &Vec<KnownNode>, dependency: &str) -> (r: Option<String>)
    ensures
        text_view(r) == dependency_among(found@, dependency@),
{
    assert(found@.skip(0) =~= found@);
    for i in 0..found.len()
        invariant
            dependency_among(found@, dependency@) == dependency_among(
                found@.skip(i as int),
                dependency@,
            ),
    {
        if text::same_ignoring_case(&found[i].title, dependency) {
            return Some(found[i].id.clone());
        }
        assert(found@.skip(i as int).skip(1) =~= found@.skip(i + 1));
    }
    None
}

// ---------------------------------------------------------------------------
// The indexer
// ---------------------------------------------------------------------------

/// What happened to a file.
#[derive(Debug, PartialEq, Eq, Structural)]
pub enum FileEvent {
    Created,
    Modified,
    Removed,
    Other,
}

/// What follows from what happened to a file.
#[derive(Debug, PartialEq, Eq, Structural)]
pub enum EventStep {
    Nothing,
    /// It is noted that the file waits to be indexed.
    Pending,
    /// The file is indexed again.
    Reindex,
}

/// An indexer of files, with a handle of the memory and, where files are found
/// by vectors of a model, a handle of that.
#[derive(Debug)]
pub struct FileIndexer<M, L> {
    pub memory: M,
    pub llm: Option<L>,
    pub watched_dirs: Vec<String>,
    pub content_hashes: StrMap<String>,
    pub watching: bool,
}

impl<M, L> FileIndexer<M, L> {
    /// The directories that are watched.
    pub open spec fn watched(self) -> Seq<Seq<char>> {
        text::views(self.watched_dirs@)
    }

    /// The hash that a file had when it was last indexed.
    pub open spec fn known_hash(self, path: Seq<char>) -> Option<Seq<char>> {
        if self.content_hashes@.contains_key(path) {
            Some(self.content_hashes@[path]@)
        } else {
            None
        }
    }

    /// The directories are being watched.
    pub open spec fn watches(self) -> bool {
        self.watching
    }

    /// Only what is known of one file differs.
    pub open spec fn only_file(self, other: Self, path: Seq<char>) -> bool {
        &&& self.memory == other.memory
        &&& self.llm == other.llm
        &&& self.watched() == other.watched()
        &&& self.watches() == other.watches()
        &&& forall|p: Seq<char>| p != path ==> #[trigger] self.known_hash(p) == other.known_hash(p)
    }

    /// Only the directories differ, or whether they are watched.
    pub open spec fn only_watching(self, other: Self) -> bool {
        &&& self.memory == other.memory
        &&& self.llm == other.llm
        &&& forall|p: Seq<char>| #[trigger] self.known_hash(p) == other.known_hash(p)
    }

    /// A file with some content comes to be indexed: its hash is known from then
    /// on, and what is kept of it is given unless the hash was known before.
    pub open spec fn indexes(
        self,
        f: FileFacts,
        bytes: Seq<u8>,
        after: Self,
        r: Option<FileEntry>,
    ) -> bool {
        &&& after.only_file(self, f.path@)
        &&& after.known_hash(f.path@) == Some(hash_of(bytes))
        &&& match r {
            Some(e) => is_indexed(self.known_hash(f.path@), bytes) && is_entry(
                e,
                f,
                bytes,
                self.llm is Some,
            ),
            None => !is_indexed(self.known_hash(f.path@), bytes),
        }
    }

    /// An indexer that has indexed nothing yet.
    pub fn new(memory: M) -> (r: Self)
        ensures
            r.memory == memory,
            r.llm is None,
            r.watched() == Seq::<Seq<char>>::empty(),
            !r.watches(),
            forall|p: Seq<char>| #[trigger] r.known_hash(p) is None,
    {
        let r = FileIndexer {
            memory,
            llm: None,
            watched_dirs: Vec::new(),
            content_hashes: StrMap::new(),
            watching: false,
        };
        assert(r.watched() =~= Seq::<Seq<char>>::empty());
        r
    }

    /// An indexer that has indexed nothing yet, and finds files by vectors of a
    /// model.
    pub fn new_with_llm(memory: M, llm: L) -> (r: Self)
        ensures
            r.memory == memory,
            r.llm == Some(llm),
            r.watched() == Seq::<Seq<char>>::empty(),
            !r.watches(),
            forall|p: Seq<char>| #[trigger] r.known_hash(p) is None,
    {
        let r = FileIndexer {
            memory,
            llm: Some(llm),
            watched_dirs: Vec::new(),
            content_hashes: StrMap::new(),
            watching: false,
        };
        assert(r.watched() =~= Seq::<Seq<char>>::empty());
        r
    }

    /// Whether a path is passed over, by its parts.
    pub fn should_skip_path(segments: &Vec<String>) -> (r: bool)
        ensures
            r == skips(text::views(segments@)),
    {
        let list = skip_list();
        let ghost all = text::views(segments@);
        for i in 0..segments.len()
            invariant
                text::slice_views(list@) == skip_segments(),
                all == text::views(segments@),
                forall|k: int| 0 <= k < i ==> !skipped(#[trigger] all[k]),
        {
            assert(all[i as int] == segments@[i as int]@);
            for j in 0..list.len()
                invariant
                    text::slice_views(list@) == skip_segments(),
                    i < segments@.len(),
                    all == text::views(segments@),
                    all[i as int] == segments@[i as int]@,
                    forall|k: int|
                        0 <= k < j ==> text::lower(all[i as int]) != text::lower(
                            #[trigger] skip_segments()[k],
                        ),
            {
                assert(text::slice_views(list@)[j as int] == list@[j as int]@);
                if text::same_ignoring_case(&segments[i], list[j]) {
                    assert(text::lower(all[i as int]) == text::lower(skip_segments()[j as int]));
                    assert(skipped(all[i as int]));
                    return true;
                }
            }
            assert(skip_segments().len() == list@.len());
        }
        assert(all.len() == segments@.len());
        false
    }

    /// Whether a file is indexed at all: it is one, and its path is not passed
    /// over unless that is allowed.
    pub fn wants(is_file: bool, allow_skipped_path: bool, segments: &Vec<String>) -> (r: bool)
        ensures
            r == (is_file && (allow_skipped_path || !skips(text::views(segments@)))),
    {
        is_file && (allow_skipped_path || !Self::should_skip_path(segments))
    }

    /// The directories to watch, and to index first: those that were named, or
    /// else the current one. None where they are watched already.
    pub fn start_watching(&mut self, current_dir: Option<String>) -> (r: Option<Vec<String>>)
        ensures
            final(self).only_watching(*old(self)),
            final(self).watches() == old(self).watches(),
            r is None <==> old(self).watches(),
            final(self).watched() == (if !old(self).watches() && old(self).watched().len() == 0
                && current_dir is Some {
                seq![current_dir->0@]
            } else {
                old(self).watched()
            }),
            r matches Some(dirs) ==> text::views(dirs@) == final(self).watched(),
    {
        if self.watching {
            return None;
        }
        assert(self.watched().len() == self.watched_dirs@.len());
        if self.watched_dirs.len() == 0 {
            if let Some(d) = current_dir {
                self.watched_dirs.push(d);
                assert(self.watched() =~= seq![d@]);
            }
        }
        Some(structure::first_of(&self.watched_dirs, self.watched_dirs.len()))
    }

    /// Notes that the directories are watched.
    pub fn watching_started(&mut self)
        ensures
            final(self).only_watching(*old(self)),
            final(self).watches(),
            final(self).watched() == old(self).watched(),
    {
        self.watching = true;
    }

    /// Adds a directory to those that are watched. Answers whether it is to be
    /// watched from now on; nothing where it was there already.
    pub fn watch_directory(&mut self, dir: &str) -> (r: Option<bool>)
        ensures
            final(self).only_watching(*old(self)),
            final(self).watches() == old(self).watches(),
            if old(self).watched().contains(dir@) {
                r is None && final(self).watched() == old(self).watched()
            } else {
                r == Some(old(self).watches()) && final(self).watched()
                    == old(self).watched().push(dir@)
            },
    {
        if text::holds(&self.watched_dirs, dir) {
            return None;
        }
        let ghost before = self.watched_dirs@;
        self.watched_dirs.push(dir.to_owned());
        assert(text::views(self.watched_dirs@) =~= text::views(before).push(dir@));
        Some(self.watching)
    }

    /// What follows from what happened to a path.
    pub fn on_event(&mut self, event: FileEvent, path: &str, is_file: bool) -> (r: EventStep)
        ensures
            final(self).only_file(*old(self), path@),
            if !is_file || event == FileEvent::Other {
                r == EventStep::Nothing && final(self).known_hash(path@) == old(self).known_hash(
                    path@,
                )
            } else if event == FileEvent::Removed {
                r == EventStep::Pending && final(self).known_hash(path@) is None
            } else {
                r == EventStep::Reindex && final(self).known_hash(path@) == old(self).known_hash(
                    path@,
                )
            },
    {
        if !is_file {
            return EventStep::Nothing;
        }
        match event {
            FileEvent::Removed => {
                let _ = self.content_hashes.remove(path);
                EventStep::Pending
            },
            FileEvent::Created => EventStep::Reindex,
            FileEvent::Modified => EventStep::Reindex,
            FileEvent::Other => EventStep::Nothing,
        }
    }

    /// Indexes a file: what is kept of it; nothing where it has not changed since
    /// it was last indexed.
    pub fn index_file(&mut self, f: &FileFacts, bytes: Vec<u8>) -> (r: Option<FileEntry>)
        ensures
            old(self).indexes(*f, bytes@, *final(self), r),
    {
        let hash = compute_hash(bytes.as_slice());
        if let Some(k) = self.content_hashes.get(&f.path) {
            if text::same(k, &hash) {
                return None;
            }
        }
        self.content_hashes.insert(f.path.clone(), hash);
        let neural = self.llm.is_some();
        Some(make_entry(f, bytes, neural))
    }
}

/// Whether a file with some content is indexed, by the hash it had before.
pub open spec fn is_indexed(known: Option<Seq<char>>, bytes: Seq<u8>) -> bool {
    known != Some(hash_of(bytes))
}

/// A file is not indexed again with the same content, unless it was forgotten in
/// between.
pub proof fn unchanged_files_are_passed_over<M, L>(
    before: FileIndexer<M, L>,
    f: FileFacts,
    bytes: Seq<u8>,
    between: FileIndexer<M, L>,
    first: Option<FileEntry>,
    later: FileIndexer<M, L>,
    g: FileFacts,
    after: FileIndexer<M, L>,
    second: Option<FileEntry>,
)
    requires
        before.indexes(f, bytes, between, first),
        g.path@ == f.path@,
        later.indexes(g, bytes, after, second),
    ensures
        later.known_hash(f.path@) == between.known_hash(f.path@) ==> second is None,
        later.known_hash(f.path@) is None ==> second is Some,
{
}

// ---------------------------------------------------------------------------
// Directories
// ---------------------------------------------------------------------------

/// A path with its parts.
#[derive(Debug)]
pub struct Place {
    pub path: String,
    pub segments: Vec<String>,
}

/// What an entry of a directory is.
#[derive(Debug, PartialEq, Eq, Structural)]
pub enum EntryKind {
    Directory,
    File,
    Other,
}

/// A walk through a directory and all below it.
#[derive(Debug)]
pub struct DirWalk {
    pub pending: Vec<Place>,
    pub indexed: usize,
}

/// The place is passed over.
pub open spec fn place_skipped(p: Place) -> bool {
    skips(text::views(p.segments@))
}

/// The places that are left once those at the end that are passed over are
/// gone.
pub open spec fn settled(pending: Seq<Place>) -> Seq<Place>
    decreases pending.len(),
{
    if pending.len() > 0 && place_skipped(pending.last()) {
        settled(pending.drop_last())
    } else {
        pending
    }
}

impl DirWalk {
    /// A walk that begins at a directory, if it is there.
    pub fn index_directory(root: Place, is_there: bool) -> (r: Option<DirWalk>)
        ensures
            match r {
                Some(w) => is_there && w.pending@ == seq![root] && w.indexed == 0,
                None => !is_there,
            },
    {
        if !is_there {
            return None;
        }
        let mut pending: Vec<Place> = Vec::new();
        pending.push(root);
        assert(pending@ =~= seq![root]);
        Some(DirWalk { pending, indexed: 0 })
    }

    /// The directory to read next: the last one that was found and is not passed
    /// over.
    pub fn next_directory(&mut self) -> (r: Option<Place>)
        ensures
            final(self).indexed == old(self).indexed,
            ({
                let left = settled(old(self).pending@);
                match r {
                    Some(p) => left.len() > 0 && p == left.last() && final(self).pending@
                        == left.drop_last(),
                    None => left.len() == 0 && final(self).pending@.len() == 0,
                }
            }),
    {
        let ghost goal = settled(self.pending@);
        loop
            invariant
                goal == settled(self.pending@),
                self.indexed == old(self).indexed,
                goal == settled(old(self).pending@),
            decreases self.pending@.len(),
        {
            let ghost before = self.pending@;
            match self.pending.pop() {
                None => {
                    return None;
                },
                Some(p) => {
                    assert(self.pending@ =~= before.drop_last());
                    if !FileIndexer::<(), ()>::should_skip_path(&p.segments) {
                        return Some(p);
                    }
                },
            }
        }
    }

    /// Takes in an entry of a directory: a directory is read later unless it is
    /// passed over. Answers whether the entry is a file to be indexed.
    pub fn take_entry(&mut self, place: Place, kind: EntryKind) -> (r: bool)
        ensures
            r == (kind == EntryKind::File),
            final(self).indexed == old(self).indexed,
            final(self).pending@ == (if kind == EntryKind::Directory && !place_skipped(place) {
                old(self).pending@.push(place)
            } else {
                old(self).pending@
            }),
    {
        match kind {
            EntryKind::Directory => {
                if !FileIndexer::<(), ()>::should_skip_path(&place.segments) {
                    self.pending.push(place);
                }
                false
            },
            EntryKind::File => true,
            EntryKind::Other => false,
        }
    }

    /// Counts a file that was indexed.
    pub fn count_indexed(&mut self)
        requires
            old(self).indexed < usize::MAX,
        ensures
            final(self).indexed == old(self).indexed + 1,
            final(self).pending == old(self).pending,
    {
        self.indexed = self.indexed + 1;
    }
}

/// A walk never comes to a directory that is passed over.
pub proof fn no_walk_into_skipped_directories(pending: Seq<Place>)
    ensures
        settled(pending).len() > 0 ==> !place_skipped(settled(pending).last()),
    decreases pending.len(),
{
    if pending.len() > 0 && place_skipped(pending.last()) {
        no_walk_into_skipped_directories(pending.drop_last());
    }
}

} // verus!
