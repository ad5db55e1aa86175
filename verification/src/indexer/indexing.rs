//! How a file is taken into memory, step by step: what is asked of the memory,
//! and what follows from its answers.

use crate::indexer::file_indexer::{
    build_chunk_metadata, chunk_metadata, dependency_among, file_among, find_dependency,
    find_file_node, hash_of, is_entry, is_indexed, FileEntry, FileIndexer, KnownNode,
};
use crate::indexer::notes::FileFacts;
use crate::indexer::structure::first_of;
use crate::json::{Json, JsonV};
use crate::links::{Link, CONTAINS, CONTAINS_STRENGTH, IMPORTS, IMPORTS_STRENGTH};
use crate::text;
use vstd::prelude::*;

verus! {

/// What a vector of a node is made from.
#[derive(Debug, Clone, Copy, PartialEq, Eq, Structural)]
pub enum VectorKind {
    Summary,
    Content,
    Fact,
}

/// What is awaited while a file is taken in; the numbers are those of a chunk, of
/// a fact or of a dependency.
#[derive(Debug, Clone, Copy, PartialEq, Eq, Structural)]
pub enum IndexStage {
    Finding,
    Updating,
    Creating,
    Details,
    Clearing,
    Summary,
    Excerpt,
    Fact(usize),
    ClearingChunks,
    Chunk(usize),
    ChunkLink(usize),
    ChunkDetails(usize),
    ChunkVector(usize),
    Dependency(usize),
    DependencyNode(usize),
    Counting(usize),
    Linking(usize),
    Noting,
    Ended,
}

/// What is kept with the node of a file.
#[derive(Debug)]
pub struct FileDetails {
    pub summary: String,
    pub key_facts: Vec<String>,
    pub structure: String,
    pub code_signatures: String,
    pub todos: Vec<String>,
    pub tags: Vec<String>,
    pub content_hash: String,
}

/// What is kept with the node of a file is what its entry holds.
pub open spec fn are_details(d: FileDetails, e: FileEntry) -> bool {
    &&& d.summary@ == e.summary@
    &&& text::views(d.key_facts@) == text::views(e.key_facts@)
    &&& d.structure@ == e.structure@
    &&& d.code_signatures@ == e.code_signatures@
    &&& text::views(d.todos@) == text::views(e.todos@)
    &&& text::views(d.tags@) == text::views(e.tags@)
    &&& d.content_hash@ == e.hash@
}

fn copy_texts(l: &Vec<String>) -> (r: Vec<String>)
    ensures
        text::views(r@) == text::views(l@),
{
    assert(text::views(l@).len() == l@.len());
    first_of(l, l.len())
}

fn details_of(e: &FileEntry) -> (r: FileDetails)
    ensures
        are_details(r, *e),
{
    FileDetails {
        summary: e.summary.clone(),
        key_facts: copy_texts(&e.key_facts),
        structure: e.structure.clone(),
        code_signatures: e.code_signatures.clone(),
        todos: copy_texts(&e.todos),
        tags: copy_texts(&e.tags),
        content_hash: e.hash.clone(),
    }
}

/// What is to be done next.
#[derive(Debug)]
#[allow(inconsistent_fields)]
pub enum IndexAction {
    /// The nodes of files with a title are looked up.
    FindFiles { title: String },
    UpdateFile { id: String, title: String, metadata: Json },
    CreateFile { title: String, metadata: Json },
    /// What was made out of the file is kept with its node.
    PutDetails { id: String, details: FileDetails },
    /// The vectors of a node are dropped.
    ClearVectors { id: String },
    /// A vector is made of a text and kept with the node.
    PutVector { id: String, kind: VectorKind, text: String },
    /// The chunks of a file are dropped.
    ClearChunks { id: String },
    CreateChunk { label: String, metadata: Json },
    LinkChunk { file: String, chunk: String, link: Link },
    PutChunkDetails { id: String, summary: String, fact: String },
    /// The nodes of dependencies with a title are looked up.
    FindDependencies { name: String },
    CreateDependency { name: String, metadata: Json },
    /// The imports that lead from a file to a dependency are counted.
    CountImports { file: String, dependency: String },
    LinkImport { file: String, dependency: String, link: Link, metadata: Json },
    /// It is noted that the file is indexed.
    NoteIndexed { path: String, hash: String, size: u64 },
    Finish,
    Fail { problem: String },
}

/// What came of it.
#[derive(Debug)]
#[allow(inconsistent_fields)]
pub enum IndexEvent {
    Found { nodes: Vec<KnownNode> },
    Made { id: String },
    Counted { count: i64 },
    Done,
    Failed { problem: String },
}

/// A file that is being taken in.
#[derive(Debug)]
pub struct IndexRun {
    pub entry: FileEntry,
    pub path: String,
    pub size: u64,
    pub stage: IndexStage,
    /// The node of the file, once it is known.
    pub node: String,
    /// The node of the chunk or of the dependency at hand.
    pub part: String,
}

/// What can come while something is awaited.
pub open spec fn may_follow(stage: IndexStage, event: IndexEvent) -> bool {
    match stage {
        IndexStage::Ended => false,
        IndexStage::Finding | IndexStage::Dependency(_) => event is Found || event is Failed,
        IndexStage::Creating | IndexStage::Chunk(_) | IndexStage::DependencyNode(_) => event is Made
            || event is Failed,
        IndexStage::Counting(_) => event is Counted || event is Failed,
        _ => event is Done || event is Failed,
    }
}

/// It is a chunk that is being kept: what fails there is passed over.
pub open spec fn is_of_chunk(stage: IndexStage) -> bool {
    stage is Chunk || stage is ChunkLink || stage is ChunkDetails || stage is ChunkVector
}

/// What is noted of a dependency.
pub open spec fn dependency_metadata() -> JsonV {
    JsonV::Object(
        seq![("kind"@, JsonV::Text("import"@)), ("source"@, JsonV::Text("local_indexer"@))],
    )
}

/// What is noted of the link to a dependency.
pub open spec fn import_metadata() -> JsonV {
    JsonV::Object(seq![("source"@, JsonV::Text("local_indexer"@))])
}

fn make_dependency_metadata() -> (r: Json)
    ensures
        r@ == dependency_metadata(),
{
    let r = Json::Object(
        vec![
            ("kind".to_owned(), Json::Text("import".to_owned())),
            ("source".to_owned(), Json::Text("local_indexer".to_owned())),
        ],
    );
    proof {
        reveal_with_fuel(Json::model, 3);
        assert(r@->Object_0 =~= dependency_metadata()->Object_0);
    }
    r
}

fn make_import_metadata() -> (r: Json)
    ensures
        r@ == import_metadata(),
{
    let r = Json::Object(vec![("source".to_owned(), Json::Text("local_indexer".to_owned()))]);
    proof {
        reveal_with_fuel(Json::model, 3);
        assert(r@->Object_0 =~= import_metadata()->Object_0);
    }
    r
}

impl IndexRun {
    /// The chunk, the fact or the dependency at hand is one of the entry.
    pub open spec fn wf(self) -> bool {
        match self.stage {
            IndexStage::Fact(i) => i < self.entry.fact_texts.len(),
            IndexStage::Chunk(i)
            | IndexStage::ChunkLink(i)
            | IndexStage::ChunkDetails(i)
            | IndexStage::ChunkVector(i) => i < self.entry.chunks.len(),
            IndexStage::Dependency(i)
            | IndexStage::DependencyNode(i)
            | IndexStage::Counting(i)
            | IndexStage::Linking(i) => i < self.entry.dependencies.len(),
            IndexStage::Excerpt => self.entry.excerpt is Some,
            _ => true,
        }
    }

    /// It is the same file with the same entry.
    pub open spec fn same_file(self, other: IndexRun) -> bool {
        &&& self.entry == other.entry
        &&& self.path == other.path
        &&& self.size == other.size
    }

    /// What is awaited from the `i`-th dependency on.
    pub open spec fn from_dependency(self, i: int) -> IndexStage {
        if i < self.entry.dependencies.len() {
            IndexStage::Dependency(i as usize)
        } else {
            IndexStage::Noting
        }
    }

    /// What is awaited from the `i`-th chunk on.
    pub open spec fn from_chunk(self, i: int) -> IndexStage {
        if i < self.entry.chunks.len() {
            IndexStage::Chunk(i as usize)
        } else {
            self.from_dependency(0)
        }
    }

    /// What is awaited from the `i`-th fact on.
    pub open spec fn from_fact(self, i: int) -> IndexStage {
        if i < self.entry.fact_texts.len() {
            IndexStage::Fact(i as usize)
        } else {
            IndexStage::ClearingChunks
        }
    }

    /// What is awaited after an event.
    pub open spec fn next_stage(self, event: IndexEvent) -> IndexStage {
        if event is Failed && !is_of_chunk(self.stage) {
            IndexStage::Ended
        } else {
            match self.stage {
                IndexStage::Finding => if file_among(event->nodes@, self.path@) is Some {
                    IndexStage::Updating
                } else {
                    IndexStage::Creating
                },
                IndexStage::Updating | IndexStage::Creating => IndexStage::Details,
                IndexStage::Details => IndexStage::Clearing,
                IndexStage::Clearing => IndexStage::Summary,
                IndexStage::Summary => if self.entry.excerpt is Some {
                    IndexStage::Excerpt
                } else {
                    IndexStage::Noting
                },
                IndexStage::Excerpt => self.from_fact(0),
                IndexStage::Fact(i) => self.from_fact(i + 1),
                IndexStage::ClearingChunks => self.from_chunk(0),
                IndexStage::Chunk(i) => if event is Failed {
                    self.from_chunk(i + 1)
                } else {
                    IndexStage::ChunkLink(i)
                },
                IndexStage::ChunkLink(i) => IndexStage::ChunkDetails(i),
                IndexStage::ChunkDetails(i) => IndexStage::ChunkVector(i),
                IndexStage::ChunkVector(i) => self.from_chunk(i + 1),
                IndexStage::Dependency(i) => if dependency_among(
                    event->nodes@,
                    self.entry.dependencies@[i as int]@,
                ) is Some {
                    IndexStage::Counting(i)
                } else {
                    IndexStage::DependencyNode(i)
                },
                IndexStage::DependencyNode(i) => IndexStage::Counting(i),
                IndexStage::Counting(i) => if event->count > 0 {
                    self.from_dependency(i + 1)
                } else {
                    IndexStage::Linking(i)
                },
                IndexStage::Linking(i) => self.from_dependency(i + 1),
                IndexStage::Noting | IndexStage::Ended => IndexStage::Ended,
            }
        }
    }

    /// The node of the file after an event.
    pub open spec fn next_node(self, event: IndexEvent) -> Seq<char> {
        match (self.stage, event) {
            (IndexStage::Finding, IndexEvent::Found { nodes }) => match file_among(
                nodes@,
                self.path@,
            ) {
                Some(id) => id,
                None => self.node@,
            },
            (IndexStage::Creating, IndexEvent::Made { id }) => id@,
            _ => self.node@,
        }
    }

    /// The node of the chunk or of the dependency at hand after an event.
    pub open spec fn next_part(self, event: IndexEvent) -> Seq<char> {
        match (self.stage, event) {
            (IndexStage::Chunk(_), IndexEvent::Made { id }) => id@,
            (IndexStage::DependencyNode(_), IndexEvent::Made { id }) => id@,
            (IndexStage::Dependency(i), IndexEvent::Found { nodes }) => match dependency_among(
                nodes@,
                self.entry.dependencies@[i as int]@,
            ) {
                Some(id) => id,
                None => self.part@,
            },
            _ => self.part@,
        }
    }

    /// What is done so that what is awaited comes.
    pub open spec fn asks(self, a: IndexAction) -> bool {
        let e = self.entry;
        match self.stage {
            IndexStage::Finding => a matches IndexAction::FindFiles { title } && title@ == e.title@,
            IndexStage::Updating => a matches IndexAction::UpdateFile { id, title, metadata } && id@
                == self.node@ && title@ == e.title@ && metadata@ == e.metadata@,
            IndexStage::Creating => a matches IndexAction::CreateFile { title, metadata } && title@
                == e.title@ && metadata@ == e.metadata@,
            IndexStage::Details => a matches IndexAction::PutDetails { id, details } && id@
                == self.node@ && are_details(details, e),
            IndexStage::Clearing => a matches IndexAction::ClearVectors { id } && id@ == self.node@,
            IndexStage::Summary => a matches IndexAction::PutVector { id, kind, text } && id@
                == self.node@ && kind == VectorKind::Summary && text@ == e.summary_text@,
            IndexStage::Excerpt => a matches IndexAction::PutVector { id, kind, text } && id@
                == self.node@ && kind == VectorKind::Content && text@ == e.excerpt->0@,
            IndexStage::Fact(i) => a matches IndexAction::PutVector { id, kind, text } && id@
                == self.node@ && kind == VectorKind::Fact && text@ == e.fact_texts@[i as int]@,
            IndexStage::ClearingChunks => a matches IndexAction::ClearChunks { id } && id@
                == self.node@,
            IndexStage::Chunk(i) => a matches IndexAction::CreateChunk { label, metadata } && label@
                == e.chunks@[i as int].label@ && metadata@ == chunk_metadata(
                e.chunks@[i as int]@,
                self.node@,
                self.path@,
            ),
            IndexStage::ChunkLink(i) => a matches IndexAction::LinkChunk { file, chunk, link }
                && file@ == self.node@ && chunk@ == self.part@ && link.is_link(
                CONTAINS@,
                CONTAINS_STRENGTH,
            ),
            IndexStage::ChunkDetails(i) => a matches IndexAction::PutChunkDetails {
                id,
                summary,
                fact,
            } && id@ == self.part@ && summary@ == e.chunks@[i as int].content@ && fact@
                == e.chunks@[i as int].summary@,
            IndexStage::ChunkVector(i) => a matches IndexAction::PutVector { id, kind, text } && id@
                == self.part@ && kind == VectorKind::Content && text@
                == e.chunks@[i as int].embed_text@,
            IndexStage::Dependency(i) => a matches IndexAction::FindDependencies { name } && name@
                == e.dependencies@[i as int]@,
            IndexStage::DependencyNode(i) => a matches IndexAction::CreateDependency {
                name,
                metadata,
            } && name@ == e.dependencies@[i as int]@ && metadata@ == dependency_metadata(),
            IndexStage::Counting(i) => a matches IndexAction::CountImports { file, dependency }
                && file@ == self.node@ && dependency@ == self.part@,
            IndexStage::Linking(i) => a matches IndexAction::LinkImport {
                file,
                dependency,
                link,
                metadata,
            } && file@ == self.node@ && dependency@ == self.part@ && link.is_link(
                IMPORTS@,
                IMPORTS_STRENGTH,
            ) && metadata@ == import_metadata(),
            IndexStage::Noting => a matches IndexAction::NoteIndexed { path, hash, size } && path@
                == self.path@ && hash@ == e.hash@ && size == self.size,
            IndexStage::Ended => a is Finish,
        }
    }

    /// Takes in a file, of which the given is kept.
    pub fn begin(path: String, size: u64, entry: FileEntry) -> (r: (IndexRun, IndexAction))
        ensures
            r.0.wf(),
            r.0.entry == entry,
            r.0.path@ == path@,
            r.0.size == size,
            r.0.stage == IndexStage::Finding,
            r.0.asks(r.1),
    {
        let run = IndexRun {
            entry,
            path,
            size,
            stage: IndexStage::Finding,
            node: "".to_owned(),
            part: "".to_owned(),
        };
        let first = run.ask();
        (run, first)
    }

    fn ask(&self) -> (r: IndexAction)
        requires
            self.wf(),
        ensures
            self.asks(r),
    {
        let e = &self.entry;
        match self.stage {
            IndexStage::Finding => IndexAction::FindFiles { title: e.title.clone() },
            IndexStage::Updating => IndexAction::UpdateFile {
                id: self.node.clone(),
                title: e.title.clone(),
                metadata: e.metadata.copy(),
            },
            IndexStage::Creating => IndexAction::CreateFile {
                title: e.title.clone(),
                metadata: e.metadata.copy(),
            },
            IndexStage::Details => IndexAction::PutDetails {
                id: self.node.clone(),
                details: details_of(e),
            },
            IndexStage::Clearing => IndexAction::ClearVectors { id: self.node.clone() },
            IndexStage::Summary => self.vector_of(VectorKind::Summary, &e.summary_text),
            IndexStage::Excerpt => match &e.excerpt {
                Some(t) => self.vector_of(VectorKind::Content, t),
                None => IndexAction::Finish,
            },
            IndexStage::Fact(i) => self.vector_of(VectorKind::Fact, &e.fact_texts[i]),
            IndexStage::ClearingChunks => IndexAction::ClearChunks { id: self.node.clone() },
            IndexStage::Chunk(i) => IndexAction::CreateChunk {
                label: e.chunks[i].label.clone(),
                metadata: build_chunk_metadata(&e.chunks[i], &self.node, &self.path),
            },
            IndexStage::ChunkLink(_) => IndexAction::LinkChunk {
                file: self.node.clone(),
                chunk: self.part.clone(),
                link: Link::contains(),
            },
            IndexStage::ChunkDetails(i) => IndexAction::PutChunkDetails {
                id: self.part.clone(),
                summary: e.chunks[i].content.clone(),
                fact: e.chunks[i].summary.clone(),
            },
            IndexStage::ChunkVector(i) => IndexAction::PutVector {
                id: self.part.clone(),
                kind: VectorKind::Content,
                text: e.chunks[i].embed_text.clone(),
            },
            IndexStage::Dependency(i) => IndexAction::FindDependencies {
                name: e.dependencies[i].clone(),
            },
            IndexStage::DependencyNode(i) => IndexAction::CreateDependency {
                name: e.dependencies[i].clone(),
                metadata: make_dependency_metadata(),
            },
            IndexStage::Counting(_) => IndexAction::CountImports {
                file: self.node.clone(),
                dependency: self.part.clone(),
            },
            IndexStage::Linking(_) => IndexAction::LinkImport {
                file: self.node.clone(),
                dependency: self.part.clone(),
                link: Link::imports(),
                metadata: make_import_metadata(),
            },
            IndexStage::Noting => IndexAction::NoteIndexed {
                path: self.path.clone(),
                hash: e.hash.clone(),
                size: self.size,
            },
            IndexStage::Ended => IndexAction::Finish,
        }
    }

    fn vector_of(&self, kind: VectorKind, text: &str) -> (r: IndexAction)
        ensures
            r matches IndexAction::PutVector { id, kind: k, text: t } && id@ == self.node@ && k
                == kind && t@ == text@,
    {
        IndexAction::PutVector { id: self.node.clone(), kind, text: text.to_owned() }
    }

    fn at_dependency(&self, i: usize) -> (r: IndexStage)
        ensures
            r == self.from_dependency(i as int),
    {
        if i < self.entry.dependencies.len() {
            IndexStage::Dependency(i)
        } else {
            IndexStage::Noting
        }
    }

    fn at_chunk(&self, i: usize) -> (r: IndexStage)
        ensures
            r == self.from_chunk(i as int),
    {
        if i < self.entry.chunks.len() {
            IndexStage::Chunk(i)
        } else {
            self.at_dependency(0)
        }
    }

    fn at_fact(&self, i: usize) -> (r: IndexStage)
        ensures
            r == self.from_fact(i as int),
    {
        if i < self.entry.fact_texts.len() {
            IndexStage::Fact(i)
        } else {
            IndexStage::ClearingChunks
        }
    }

    /// Goes on after an event. What fails ends it, but for what fails with a
    /// chunk, which is passed over.
    pub fn step(&mut self, event: IndexEvent) -> (r: IndexAction)
        requires
            old(self).wf(),
            may_follow(old(self).stage, event),
        ensures
            final(self).wf(),
            final(self).same_file(*old(self)),
            final(self).stage == old(self).next_stage(event),
            final(self).node@ == old(self).next_node(event),
            final(self).part@ == old(self).next_part(event),
            match event {
                IndexEvent::Failed { problem } if !is_of_chunk(old(self).stage) => r
                    matches IndexAction::Fail { problem: p } && p@ == problem@,
                _ => final(self).asks(r),
            },
    {
        let next = match (self.stage, event) {
            (IndexStage::Chunk(i), IndexEvent::Failed { problem: _ }) => self.at_chunk(i + 1),
            (IndexStage::ChunkLink(i), _) => IndexStage::ChunkDetails(i),
            (IndexStage::ChunkDetails(i), _) => IndexStage::ChunkVector(i),
            (IndexStage::ChunkVector(i), _) => self.at_chunk(i + 1),
            (_, IndexEvent::Failed { problem }) => {
                self.stage = IndexStage::Ended;
                return IndexAction::Fail { problem };
            },
            (IndexStage::Finding, IndexEvent::Found { nodes }) => match find_file_node(
                &nodes,
                &self.path,
            ) {
                Some(id) => {
                    self.node = id;
                    IndexStage::Updating
                },
                None => IndexStage::Creating,
            },
            (IndexStage::Creating, IndexEvent::Made { id }) => {
                self.node = id;
                IndexStage::Details
            },
            (IndexStage::Updating, _) => IndexStage::Details,
            (IndexStage::Details, _) => IndexStage::Clearing,
            (IndexStage::Clearing, _) => IndexStage::Summary,
            (IndexStage::Summary, _) => if self.entry.excerpt.is_some() {
                IndexStage::Excerpt
            } else {
                IndexStage::Noting
            },
            (IndexStage::Excerpt, _) => self.at_fact(0),
            (IndexStage::Fact(i), _) => self.at_fact(i + 1),
            (IndexStage::ClearingChunks, _) => self.at_chunk(0),
            (IndexStage::Chunk(i), IndexEvent::Made { id }) => {
                self.part = id;
                IndexStage::ChunkLink(i)
            },
            (IndexStage::Dependency(i), IndexEvent::Found { nodes }) => match find_dependency(
                &nodes,
                &self.entry.dependencies[i],
            ) {
                Some(id) => {
                    self.part = id;
                    IndexStage::Counting(i)
                },
                None => IndexStage::DependencyNode(i),
            },
            (IndexStage::DependencyNode(i), IndexEvent::Made { id }) => {
                self.part = id;
                IndexStage::Counting(i)
            },
            (IndexStage::Counting(i), IndexEvent::Counted { count }) => if count > 0 {
                self.at_dependency(i + 1)
            } else {
                IndexStage::Linking(i)
            },
            (IndexStage::Linking(i), _) => self.at_dependency(i + 1),
            _ => IndexStage::Ended,
        };
        self.stage = next;
        self.ask()
    }

    /// How many steps are left at most.
    pub open spec fn steps_left(self) -> int {
        let facts: int = self.entry.fact_texts.len() as int;
        let links: int = 2 + 4 * (self.entry.dependencies.len() as int);
        let parts: int = links + 4 * (self.entry.chunks.len() as int);
        match self.stage {
            IndexStage::Ended => 0,
            IndexStage::Noting => 1,
            IndexStage::Linking(i) => links - 4 * i - 3,
            IndexStage::Counting(i) => links - 4 * i - 2,
            IndexStage::DependencyNode(i) => links - 4 * i - 1,
            IndexStage::Dependency(i) => links - 4 * i,
            IndexStage::ChunkVector(i) => parts - 4 * i - 3,
            IndexStage::ChunkDetails(i) => parts - 4 * i - 2,
            IndexStage::ChunkLink(i) => parts - 4 * i - 1,
            IndexStage::Chunk(i) => parts - 4 * i,
            IndexStage::ClearingChunks => parts + 1,
            IndexStage::Fact(i) => parts + 1 + facts - i,
            IndexStage::Excerpt => parts + facts + 2,
            IndexStage::Summary => parts + facts + 3,
            IndexStage::Clearing => parts + facts + 4,
            IndexStage::Details => parts + facts + 5,
            IndexStage::Updating | IndexStage::Creating => parts + facts + 6,
            IndexStage::Finding => parts + facts + 7,
        }
    }
}

/// Indexing comes to an end: each event leaves fewer steps to take.
pub proof fn indexing_ends(before: IndexRun, event: IndexEvent, after: IndexRun)
    requires
        before.wf(),
        may_follow(before.stage, event),
        after.same_file(before),
        after.stage == before.next_stage(event),
    ensures
        0 <= after.steps_left() < before.steps_left(),
{
}

/// A chunk that cannot be kept does not keep the rest of the file from being
/// indexed, and a file is only noted as indexed once all that is kept of it was
/// kept: what fails elsewhere ends it before.
pub proof fn only_chunks_may_fail(before: IndexRun, problem: String)
    requires
        before.wf(),
        before.stage != IndexStage::Ended,
    ensures
        (before.next_stage(IndexEvent::Failed { problem }) == IndexStage::Ended)
            == !is_of_chunk(before.stage),
{
}

/// What was kept of a file earlier is dropped before new vectors and chunks are
/// kept with its node.
pub proof fn old_parts_go_first(before: IndexRun, event: IndexEvent)
    requires
        before.wf(),
        may_follow(before.stage, event),
    ensures
        before.next_stage(event) == IndexStage::Summary ==> before.stage == IndexStage::Clearing,
        before.next_stage(event) == IndexStage::Chunk(0) ==> before.stage
            == IndexStage::ClearingChunks,
{
}

impl<M, L> FileIndexer<M, L> {
    /// Takes in a file with the given content, unless it has not changed since it
    /// was last indexed.
    pub fn index_path_internal(&mut self, f: &FileFacts, bytes: Vec<u8>) -> (r: Option<
        (IndexRun, IndexAction),
    >)
        ensures
            final(self).only_file(*old(self), f.path@),
            final(self).known_hash(f.path@) == Some(hash_of(bytes@)),
            match r {
                Some((run, first)) => {
                    &&& is_indexed(old(self).known_hash(f.path@), bytes@)
                    &&& is_entry(run.entry, *f, bytes@, old(self).llm is Some)
                    &&& run.wf()
                    &&& run.path@ == f.path@
                    &&& run.size == f.size
                    &&& run.stage == IndexStage::Finding
                    &&& run.asks(first)
                },
                None => !is_indexed(old(self).known_hash(f.path@), bytes@),
            },
    {
        match self.index_file(f, bytes) {
            Some(entry) => Some(IndexRun::begin(f.path.clone(), f.size, entry)),
            None => None,
        }
    }
}

} // verus!
