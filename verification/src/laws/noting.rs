//! What is noted of files, pages and windows.

use crate::indexer::browser_indexer::inked_lines;
use crate::indexer::file_indexer::{
    chunk_label, chunk_metadata, chunk_node, content_of, dependency_among, file_among, is_at_path,
    is_entry, is_entry_of, place_skipped, settled, skip_segments, skipped, skips, FileEntry,
    KnownNode, Place,
};
use crate::indexer::notes::{
    file_metadata, file_type, folder_names, from_word, import_tag, import_tags, in_tag, key_facts,
    metadata_summary, mime_type, structure_summary, tag_len, tags_found, todos_in, FileFacts,
};
use crate::indexer::structure::{ChunkV, StructuralFingerprint};
use crate::indexer::ui_indexer::told;
use crate::json::{Json, JsonV, Number};
use crate::laws::parts::stands_at;
use crate::llm::types::text_view;
use crate::text;
use vstd::prelude::*;

verus! {

/// The media type of a file follows from the ending of its name, in capitals or not;
/// a file with any other ending is plain text, or it is binary.
pub proof fn endings_tell_the_media_type(ext: Seq<char>, is_text: bool)
    ensures
        text::lower(ext) == "rs"@ ==> mime_type(ext, is_text) == "text/x-rust"@,
        text::lower(ext) == "py"@ ==> mime_type(ext, is_text) == "text/x-python"@,
        text::lower(ext) == "js"@ ==> mime_type(ext, is_text) == "text/javascript"@,
        text::lower(ext) == "ts"@ ==> mime_type(ext, is_text) == "text/typescript"@,
        text::lower(ext) == "tsx"@ ==> mime_type(ext, is_text) == "text/tsx"@,
        text::lower(ext) == "jsx"@ ==> mime_type(ext, is_text) == "text/jsx"@,
        text::lower(ext) == "svelte"@ ==> mime_type(ext, is_text) == "text/x-svelte"@,
        text::lower(ext) == "json"@ ==> mime_type(ext, is_text) == "application/json"@,
        text::lower(ext) == "md"@ ==> mime_type(ext, is_text) == "text/markdown"@,
        text::lower(ext) == "toml"@ ==> mime_type(ext, is_text) == "application/toml"@,
        text::lower(ext) == "yaml"@ || text::lower(ext) == "yml"@ ==> mime_type(ext, is_text) == "application/yaml"@,
        text::lower(ext) == "html"@ ==> mime_type(ext, is_text) == "text/html"@,
        text::lower(ext) == "css"@ ==> mime_type(ext, is_text) == "text/css"@,
        text::lower(ext) == "cpp"@ || text::lower(ext) == "cc"@ || text::lower(ext) == "cxx"@ ==> mime_type(ext, is_text) == "text/x-c++src"@,
        text::lower(ext) == "c"@ ==> mime_type(ext, is_text) == "text/x-csrc"@,
        text::lower(ext) == "h"@ || text::lower(ext) == "hpp"@ ==> mime_type(ext, is_text) == "text/x-chdr"@,
        text::lower(ext) == "xaml"@ ==> mime_type(ext, is_text) == "application/xaml+xml"@,
        !known_endings().contains(text::lower(ext)) ==> mime_type(ext, is_text) == (if is_text {
            "text/plain"@
        } else {
            "application/octet-stream"@
        }),
{
    let k = known_endings();
    assert(k[0] == "rs"@);
    assert(k[1] == "py"@);
    assert(k[2] == "js"@);
    assert(k[3] == "ts"@);
    assert(k[4] == "tsx"@);
    assert(k[5] == "jsx"@);
    assert(k[6] == "svelte"@);
    assert(k[7] == "json"@);
    assert(k[8] == "md"@);
    assert(k[9] == "toml"@);
    assert(k[10] == "yaml"@);
    assert(k[11] == "yml"@);
    assert(k[12] == "html"@);
    assert(k[13] == "css"@);
    assert(k[14] == "cpp"@);
    assert(k[15] == "cc"@);
    assert(k[16] == "cxx"@);
    assert(k[17] == "c"@);
    assert(k[18] == "h"@);
    assert(k[19] == "hpp"@);
    assert(k[20] == "xaml"@);
    reveal_strlit("rs");
    reveal_strlit("py");
    reveal_strlit("js");
    reveal_strlit("ts");
    reveal_strlit("tsx");
    reveal_strlit("jsx");
    reveal_strlit("svelte");
    reveal_strlit("json");
    reveal_strlit("md");
    reveal_strlit("toml");
    reveal_strlit("yaml");
    reveal_strlit("yml");
    reveal_strlit("html");
    reveal_strlit("css");
    reveal_strlit("cpp");
    reveal_strlit("cc");
    reveal_strlit("cxx");
    reveal_strlit("c");
    reveal_strlit("h");
    reveal_strlit("hpp");
    reveal_strlit("xaml");
    assert("rs"@.len() == 2 && "rs"@[0] == 'r' && "rs"@[1] == 's');
    assert("py"@.len() == 2 && "py"@[0] == 'p' && "py"@[1] == 'y');
    assert("js"@.len() == 2 && "js"@[0] == 'j' && "js"@[1] == 's');
    assert("ts"@.len() == 2 && "ts"@[0] == 't' && "ts"@[1] == 's');
    assert("tsx"@.len() == 3 && "tsx"@[0] == 't' && "tsx"@[1] == 's' && "tsx"@[2] == 'x');
    assert("jsx"@.len() == 3 && "jsx"@[0] == 'j' && "jsx"@[1] == 's' && "jsx"@[2] == 'x');
    assert("svelte"@.len() == 6 && "svelte"@[0] == 's' && "svelte"@[1] == 'v' && "svelte"@[2] == 'e' && "svelte"@[3] == 'l' && "svelte"@[4] == 't' && "svelte"@[5] == 'e');
    assert("json"@.len() == 4 && "json"@[0] == 'j' && "json"@[1] == 's' && "json"@[2] == 'o' && "json"@[3] == 'n');
    assert("md"@.len() == 2 && "md"@[0] == 'm' && "md"@[1] == 'd');
    assert("toml"@.len() == 4 && "toml"@[0] == 't' && "toml"@[1] == 'o' && "toml"@[2] == 'm' && "toml"@[3] == 'l');
    assert("yaml"@.len() == 4 && "yaml"@[0] == 'y' && "yaml"@[1] == 'a' && "yaml"@[2] == 'm' && "yaml"@[3] == 'l');
    assert("yml"@.len() == 3 && "yml"@[0] == 'y' && "yml"@[1] == 'm' && "yml"@[2] == 'l');
    assert("html"@.len() == 4 && "html"@[0] == 'h' && "html"@[1] == 't' && "html"@[2] == 'm' && "html"@[3] == 'l');
    assert("css"@.len() == 3 && "css"@[0] == 'c' && "css"@[1] == 's' && "css"@[2] == 's');
    assert("cpp"@.len() == 3 && "cpp"@[0] == 'c' && "cpp"@[1] == 'p' && "cpp"@[2] == 'p');
    assert("cc"@.len() == 2 && "cc"@[0] == 'c' && "cc"@[1] == 'c');
    assert("cxx"@.len() == 3 && "cxx"@[0] == 'c' && "cxx"@[1] == 'x' && "cxx"@[2] == 'x');
    assert("c"@.len() == 1 && "c"@[0] == 'c');
    assert("h"@.len() == 1 && "h"@[0] == 'h');
    assert("hpp"@.len() == 3 && "hpp"@[0] == 'h' && "hpp"@[1] == 'p' && "hpp"@[2] == 'p');
    assert("xaml"@.len() == 4 && "xaml"@[0] == 'x' && "xaml"@[1] == 'a' && "xaml"@[2] == 'm' && "xaml"@[3] == 'l');
}

/// What a file is follows from the ending of its name, in capitals or not.
pub proof fn endings_tell_the_kind(ext: Seq<char>, is_text: bool)
    ensures
        text::lower(ext) == "rs"@ ==> file_type(ext, is_text) == "Rust source file"@,
        text::lower(ext) == "py"@ ==> file_type(ext, is_text) == "Python source file"@,
        text::lower(ext) == "js"@ || text::lower(ext) == "ts"@ || text::lower(ext) == "tsx"@ || text::lower(ext) == "jsx"@ || text::lower(ext) == "svelte"@ ==> file_type(ext, is_text) == "Web source file"@,
        text::lower(ext) == "json"@ || text::lower(ext) == "yaml"@ || text::lower(ext) == "yml"@ || text::lower(ext) == "toml"@ ==> file_type(ext, is_text) == "Configuration file"@,
        text::lower(ext) == "md"@ ==> file_type(ext, is_text) == "Markdown document"@,
        text::lower(ext) == "cpp"@ || text::lower(ext) == "cc"@ || text::lower(ext) == "cxx"@ || text::lower(ext) == "c"@ || text::lower(ext) == "h"@ || text::lower(ext) == "hpp"@ ==> file_type(ext, is_text) == "C/C++ source file"@,
        text::lower(ext) == "xaml"@ ==> file_type(ext, is_text) == "XAML UI file"@,
        !known_endings().contains(text::lower(ext)) ==> file_type(ext, is_text) == (if is_text {
            "Text file"@
        } else {
            "Binary file"@
        }),
{
    let k = known_endings();
    assert(k[0] == "rs"@);
    assert(k[1] == "py"@);
    assert(k[2] == "js"@);
    assert(k[3] == "ts"@);
    assert(k[4] == "tsx"@);
    assert(k[5] == "jsx"@);
    assert(k[6] == "svelte"@);
    assert(k[7] == "json"@);
    assert(k[8] == "md"@);
    assert(k[9] == "toml"@);
    assert(k[10] == "yaml"@);
    assert(k[11] == "yml"@);
    assert(k[12] == "html"@);
    assert(k[13] == "css"@);
    assert(k[14] == "cpp"@);
    assert(k[15] == "cc"@);
    assert(k[16] == "cxx"@);
    assert(k[17] == "c"@);
    assert(k[18] == "h"@);
    assert(k[19] == "hpp"@);
    assert(k[20] == "xaml"@);
    reveal_strlit("rs");
    reveal_strlit("py");
    reveal_strlit("js");
    reveal_strlit("ts");
    reveal_strlit("tsx");
    reveal_strlit("jsx");
    reveal_strlit("svelte");
    reveal_strlit("json");
    reveal_strlit("md");
    reveal_strlit("toml");
    reveal_strlit("yaml");
    reveal_strlit("yml");
    reveal_strlit("html");
    reveal_strlit("css");
    reveal_strlit("cpp");
    reveal_strlit("cc");
    reveal_strlit("cxx");
    reveal_strlit("c");
    reveal_strlit("h");
    reveal_strlit("hpp");
    reveal_strlit("xaml");
    assert("rs"@.len() == 2 && "rs"@[0] == 'r' && "rs"@[1] == 's');
    assert("py"@.len() == 2 && "py"@[0] == 'p' && "py"@[1] == 'y');
    assert("js"@.len() == 2 && "js"@[0] == 'j' && "js"@[1] == 's');
    assert("ts"@.len() == 2 && "ts"@[0] == 't' && "ts"@[1] == 's');
    assert("tsx"@.len() == 3 && "tsx"@[0] == 't' && "tsx"@[1] == 's' && "tsx"@[2] == 'x');
    assert("jsx"@.len() == 3 && "jsx"@[0] == 'j' && "jsx"@[1] == 's' && "jsx"@[2] == 'x');
    assert("svelte"@.len() == 6 && "svelte"@[0] == 's' && "svelte"@[1] == 'v' && "svelte"@[2] == 'e' && "svelte"@[3] == 'l' && "svelte"@[4] == 't' && "svelte"@[5] == 'e');
    assert("json"@.len() == 4 && "json"@[0] == 'j' && "json"@[1] == 's' && "json"@[2] == 'o' && "json"@[3] == 'n');
    assert("md"@.len() == 2 && "md"@[0] == 'm' && "md"@[1] == 'd');
    assert("toml"@.len() == 4 && "toml"@[0] == 't' && "toml"@[1] == 'o' && "toml"@[2] == 'm' && "toml"@[3] == 'l');
    assert("yaml"@.len() == 4 && "yaml"@[0] == 'y' && "yaml"@[1] == 'a' && "yaml"@[2] == 'm' && "yaml"@[3] == 'l');
    assert("yml"@.len() == 3 && "yml"@[0] == 'y' && "yml"@[1] == 'm' && "yml"@[2] == 'l');
    assert("html"@.len() == 4 && "html"@[0] == 'h' && "html"@[1] == 't' && "html"@[2] == 'm' && "html"@[3] == 'l');
    assert("css"@.len() == 3 && "css"@[0] == 'c' && "css"@[1] == 's' && "css"@[2] == 's');
    assert("cpp"@.len() == 3 && "cpp"@[0] == 'c' && "cpp"@[1] == 'p' && "cpp"@[2] == 'p');
    assert("cc"@.len() == 2 && "cc"@[0] == 'c' && "cc"@[1] == 'c');
    assert("cxx"@.len() == 3 && "cxx"@[0] == 'c' && "cxx"@[1] == 'x' && "cxx"@[2] == 'x');
    assert("c"@.len() == 1 && "c"@[0] == 'c');
    assert("h"@.len() == 1 && "h"@[0] == 'h');
    assert("hpp"@.len() == 3 && "hpp"@[0] == 'h' && "hpp"@[1] == 'p' && "hpp"@[2] == 'p');
    assert("xaml"@.len() == 4 && "xaml"@[0] == 'x' && "xaml"@[1] == 'a' && "xaml"@[2] == 'm' && "xaml"@[3] == 'l');
}

/// The endings of names that tell what a file is.
pub open spec fn known_endings() -> Seq<Seq<char>> {
    seq![
        "rs"@,
        "py"@,
        "js"@,
        "ts"@,
        "tsx"@,
        "jsx"@,
        "svelte"@,
        "json"@,
        "md"@,
        "toml"@,
        "yaml"@,
        "yml"@,
        "html"@,
        "css"@,
        "cpp"@,
        "cc"@,
        "cxx"@,
        "c"@,
        "h"@,
        "hpp"@,
        "xaml"@,
    ]
}

/// Paths are passed over that lead through the directories of tools, of builds and of
/// the system, whatever the case of their letters and however deep they lie.
pub proof fn tools_and_builds_are_passed_over(segments: Seq<Seq<char>>, i: int)
    requires
        0 <= i < segments.len(),
    ensures
        is_passed_over(text::lower(segments[i])) ==> skips(segments),
        (forall|j: int| 0 <= j < segments.len() ==> !is_passed_over(text::lower(#[trigger] segments[j])))
            ==> !skips(segments),
{
    let l = skip_segments();
    small_letters();
    assert(l[0] == ".git"@);
    assert(l[1] == ".svn"@);
    assert(l[2] == ".hg"@);
    assert(l[3] == "target"@);
    assert(l[4] == "build"@);
    assert(l[5] == "dist"@);
    assert(l[6] == "out"@);
    assert(l[7] == "obj"@);
    assert(l[8] == "bin"@);
    assert(l[9] == "node_modules"@);
    assert(l[10] == ".npm"@);
    assert(l[11] == ".yarn"@);
    assert(l[12] == ".pnpm-store"@);
    assert(l[13] == "__pycache__"@);
    assert(l[14] == ".venv"@);
    assert(l[15] == "venv"@);
    assert(l[16] == "env"@);
    assert(l[17] == ".mypy_cache"@);
    assert(l[18] == ".cargo"@);
    assert(l[19] == "registry"@);
    assert(l[20] == "git"@);
    assert(l[21] == ".gradle"@);
    assert(l[22] == ".m2"@);
    assert(l[23] == "windows"@);
    assert(l[24] == "program files"@);
    assert(l[25] == "program files (x86)"@);
    assert(l[26] == "system32"@);
    assert(l[27] == "$recycle.bin"@);
    assert(l[28] == "appdata"@);
    assert(l[29] == "local"@);
    assert(l[30] == "roaming"@);
    assert(l[31] == "library"@);
    assert(l[32] == "caches"@);
    assert(l[33] == "system"@);
    assert(l[34] == "volumes"@);
    assert(l[35] == ".dropbox"@);
    assert(l[36] == ".dropbox.cache"@);
    assert(l[37] == ".syncthing"@);
    assert(l[38] == ".stfolder"@);
    assert(l[39] == ".idea"@);
    assert(l[40] == ".vscode"@);
    assert(l[41] == ".vs"@);
    assert(l[42] == ".settings"@);
    assert(l[43] == "docker"@);
    assert(l[44] == ".docker"@);
    assert(l[45] == "virtualbox vms"@);
    assert(l[46] == "tmp"@);
    assert(l[47] == "temp"@);
    assert(l[48] == "cache"@);
    assert(l[49] == "logs"@);
    assert(l[50] == "log"@);
    assert(l[51] == ".ds_store"@);
    if is_passed_over(text::lower(segments[i])) {
        assert(skipped(segments[i]));
    }
    assert forall|j: int| 0 <= j < segments.len() && skipped(#[trigger] segments[j]) implies
        is_passed_over(text::lower(segments[j])) by {
        let k = choose|k: int|
            0 <= k < l.len() && text::lower(segments[j]) == text::lower(#[trigger] l[k]);
        assert(l.len() == 52);
    }
}

/// A name, in small letters, that is passed over.
pub open spec fn is_passed_over(name: Seq<char>) -> bool {
    ||| name == ".git"@
    ||| name == ".svn"@
    ||| name == ".hg"@
    ||| name == "target"@
    ||| name == "build"@
    ||| name == "dist"@
    ||| name == "out"@
    ||| name == "obj"@
    ||| name == "bin"@
    ||| name == "node_modules"@
    ||| name == ".npm"@
    ||| name == ".yarn"@
    ||| name == ".pnpm-store"@
    ||| name == "__pycache__"@
    ||| name == ".venv"@
    ||| name == "venv"@
    ||| name == "env"@
    ||| name == ".mypy_cache"@
    ||| name == ".cargo"@
    ||| name == "registry"@
    ||| name == "git"@
    ||| name == ".gradle"@
    ||| name == ".m2"@
    ||| name == "windows"@
    ||| name == "program files"@
    ||| name == "program files (x86)"@
    ||| name == "system32"@
    ||| name == "$recycle.bin"@
    ||| name == "appdata"@
    ||| name == "local"@
    ||| name == "roaming"@
    ||| name == "library"@
    ||| name == "caches"@
    ||| name == "system"@
    ||| name == "volumes"@
    ||| name == ".dropbox"@
    ||| name == ".dropbox.cache"@
    ||| name == ".syncthing"@
    ||| name == ".stfolder"@
    ||| name == ".idea"@
    ||| name == ".vscode"@
    ||| name == ".vs"@
    ||| name == ".settings"@
    ||| name == "docker"@
    ||| name == ".docker"@
    ||| name == "virtualbox vms"@
    ||| name == "tmp"@
    ||| name == "temp"@
    ||| name == "cache"@
    ||| name == "logs"@
    ||| name == "log"@
    ||| name == ".ds_store"@
}

proof fn small_letters()
    ensures
        text::lower(".git"@) == ".git"@,
        text::lower(".svn"@) == ".svn"@,
        text::lower(".hg"@) == ".hg"@,
        text::lower("target"@) == "target"@,
        text::lower("build"@) == "build"@,
        text::lower("dist"@) == "dist"@,
        text::lower("out"@) == "out"@,
        text::lower("obj"@) == "obj"@,
        text::lower("bin"@) == "bin"@,
        text::lower("node_modules"@) == "node_modules"@,
        text::lower(".npm"@) == ".npm"@,
        text::lower(".yarn"@) == ".yarn"@,
        text::lower(".pnpm-store"@) == ".pnpm-store"@,
        text::lower("__pycache__"@) == "__pycache__"@,
        text::lower(".venv"@) == ".venv"@,
        text::lower("venv"@) == "venv"@,
        text::lower("env"@) == "env"@,
        text::lower(".mypy_cache"@) == ".mypy_cache"@,
        text::lower(".cargo"@) == ".cargo"@,
        text::lower("registry"@) == "registry"@,
        text::lower("git"@) == "git"@,
        text::lower(".gradle"@) == ".gradle"@,
        text::lower(".m2"@) == ".m2"@,
        text::lower("windows"@) == "windows"@,
        text::lower("program files"@) == "program files"@,
        text::lower("program files (x86)"@) == "program files (x86)"@,
        text::lower("system32"@) == "system32"@,
        text::lower("$recycle.bin"@) == "$recycle.bin"@,
        text::lower("appdata"@) == "appdata"@,
        text::lower("local"@) == "local"@,
        text::lower("roaming"@) == "roaming"@,
        text::lower("library"@) == "library"@,
        text::lower("caches"@) == "caches"@,
        text::lower("system"@) == "system"@,
        text::lower("volumes"@) == "volumes"@,
        text::lower(".dropbox"@) == ".dropbox"@,
        text::lower(".dropbox.cache"@) == ".dropbox.cache"@,
        text::lower(".syncthing"@) == ".syncthing"@,
        text::lower(".stfolder"@) == ".stfolder"@,
        text::lower(".idea"@) == ".idea"@,
        text::lower(".vscode"@) == ".vscode"@,
        text::lower(".vs"@) == ".vs"@,
        text::lower(".settings"@) == ".settings"@,
        text::lower("docker"@) == "docker"@,
        text::lower(".docker"@) == ".docker"@,
        text::lower("virtualbox vms"@) == "virtualbox vms"@,
        text::lower("tmp"@) == "tmp"@,
        text::lower("temp"@) == "temp"@,
        text::lower("cache"@) == "cache"@,
        text::lower("logs"@) == "logs"@,
        text::lower("log"@) == "log"@,
        text::lower(".ds_store"@) == ".ds_store"@,
{
    reveal_strlit(".git");
    assert(text::lower(".git"@) =~= ".git"@);
    reveal_strlit(".svn");
    assert(text::lower(".svn"@) =~= ".svn"@);
    reveal_strlit(".hg");
    assert(text::lower(".hg"@) =~= ".hg"@);
    reveal_strlit("target");
    assert(text::lower("target"@) =~= "target"@);
    reveal_strlit("build");
    assert(text::lower("build"@) =~= "build"@);
    reveal_strlit("dist");
    assert(text::lower("dist"@) =~= "dist"@);
    reveal_strlit("out");
    assert(text::lower("out"@) =~= "out"@);
    reveal_strlit("obj");
    assert(text::lower("obj"@) =~= "obj"@);
    reveal_strlit("bin");
    assert(text::lower("bin"@) =~= "bin"@);
    reveal_strlit("node_modules");
    assert(text::lower("node_modules"@) =~= "node_modules"@);
    reveal_strlit(".npm");
    assert(text::lower(".npm"@) =~= ".npm"@);
    reveal_strlit(".yarn");
    assert(text::lower(".yarn"@) =~= ".yarn"@);
    reveal_strlit(".pnpm-store");
    assert(text::lower(".pnpm-store"@) =~= ".pnpm-store"@);
    reveal_strlit("__pycache__");
    assert(text::lower("__pycache__"@) =~= "__pycache__"@);
    reveal_strlit(".venv");
    assert(text::lower(".venv"@) =~= ".venv"@);
    reveal_strlit("venv");
    assert(text::lower("venv"@) =~= "venv"@);
    reveal_strlit("env");
    assert(text::lower("env"@) =~= "env"@);
    reveal_strlit(".mypy_cache");
    assert(text::lower(".mypy_cache"@) =~= ".mypy_cache"@);
    reveal_strlit(".cargo");
    assert(text::lower(".cargo"@) =~= ".cargo"@);
    reveal_strlit("registry");
    assert(text::lower("registry"@) =~= "registry"@);
    reveal_strlit("git");
    assert(text::lower("git"@) =~= "git"@);
    reveal_strlit(".gradle");
    assert(text::lower(".gradle"@) =~= ".gradle"@);
    reveal_strlit(".m2");
    assert(text::lower(".m2"@) =~= ".m2"@);
    reveal_strlit("windows");
    assert(text::lower("windows"@) =~= "windows"@);
    reveal_strlit("program files");
    assert(text::lower("program files"@) =~= "program files"@);
    reveal_strlit("program files (x86)");
    assert(text::lower("program files (x86)"@) =~= "program files (x86)"@);
    reveal_strlit("system32");
    assert(text::lower("system32"@) =~= "system32"@);
    reveal_strlit("$recycle.bin");
    assert(text::lower("$recycle.bin"@) =~= "$recycle.bin"@);
    reveal_strlit("appdata");
    assert(text::lower("appdata"@) =~= "appdata"@);
    reveal_strlit("local");
    assert(text::lower("local"@) =~= "local"@);
    reveal_strlit("roaming");
    assert(text::lower("roaming"@) =~= "roaming"@);
    reveal_strlit("library");
    assert(text::lower("library"@) =~= "library"@);
    reveal_strlit("caches");
    assert(text::lower("caches"@) =~= "caches"@);
    reveal_strlit("system");
    assert(text::lower("system"@) =~= "system"@);
    reveal_strlit("volumes");
    assert(text::lower("volumes"@) =~= "volumes"@);
    reveal_strlit(".dropbox");
    assert(text::lower(".dropbox"@) =~= ".dropbox"@);
    reveal_strlit(".dropbox.cache");
    assert(text::lower(".dropbox.cache"@) =~= ".dropbox.cache"@);
    reveal_strlit(".syncthing");
    assert(text::lower(".syncthing"@) =~= ".syncthing"@);
    reveal_strlit(".stfolder");
    assert(text::lower(".stfolder"@) =~= ".stfolder"@);
    reveal_strlit(".idea");
    assert(text::lower(".idea"@) =~= ".idea"@);
    reveal_strlit(".vscode");
    assert(text::lower(".vscode"@) =~= ".vscode"@);
    reveal_strlit(".vs");
    assert(text::lower(".vs"@) =~= ".vs"@);
    reveal_strlit(".settings");
    assert(text::lower(".settings"@) =~= ".settings"@);
    reveal_strlit("docker");
    assert(text::lower("docker"@) =~= "docker"@);
    reveal_strlit(".docker");
    assert(text::lower(".docker"@) =~= ".docker"@);
    reveal_strlit("virtualbox vms");
    assert(text::lower("virtualbox vms"@) =~= "virtualbox vms"@);
    reveal_strlit("tmp");
    assert(text::lower("tmp"@) =~= "tmp"@);
    reveal_strlit("temp");
    assert(text::lower("temp"@) =~= "temp"@);
    reveal_strlit("cache");
    assert(text::lower("cache"@) =~= "cache"@);
    reveal_strlit("logs");
    assert(text::lower("logs"@) =~= "logs"@);
    reveal_strlit("log");
    assert(text::lower("log"@) =~= "log"@);
    reveal_strlit(".ds_store");
    assert(text::lower(".ds_store"@) =~= ".ds_store"@);
}

/// A line that is about something left to do.
pub open spec fn is_left_to_do(line: Seq<char>) -> bool {
    text::occurs(line, "TODO"@) || text::occurs(line, "FIXME"@) || text::occurs(line, "HACK"@)
}

/// Every line of a text that is about something left to do is noted, in order and
/// without the space around it.
pub proof fn everything_left_to_do_is_noted(lines: Seq<Seq<char>>)
    ensures
        todos_in(lines, lines.len()) == lines.map_values(|l: Seq<char>| text::trim(l)).filter(
            |l: Seq<char>| is_left_to_do(l),
        ),
{
    todos_up_to(lines, lines.len());
    assert(lines.take(lines.len() as int) =~= lines);
}

proof fn todos_up_to(lines: Seq<Seq<char>>, n: nat)
    requires
        n <= lines.len(),
    ensures
        todos_in(lines, n) == lines.take(n as int).map_values(
            |l: Seq<char>| text::trim(l),
        ).filter(|l: Seq<char>| is_left_to_do(l)),
    decreases n,
{
    reveal(Seq::filter);
    let t = |l: Seq<char>| text::trim(l);
    let p = |l: Seq<char>| is_left_to_do(l);
    let all = lines.take(n as int).map_values(t);
    if n > 0 {
        todos_up_to(lines, (n - 1) as nat);
        assert(all.drop_last() =~= lines.take(n - 1).map_values(t));
        assert(all.last() == text::trim(lines[n - 1]));
    } else {
        assert(todos_in(lines, n) =~= all.filter(p));
    }
}

proof fn word_is_measured(word: Seq<char>, rest: Seq<char>)
    requires
        forall|i: int| 0 <= i < word.len() ==> in_tag(#[trigger] word[i]),
        rest.len() == 0 || !in_tag(rest[0]),
    ensures
        tag_len(word + rest) == word.len(),
    decreases word.len(),
{
    let s = word + rest;
    if word.len() == 0 {
        assert(s =~= rest);
    } else {
        assert(s[0] == word[0]);
        assert(s.skip(1) =~= word.skip(1) + rest);
        assert forall|i: int| 0 <= i < word.skip(1).len() implies in_tag(
            #[trigger] word.skip(1)[i],
        ) by {
            assert(word.skip(1)[i] == word[i + 1]);
        }
        word_is_measured(word.skip(1), rest);
    }
}

proof fn front_is_passed(front: Seq<char>, s: Seq<char>)
    requires
        forall|i: int| 0 <= i < front.len() ==> !in_tag(#[trigger] front[i]),
    ensures
        from_word(front + s) == from_word(s),
    decreases front.len(),
{
    let all = front + s;
    if front.len() == 0 {
        assert(all =~= s);
    } else {
        assert(all[0] == front[0]);
        assert(all.skip(1) =~= front.skip(1) + s);
        assert forall|i: int| 0 <= i < front.skip(1).len() implies !in_tag(
            #[trigger] front.skip(1)[i],
        ) by {
            assert(front.skip(1)[i] == front[i + 1]);
        }
        front_is_passed(front.skip(1), s);
    }
}

/// The tag for an import is its first word, of letters, digits, underscores and
/// hyphens, in small letters.
pub proof fn an_import_is_tagged_by_its_first_word(
    front: Seq<char>,
    word: Seq<char>,
    rest: Seq<char>,
)
    requires
        word.len() > 0,
        forall|i: int| 0 <= i < front.len() ==> !is_of_word(#[trigger] front[i]),
        forall|i: int| 0 <= i < word.len() ==> is_of_word(#[trigger] word[i]),
        rest.len() == 0 || !is_of_word(rest[0]),
    ensures
        import_tag(front + word + rest) == text::lower(word),
{
    assert(front + word + rest =~= front + (word + rest));
    front_is_passed(front, word + rest);
    assert((word + rest)[0] == word[0]);
    word_is_measured(word, rest);
    assert((word + rest).take(word.len() as int) =~= word);
}

/// A character of a word.
pub open spec fn is_of_word(c: char) -> bool {
    crate::outside::alphanumeric(c) || c == '_' || c == '-'
}

proof fn tags_of_imports(imports: Seq<Seq<char>>, n: nat)
    requires
        n <= imports.len(),
    ensures
        import_tags(imports, n) == imports.take(n as int).map_values(
            |i: Seq<char>| import_tag(i),
        ),
    decreases n,
{
    if n > 0 {
        tags_of_imports(imports, (n - 1) as nat);
    }
    assert(import_tags(imports, n) =~= imports.take(n as int).map_values(
        |i: Seq<char>| import_tag(i),
    ));
}

/// A file is tagged by its ending, by whether it is text, code or complex, and by the
/// first six things that it takes in.
pub proof fn tags_tell_what_a_file_is(
    f: FileFacts,
    mime: Seq<char>,
    kind: Seq<char>,
    s: StructuralFingerprint,
)
    ensures
        ({
            let t = tags_found(f, mime, kind, s);
            &&& t.contains("local-indexed"@)
            &&& f.extension matches Some(e) ==> t.contains(text::lower(e@))
            &&& text::begins(mime, "text/"@) ==> t.contains("text"@)
            &&& text::occurs(kind, "source"@) ==> t.contains("code"@)
            &&& s.cyclomatic_complexity >= 8 ==> t.contains("complex"@)
            &&& forall|i: int|
                0 <= i < s.imports@.len() && i < 6 ==> t.contains(
                    import_tag((#[trigger] s.imports@[i])@),
                )
            &&& t.len() == 1 + (if f.extension is Some {
                1int
            } else {
                0
            }) + (if text::begins(mime, "text/"@) {
                1int
            } else {
                0
            }) + (if text::occurs(kind, "source"@) {
                1int
            } else {
                0
            }) + (if s.cyclomatic_complexity >= 8 {
                1int
            } else {
                0
            }) + (if s.imports@.len() <= 6 {
                s.imports@.len() as int
            } else {
                6
            })
        }),
{
    let t = tags_found(f, mime, kind, s);
    let imports = text::views(s.imports@);
    let n = if s.imports@.len() < 6 {
        s.imports@.len()
    } else {
        6
    };
    tags_of_imports(imports, n);
    let a = if f.extension is Some {
        1int
    } else {
        0
    };
    let b = if text::begins(mime, "text/"@) {
        1int
    } else {
        0
    };
    let c = if text::occurs(kind, "source"@) {
        1int
    } else {
        0
    };
    let d = if s.cyclomatic_complexity >= 8 {
        1int
    } else {
        0
    };
    assert(t[0] == "local-indexed"@);
    if a == 1 {
        assert(t[1] == text::lower(f.extension->0@));
    }
    if b == 1 {
        assert(t[1 + a] == "text"@);
    }
    if c == 1 {
        assert(t[1 + a + b] == "code"@);
    }
    if d == 1 {
        assert(t[1 + a + b + c] == "complex"@);
    }
    assert forall|i: int| 0 <= i < s.imports@.len() && i < 6 implies t.contains(
        import_tag((#[trigger] s.imports@[i])@),
    ) by {
        assert(imports[i] == s.imports@[i]@);
        assert(t[1 + a + b + c + d + i] == import_tag(s.imports@[i]@));
    }
}

/// Of the directories that a file is in, the last four are told.
pub proof fn the_last_four_folders_are_told(front: Seq<Seq<char>>, last: Seq<Seq<char>>)
    requires
        last.len() == 4 || (last.len() < 4 && front.len() == 0),
    ensures
        folder_names(front + last) == text::join(last, " > "@),
{
    if front.len() + last.len() > 4 {
        assert((front + last).skip((front + last).len() - 4) =~= last);
    } else {
        assert(front + last =~= last);
    }
}

/// An object has a member.
pub open spec fn notes(v: JsonV, key: Seq<char>, value: JsonV) -> bool {
    v matches JsonV::Object(m) && m.contains((key, value))
}

/// What is noted of a file holds what is known of it, by name.
pub proof fn a_file_is_noted(
    f: FileFacts,
    mime: Seq<char>,
    kind: Seq<char>,
    s: StructuralFingerprint,
    chunks: nat,
    neural: bool,
)
    ensures
        ({
            let v = file_metadata(f, mime, kind, s, chunks, neural);
            &&& notes(v, "path"@, JsonV::Text(f.path@))
            &&& f.extension matches Some(e) ==> notes(v, "extension"@, JsonV::Text(e@))
            &&& notes(v, "size_bytes"@, JsonV::Num(Number::Unsigned(f.size)))
            &&& notes(v, "size_human"@, JsonV::Text(f.size_human@))
            &&& f.modified matches Some(t) ==> notes(v, "modified"@, JsonV::Text(t@))
            &&& f.created matches Some(t) ==> notes(v, "created"@, JsonV::Text(t@))
            &&& notes(v, "path_depth"@, JsonV::Num(Number::Unsigned(f.depth as u64)))
            &&& f.parent matches Some(p) ==> notes(
                v,
                "parent_folders"@,
                JsonV::Text(folder_names(text::views(p@))),
            )
            &&& notes(v, "mime_type"@, JsonV::Text(mime))
            &&& notes(v, "file_type"@, JsonV::Text(kind))
            &&& notes(v, "line_count"@, JsonV::Num(Number::Unsigned(s.line_count as u64)))
            &&& notes(v, "symbol_count"@, JsonV::Num(Number::Unsigned(s.symbol_count as u64)))
            &&& notes(
                v,
                "cyclomatic_complexity"@,
                JsonV::Num(Number::Unsigned(s.cyclomatic_complexity as u64)),
            )
            &&& notes(v, "chunk_count"@, JsonV::Num(Number::Unsigned(chunks as u64)))
            &&& neural ==> notes(v, "indexing_mode"@, JsonV::Text("neural"@))
            &&& !neural ==> notes(v, "indexing_mode"@, JsonV::Text("hash"@))
        }),
{
    let m = file_metadata(f, mime, kind, s, chunks, neural)->Object_0;
    assert(m.contains(m[0]) && m.contains(m[1]) && m.contains(m[2]) && m.contains(m[3])
        && m.contains(m[4]) && m.contains(m[5]) && m.contains(m[6]) && m.contains(m[7])
        && m.contains(m[8]) && m.contains(m[9]) && m.contains(m[10]) && m.contains(m[11])
        && m.contains(m[12]) && m.contains(m[13]) && m.contains(m[14]));
}

/// The facts about a file tell its kind, its media type, its place and its measures,
/// and what it takes in.
pub proof fn facts_tell_of_a_file(
    f: FileFacts,
    mime: Seq<char>,
    kind: Seq<char>,
    s: StructuralFingerprint,
    chunks: nat,
)
    ensures
        ({
            let k = key_facts(f, mime, kind, s, chunks);
            &&& k.contains("File type: "@ + kind)
            &&& k.contains("MIME type: "@ + mime)
            &&& k.contains("Path depth: "@ + text::decimal(f.depth as nat))
            &&& s.line_count > 0 ==> k.contains(
                "Line count: "@ + text::decimal(s.line_count as nat),
            )
            &&& s.symbol_count > 0 ==> k.contains(
                "Symbol count: "@ + text::decimal(s.symbol_count as nat),
            )
            &&& k.contains("Chunk fingerprints: "@ + text::decimal(chunks))
            &&& k.contains(
                "Approx cyclomatic complexity: "@ + text::decimal(s.cyclomatic_complexity as nat),
            )
            &&& s.imports@.len() > 0 ==> k.contains(
                "Imports: "@ + text::join(text::views(s.imports@), ", "@),
            )
        }),
{
    let k = key_facts(f, mime, kind, s, chunks);
    let a = if s.line_count > 0 {
        1int
    } else {
        0
    };
    let b = if s.symbol_count > 0 {
        1int
    } else {
        0
    };
    assert(k[0] == "File type: "@ + kind);
    assert(k[1] == "MIME type: "@ + mime);
    assert(k[2] == "Path depth: "@ + text::decimal(f.depth as nat));
    if a == 1 {
        assert(k[4] == "Line count: "@ + text::decimal(s.line_count as nat));
    }
    if b == 1 {
        assert(k[4 + a] == "Symbol count: "@ + text::decimal(s.symbol_count as nat));
    }
    assert(k[4 + a + b] == "Chunk fingerprints: "@ + text::decimal(chunks));
    assert(k[5 + a + b] == "Approx cyclomatic complexity: "@ + text::decimal(
        s.cyclomatic_complexity as nat,
    ));
    if s.imports@.len() > 0 {
        assert(k[6 + a + b] == "Imports: "@ + text::join(text::views(s.imports@), ", "@));
    }
}

/// The summary of a file tells its kind, its path, its size and its media type.
pub proof fn a_summary_tells_of_a_file(f: FileFacts, mime: Seq<char>, kind: Seq<char>)
    ensures
        ({
            let s = metadata_summary(f, mime, kind);
            &&& text::begins(s, "Type: "@ + kind + "\nPath: "@ + f.path@ + "\nExtension: "@)
            &&& text::ends(s, "\nMIME type: "@ + mime)
            &&& text::occurs(s, "\nSize: "@ + f.size_human@ + "\nModified: "@)
            &&& text::occurs(s, "\nPath depth: "@ + text::decimal(f.depth as nat))
        }),
{
    let s = metadata_summary(f, mime, kind);
    let head = "Type: "@ + kind + "\nPath: "@ + f.path@ + "\nExtension: "@;
    assert(s.subrange(0, head.len() as int) =~= head);
    let tail = "\nMIME type: "@ + mime;
    assert(s.subrange(s.len() - tail.len(), s.len() as int) =~= tail);
    let ext = crate::indexer::notes::ending(f);
    let shown = if ext.len() == 0 {
        "none"@
    } else {
        ext
    };
    let a = head + shown;
    let size = "\nSize: "@ + f.size_human@ + "\nModified: "@;
    assert(s.subrange(a.len() as int, (a + size).len() as int) =~= size);
    stands_at(s, size, a.len() as int);
    let modified = crate::indexer::notes::known(text_view(f.modified), "unknown"@);
    let created = crate::indexer::notes::known(text_view(f.created), "unknown"@);
    let b = a + size + modified + "\nCreated: "@ + created;
    let depth = "\nPath depth: "@ + text::decimal(f.depth as nat);
    assert(s.subrange(b.len() as int, (b + depth).len() as int) =~= depth);
    stands_at(s, depth, b.len() as int);
}

/// The structure of a text is told with its first twelve symbols and imports and all
/// its comments.
pub proof fn a_structure_is_told(s: StructuralFingerprint)
    ensures
        ({
            let t = structure_summary(s, true);
            let symbols = text::views(s.symbols@);
            &&& text::begins(t, "Lines: "@ + text::decimal(s.line_count as nat) + "\nSymbols: "@)
            &&& 0 < symbols.len() <= 12 ==> text::begins(
                t,
                "Lines: "@ + text::decimal(s.line_count as nat) + "\nSymbols: "@ + text::join(
                    symbols,
                    ", "@,
                ) + "\nImports: "@,
            )
            &&& symbols.len() > 12 ==> text::begins(
                t,
                "Lines: "@ + text::decimal(s.line_count as nat) + "\nSymbols: "@ + text::join(
                    symbols.take(12),
                    ", "@,
                ) + "\nImports: "@,
            )
        }),
{
    let t = structure_summary(s, true);
    let symbols = text::views(s.symbols@);
    let a = "Lines: "@ + text::decimal(s.line_count as nat) + "\nSymbols: "@;
    assert(t.subrange(0, a.len() as int) =~= a);
    if symbols.len() > 0 {
        let shown = if symbols.len() <= 12 {
            symbols
        } else {
            symbols.take(12)
        };
        assert(symbols.len() == 12 ==> symbols.take(12) =~= symbols);
        let b = a + text::join(shown, ", "@) + "\nImports: "@;
        assert(t.subrange(0, b.len() as int) =~= b);
    }
}

/// What is kept of a text file: its start as an excerpt, its first imports as
/// dependencies, and for each of its chunks a text to find it by.
pub proof fn a_text_file_is_kept(e: FileEntry, f: FileFacts, bytes: Seq<u8>, neural: bool)
    requires
        is_entry(e, f, bytes, neural),
    ensures
        bytes.len() <= 512 * 1024 && vstd::utf8::valid_utf8(bytes) ==> ({
            let c = vstd::utf8::decode_utf8(bytes);
            &&& e.excerpt matches Some(x) && x@ == (if text::trim(c).len() <= 1200 {
                text::trim(c)
            } else {
                text::trim(c).take(1200)
            })
            &&& text::views(e.todos@) == todos_in(text::lines(c), text::lines(c).len())
            &&& e.chunks@.len() == crate::indexer::structure::chunks(c).len()
            &&& e.fact_texts@.len() == e.chunks@.len()
        }),
        bytes.len() > 512 * 1024 || !vstd::utf8::valid_utf8(bytes) ==> e.excerpt is None && e.chunks@.len() == 0
            && e.dependencies@.len() == 0,
        e.dependencies@.len() <= 24,
        f.file_name matches Some(n) ==> e.title@ == n@,
        e.summary_text@ == e.summary@ + "\n"@ + e.structure@,
{
    let (s, l) = choose|s: StructuralFingerprint, l: Seq<
        crate::indexer::structure::ChunkFingerprint,
    >| #[trigger]
        is_entry_of(e, f, bytes, neural, s, l) && (match content_of(bytes) {
            Some(c) => crate::indexer::structure::is_structure(c, s)
                && crate::indexer::structure::chunk_views(l) == crate::indexer::structure::chunks(
                c,
            ),
            None => crate::indexer::structure::is_blank_structure(s) && l.len() == 0,
        });
    assert(text::views(e.dependencies@).len() == e.dependencies@.len());
    assert(text::views(s.imports@).len() == s.imports@.len());
    assert(crate::indexer::file_indexer::node_views(e.chunks@).len() == e.chunks@.len());
    assert(text::views(e.fact_texts@).len() == e.fact_texts@.len());
}

/// A chunk is kept with its place in the file and a text to find it by.
pub proof fn a_chunk_is_kept(
    name: Seq<char>,
    c: ChunkV,
    index: nat,
    line_count: nat,
    id: Seq<char>,
    path: Seq<char>,
)
    ensures
        ({
            let n = chunk_node(name, c, index, line_count);
            let v = chunk_metadata(n, id, path);
            &&& n.index == index
            &&& n.line_start == 32 * index
            &&& line_count >= 32 * index + 32 ==> n.line_end == n.line_start + 32
            &&& line_count < 32 * index + 32 ==> n.line_end == line_count
            &&& n.content == c.content
            &&& n.summary == c.summary
            &&& n.embed_text == name + " | "@ + c.summary + "\n"@ + c.content
            &&& notes(v, "parent_file_id"@, JsonV::Text(id))
            &&& notes(v, "parent_path"@, JsonV::Text(path))
            &&& notes(v, "chunk_index"@, JsonV::Num(Number::Unsigned(n.index as u64)))
            &&& notes(v, "line_start"@, JsonV::Num(Number::Unsigned(n.line_start as u64)))
            &&& notes(v, "line_end"@, JsonV::Num(Number::Unsigned(n.line_end as u64)))
            &&& notes(v, "content"@, JsonV::Text(c.content))
        }),
{
    let n = chunk_node(name, c, index, line_count);
    let m = chunk_metadata(n, id, path)->Object_0;
    assert(m.contains(m[0]) && m.contains(m[1]) && m.contains(m[2]) && m.contains(m[3])
        && m.contains(m[4]) && m.contains(m[5]));
}

/// The node that stands for a path is found, wherever it is among others, and none
/// where there is none.
pub proof fn a_file_is_found_by_its_path(nodes: Seq<KnownNode>, path: Seq<char>)
    ensures
        match file_among(nodes, path) {
            Some(id) => exists|i: int|
                0 <= i < nodes.len() && (#[trigger] nodes[i]).id@ == id && is_at_path(
                    nodes[i].metadata,
                    path,
                ) && forall|j: int|
                    0 <= j < i ==> !is_at_path((#[trigger] nodes[j]).metadata, path),
            None => forall|j: int|
                0 <= j < nodes.len() ==> !is_at_path((#[trigger] nodes[j]).metadata, path),
        },
        forall|m: Json|
            is_at_path(Some(m), path) <==> #[trigger] m@.get("path"@) == Some(JsonV::Text(path)),
        !is_at_path(None, path),
    decreases nodes.len(),
{
    if nodes.len() > 0 && !is_at_path(nodes[0].metadata, path) {
        let rest = nodes.skip(1);
        a_file_is_found_by_its_path(rest, path);
        match file_among(rest, path) {
            Some(id) => {
                let i = choose|i: int|
                    0 <= i < rest.len() && (#[trigger] rest[i]).id@ == id && is_at_path(
                        rest[i].metadata,
                        path,
                    ) && forall|j: int|
                        0 <= j < i ==> !is_at_path((#[trigger] rest[j]).metadata, path);
                assert(nodes[i + 1] == rest[i]);
                assert forall|j: int| 0 <= j < i + 1 implies !is_at_path(
                    (#[trigger] nodes[j]).metadata,
                    path,
                ) by {
                    if j > 0 {
                        assert(nodes[j] == rest[j - 1]);
                    }
                }
            },
            None => {
                assert forall|j: int| 0 <= j < nodes.len() implies !is_at_path(
                    (#[trigger] nodes[j]).metadata,
                    path,
                ) by {
                    if j > 0 {
                        assert(nodes[j] == rest[j - 1]);
                    }
                }
            },
        }
    } else if nodes.len() > 0 {
        assert(nodes[0].id@ == file_among(nodes, path)->0);
    }
}

/// The node of a dependency is found by its name, in capitals or not.
pub proof fn a_dependency_is_found_by_its_name(nodes: Seq<KnownNode>, name: Seq<char>)
    ensures
        match dependency_among(nodes, name) {
            Some(id) => exists|i: int|
                0 <= i < nodes.len() && (#[trigger] nodes[i]).id@ == id && text::lower(
                    nodes[i].title@,
                ) == text::lower(name) && forall|j: int|
                    0 <= j < i ==> text::lower((#[trigger] nodes[j]).title@) != text::lower(name),
            None => forall|j: int|
                0 <= j < nodes.len() ==> text::lower((#[trigger] nodes[j]).title@) != text::lower(
                    name,
                ),
        },
    decreases nodes.len(),
{
    if nodes.len() > 0 && text::lower(nodes[0].title@) != text::lower(name) {
        let rest = nodes.skip(1);
        a_dependency_is_found_by_its_name(rest, name);
        match dependency_among(rest, name) {
            Some(id) => {
                let i = choose|i: int|
                    0 <= i < rest.len() && (#[trigger] rest[i]).id@ == id && text::lower(
                        rest[i].title@,
                    ) == text::lower(name) && forall|j: int|
                        0 <= j < i ==> text::lower((#[trigger] rest[j]).title@) != text::lower(
                            name,
                        );
                assert(nodes[i + 1] == rest[i]);
                assert forall|j: int| 0 <= j < i + 1 implies text::lower(
                    (#[trigger] nodes[j]).title@,
                ) != text::lower(name) by {
                    if j > 0 {
                        assert(nodes[j] == rest[j - 1]);
                    }
                }
            },
            None => {
                assert forall|j: int| 0 <= j < nodes.len() implies text::lower(
                    (#[trigger] nodes[j]).title@,
                ) != text::lower(name) by {
                    if j > 0 {
                        assert(nodes[j] == rest[j - 1]);
                    }
                }
            },
        }
    } else if nodes.len() > 0 {
        assert(nodes[0].id@ == dependency_among(nodes, name)->0);
    }
}

/// A walk drops only directories that are passed over, and those only from its end.
pub proof fn a_walk_drops_only_what_is_passed_over(pending: Seq<Place>)
    ensures
        settled(pending).len() <= pending.len(),
        settled(pending) == pending.take(settled(pending).len() as int),
        forall|i: int|
            settled(pending).len() <= i < pending.len() ==> place_skipped(#[trigger] pending[i]),
        settled(pending).len() > 0 ==> !place_skipped(settled(pending).last()),
    decreases pending.len(),
{
    if pending.len() > 0 && place_skipped(pending.last()) {
        a_walk_drops_only_what_is_passed_over(pending.drop_last());
        assert(settled(pending) =~= pending.take(settled(pending).len() as int));
        assert forall|i: int| settled(pending).len() <= i < pending.len() implies place_skipped(
            #[trigger] pending[i],
        ) by {
            if i < pending.len() - 1 {
                assert(pending[i] == pending.drop_last()[i]);
            }
        }
    } else {
        assert(pending.take(pending.len() as int) =~= pending);
    }
}

/// A chunk is labelled by its first line that is not blank, and numbered from one
/// where it has none.
pub proof fn chunks_are_labelled(name: Seq<char>, content: Seq<char>, index: nat)
    ensures
        ({
            let first = crate::indexer::structure::first_inked(text::lines(content));
            let shown = if first.len() <= 60 {
                first
            } else {
                first.take(60)
            };
            chunk_label(name, content, index) == (if text::blank(shown) {
                name + " chunk "@ + text::decimal(index + 1)
            } else {
                shown
            })
        }),
{
}

proof fn inked_up_to(lines: Seq<Seq<char>>, n: nat)
    requires
        n <= lines.len(),
    ensures
        ({
            let all = lines.take(n as int).filter(|l: Seq<char>| !text::blank(l));
            inked_lines(lines, n) == (if all.len() <= 12 {
                all
            } else {
                all.take(12)
            })
        }),
    decreases n,
{
    reveal(Seq::filter);
    let p = |l: Seq<char>| !text::blank(l);
    let part = lines.take(n as int);
    if n > 0 {
        inked_up_to(lines, (n - 1) as nat);
        let before = lines.take(n - 1).filter(p);
        assert(part.drop_last() =~= lines.take(n - 1));
        let all = part.filter(p);
        assert(inked_lines(lines, n) =~= if all.len() <= 12 {
            all
        } else {
            all.take(12)
        });
    } else {
        assert(inked_lines(lines, n) =~= part.filter(p));
    }
}

/// The summary of a page is made of its first twelve lines that are not blank.
pub proof fn a_page_is_summed_up_by_its_first_lines(content: Seq<char>)
    ensures
        ({
            let all = text::lines(content).filter(|l: Seq<char>| !text::blank(l));
            crate::indexer::browser_indexer::page_summary(content) == text::join(
                if all.len() <= 12 {
                    all
                } else {
                    all.take(12)
                },
                " "@,
            )
        }),
{
    let lines = text::lines(content);
    inked_up_to(lines, lines.len());
    assert(lines.take(lines.len() as int) =~= lines);
}

/// The windows that can be told are told in order, and no others.
pub proof fn windows_are_told_in_order(values: Seq<Option<Json>>, n: nat)
    requires
        n <= values.len(),
    ensures
        told(values, n) == values.take(n as int).filter(|v: Option<Json>| v is Some).map_values(
            |v: Option<Json>| v->0@,
        ),
    decreases n,
{
    reveal(Seq::filter);
    let p = |v: Option<Json>| v is Some;
    let part = values.take(n as int);
    if n > 0 {
        windows_are_told_in_order(values, (n - 1) as nat);
        assert(part.drop_last() =~= values.take(n - 1));
    }
    assert(told(values, n) =~= part.filter(p).map_values(|v: Option<Json>| v->0@));
}

} // verus!
