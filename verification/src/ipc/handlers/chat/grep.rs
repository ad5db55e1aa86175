//! Searching the files below a directory for a regular expression.

use crate::outside;
use crate::text;
use vstd::prelude::*;

verus! {

/// The largest file that is searched, in bytes.
pub const MAX_FILE_BYTES: u64 = 4_194_304;

/// How deep files are searched below the directory that the search begins at.
pub const MAX_DEPTH: usize = 16;

/// How much of a line is shown, in bytes.
pub const MAX_LINE_BYTES: usize = 240;

pub const NO_MATCHES: &'static str = "(no matches)";

/// The directories that are not searched.
pub open spec fn ignored_dirs() -> Seq<Seq<char>> {
    seq![
        ".git"@,
        "node_modules"@,
        "target"@,
        "dist"@,
        "build"@,
        ".next"@,
        ".cache"@,
        "__pycache__"@,
        ".venv"@,
        "venv"@,
        ".idea"@,
        ".vscode"@,
    ]
}

/// Whether what has a name is not searched.
pub fn is_ignored(name: &str) -> (r: bool)
    ensures
        r == ignored_dirs().contains(name@),
{
    let dirs = [
        ".git",
        "node_modules",
        "target",
        "dist",
        "build",
        ".next",
        ".cache",
        "__pycache__",
        ".venv",
        "venv",
        ".idea",
        ".vscode",
    ];
    assert(text::slice_views(dirs@) =~= ignored_dirs());
    text::one_of(name, &dirs)
}

/// A walk comes to what lies at the end of a way: `way` are the names on it, from
/// that of the directory the search begins at on. It is not too long, and leads
/// through nothing that is not searched.
pub open spec fn is_walked(way: Seq<Seq<char>>) -> bool {
    &&& way.len() <= MAX_DEPTH + 1
    &&& forall|i: int| 0 <= i < way.len() ==> !ignored_dirs().contains(#[trigger] way[i])
}

/// Whether a walk comes to what lies at the end of a way.
pub fn is_reached(way: &Vec<String>) -> (r: bool)
    ensures
        r == is_walked(text::views(way@)),
{
    let ghost all = text::views(way@);
    assert(all.len() == way@.len());
    if way.len() > MAX_DEPTH + 1 {
        return false;
    }
    for i in 0..way.len()
        invariant
            all == text::views(way@),
            forall|k: int| 0 <= k < i ==> !ignored_dirs().contains(#[trigger] all[k]),
    {
        assert(all[i as int] == way@[i as int]@);
        if is_ignored(&way[i]) {
            return false;
        }
    }
    true
}

/// A character with a meaning in a regular expression but none in a glob.
pub open spec fn is_special(c: char) -> bool {
    c == '(' || c == ')' || c == '[' || c == ']' || c == '{' || c == '}' || c == '+' || c == '|'
        || c == '^' || c == '$' || c == '\\'
}

/// A character of a glob as a regular expression.
pub open spec fn glob_char(c: char) -> Seq<char> {
    if c == '*' {
        ".*"@
    } else if c == '?' {
        "."@
    } else if c == '.' {
        "\\."@
    } else if is_special(c) {
        seq!['\\', c]
    } else {
        seq![c]
    }
}

/// The characters of a glob as a regular expression.
pub open spec fn glob_chars(glob: Seq<char>) -> Seq<char>
    decreases glob.len(),
{
    if glob.len() == 0 {
        Seq::empty()
    } else {
        glob_chars(glob.drop_last()) + glob_char(glob.last())
    }
}

/// The regular expression for the names that a glob stands for.
pub open spec fn glob_pattern(glob: Seq<char>) -> Seq<char> {
    "^"@ + glob_chars(glob) + "$"@
}

/// The regular expression for the names that a glob stands for: a star is any
/// text, a question mark any character, and all else itself.
pub fn glob_to_pattern(glob: &str) -> (r: String)
    ensures
        r@ == glob_pattern(glob@),
{
    let v = text::to_chars(glob);
    let mut out = "^".to_owned();
    assert(v@.take(0) =~= Seq::empty());
    assert(out@ + glob_chars(v@.take(0)) =~= out@);
    for i in 0..v.len()
        invariant
            out@ == "^"@ + glob_chars(v@.take(i as int)),
    {
        let ghost before = out@;
        let c = v[i];
        if c == '*' {
            out.append(".*");
        } else if c == '?' {
            out.append(".");
        } else if c == '.' {
            out.append("\\.");
        } else if c == '(' || c == ')' || c == '[' || c == ']' || c == '{' || c == '}' || c == '+'
            || c == '|' || c == '^' || c == '$' || c == '\\' {
            out.push('\\');
            out.push(c);
        } else {
            out.push(c);
        }
        assert(out@ =~= before + glob_char(c));
        assert(v@.take(i + 1).drop_last() =~= v@.take(i as int));
        assert(out@ =~= "^"@ + glob_chars(v@.take(i + 1)));
    }
    assert(v@.take(v@.len() as int) =~= v@);
    out.append("$");
    out
}

/// A line as it is shown, if its cut does not fall inside a character.
pub open spec fn snippet(line: Seq<char>) -> Option<Seq<char>> {
    if text::byte_count(line) > MAX_LINE_BYTES {
        match text::byte_cut(line, MAX_LINE_BYTES as int) {
            Some(t) => Some(t + "..."@),
            None => None,
        }
    } else {
        Some(line)
    }
}

fn make_snippet(line: &str) -> (r: Option<String>)
    ensures
        match r {
            Some(s) => snippet(line@) == Some(s@),
            None => snippet(line@) is None,
        },
{
    if text::byte_len(line) > MAX_LINE_BYTES {
        match text::cut_at_byte(line, MAX_LINE_BYTES) {
            Some(mut t) => {
                t.append("...");
                Some(t)
            },
            None => None,
        }
    } else {
        Some(line.to_owned())
    }
}

/// What a search has found.
#[verifier::ext_equal]
pub struct Found {
    /// The files with a match.
    pub files: Seq<Seq<char>>,
    /// The lines with a match, as they are shown.
    pub lines: Seq<Seq<char>>,
    /// How many lines of each file match.
    pub counts: Seq<(Seq<char>, nat)>,
    /// How many lines match.
    pub total: nat,
    /// Enough was found.
    pub stopped: bool,
}

/// How many of the first `n` lines match.
pub open spec fn hit_count(hits: Seq<bool>, n: nat) -> nat
    decreases n,
{
    if n == 0 {
        0
    } else {
        hit_count(hits, (n - 1) as nat) + (if hits[n - 1] {
            1nat
        } else {
            0
        })
    }
}

proof fn hit_count_bound(hits: Seq<bool>, n: nat)
    ensures
        hit_count(hits, n) <= n,
    decreases n,
{
    if n > 0 {
        hit_count_bound(hits, (n - 1) as nat);
    }
}

/// The lines that are shown after the first `n` lines of a file: those that
/// match, as long as there is room. No answer where one cannot be cut.
pub open spec fn shown(
    before: Seq<Seq<char>>,
    path: Seq<char>,
    lines: Seq<Seq<char>>,
    hits: Seq<bool>,
    max: nat,
    n: nat,
) -> Option<Seq<Seq<char>>>
    decreases n,
{
    if n == 0 {
        Some(before)
    } else {
        match shown(before, path, lines, hits, max, (n - 1) as nat) {
            None => None,
            Some(l) => if hits[n - 1] && l.len() < max {
                match snippet(lines[n - 1]) {
                    Some(s) => Some(l.push(path + ":"@ + text::decimal(n) + ":"@ + s)),
                    None => None,
                }
            } else {
                Some(l)
            },
        }
    }
}

/// What a search has found after one more file, of whose lines `hits` tells
/// which match.
pub open spec fn searched(
    f: Found,
    mode: Seq<char>,
    max: nat,
    path: Seq<char>,
    lines: Seq<Seq<char>>,
    hits: Seq<bool>,
) -> Option<Found> {
    let n = hit_count(hits, lines.len());
    let l = if mode == "content"@ {
        shown(f.lines, path, lines, hits, max, lines.len())
    } else {
        Some(f.lines)
    };
    if f.stopped {
        Some(f)
    } else {
        match l {
            None => None,
            Some(shown_lines) => Some(
                Found {
                    files: if n > 0 && mode == "files"@ && f.files.len() < max {
                        f.files.push(path)
                    } else {
                        f.files
                    },
                    lines: shown_lines,
                    counts: if n > 0 && mode == "count"@ {
                        f.counts.push((path, n))
                    } else {
                        f.counts
                    },
                    total: f.total + n,
                    stopped: f.total + n >= max * 2,
                },
            ),
        }
    }
}

/// The place of a row with `n` matches in a list from many matches to few.
pub open spec fn row_place(rows: Seq<(Seq<char>, nat)>, n: nat) -> nat
    decreases rows.len(),
{
    if rows.len() == 0 || rows[0].1 < n {
        0
    } else {
        1 + row_place(rows.skip(1), n)
    }
}

/// The rows from many matches to few; rows with as many stay in order.
pub open spec fn by_count(rows: Seq<(Seq<char>, nat)>) -> Seq<(Seq<char>, nat)>
    decreases rows.len(),
{
    if rows.len() == 0 {
        Seq::empty()
    } else {
        let before = by_count(rows.drop_last());
        before.insert(row_place(before, rows.last().1) as int, rows.last())
    }
}

proof fn row_place_bounds(rows: Seq<(Seq<char>, nat)>, n: nat)
    ensures
        row_place(rows, n) <= rows.len(),
        forall|i: int| 0 <= i < row_place(rows, n) ==> (#[trigger] rows[i]).1 >= n,
        row_place(rows, n) < rows.len() ==> rows[row_place(rows, n) as int].1 < n,
    decreases rows.len(),
{
    if rows.len() > 0 && rows[0].1 >= n {
        row_place_bounds(rows.skip(1), n);
        assert forall|i: int| 0 <= i < row_place(rows, n) implies (#[trigger] rows[i]).1 >= n by {
            if i > 0 {
                assert(rows[i] == rows.skip(1)[i - 1]);
            }
        }
    }
}

/// Counts come from many to few, and none is lost.
pub proof fn counts_are_sorted(rows: Seq<(Seq<char>, nat)>)
    ensures
        by_count(rows).len() == rows.len(),
        by_count(rows).to_multiset() == rows.to_multiset(),
        forall|i: int, j: int|
            0 <= i < j < rows.len() ==> (#[trigger] by_count(rows)[i]).1 >= (
            #[trigger] by_count(rows)[j]).1,
    decreases rows.len(),
{
    if rows.len() > 0 {
        let before = by_count(rows.drop_last());
        let last = rows.last();
        let p = row_place(before, last.1) as int;
        counts_are_sorted(rows.drop_last());
        row_place_bounds(before, last.1);
        let after = by_count(rows);
        assert(rows =~= rows.drop_last().push(last));
        vstd::seq_lib::to_multiset_insert(before, p, last);
        vstd::seq_lib::to_multiset_build(rows.drop_last(), last);
        assert forall|i: int, j: int| 0 <= i < j < rows.len() implies (#[trigger] after[i]).1 >= (
        #[trigger] after[j]).1 by {
            let a = if i < p {
                i
            } else {
                i - 1
            };
            let b = if j < p {
                j
            } else {
                j - 1
            };
            if i != p && j != p {
                assert(before[a].1 >= before[b].1);
            } else if i == p {
                if b > p {
                    assert(before[p].1 >= before[b].1);
                }
            }
        }
    } else {
        assert(rows =~= by_count(rows));
    }
}

/// The rows of a list as text.
pub open spec fn row_text(r: (Seq<char>, nat)) -> Seq<char> {
    r.0 + ": "@ + text::decimal(r.1)
}

/// The first rows of a list.
pub open spec fn first_rows(rows: Seq<(Seq<char>, nat)>, max: nat) -> Seq<(Seq<char>, nat)> {
    if rows.len() <= max {
        rows
    } else {
        rows.take(max as int)
    }
}

/// The answer to a search.
pub open spec fn answer(f: Found, mode: Seq<char>, max: nat) -> Seq<char> {
    if mode == "files"@ {
        if f.files.len() == 0 {
            NO_MATCHES@
        } else {
            text::decimal(f.files.len()) + " file(s) matched:\n"@ + text::join(f.files, "\n"@)
        }
    } else if mode == "content"@ {
        if f.lines.len() == 0 {
            NO_MATCHES@
        } else {
            let all = text::decimal(f.lines.len()) + " match(es):\n"@ + text::join(f.lines, "\n"@);
            if f.total > f.lines.len() {
                all + "\n... ("@ + text::decimal((f.total - f.lines.len()) as nat)
                    + " more not shown)"@
            } else {
                all
            }
        }
    } else if mode == "count"@ {
        if f.counts.len() == 0 {
            NO_MATCHES@
        } else {
            text::join(
                first_rows(by_count(f.counts), max).map_values(
                    |r: (Seq<char>, nat)| row_text(r),
                ),
                "\n"@,
            )
        }
    } else {
        "Unknown output mode: "@ + mode
    }
}

/// Before a search nothing is found.
pub open spec fn nothing_found() -> Found {
    Found {
        files: Seq::empty(),
        lines: Seq::empty(),
        counts: Seq::empty(),
        total: 0,
        stopped: false,
    }
}

/// The regular expression that the names of the files must match for a glob;
/// none where there is no glob, or none that can be compiled.
pub open spec fn name_filter(glob: Seq<char>) -> Option<Seq<char>> {
    if glob.len() == 0 || outside::regex_problem(glob_pattern(glob), false) is Some {
        None
    } else {
        Some(glob_pattern(glob))
    }
}

/// A file is searched, by its name and its size, if that is known.
pub open spec fn wanted(names: Option<Seq<char>>, name: Seq<char>, size: Option<u64>) -> bool {
    (match names {
        Some(g) => outside::regex_matches(g, false, name),
        None => true,
    }) && (match size {
        Some(n) => n <= MAX_FILE_BYTES,
        None => true,
    })
}

/// A file below the directory that a search begins at.
#[derive(Debug)]
pub struct WalkedFile {
    pub path: String,
    /// The names on the way to it, from that of the directory on, and its own.
    pub way: Vec<String>,
    pub name: String,
    pub size: Option<u64>,
    /// What it holds, if it can be read as text.
    pub content: Option<String>,
}

/// What a search is for.
pub struct SearchV {
    pub pattern: Seq<char>,
    pub folds: bool,
    pub names: Option<Seq<char>>,
    pub mode: Seq<char>,
    pub max: nat,
}

/// What a search finds in the files that a walk comes to, one after the other
/// until enough is found. Files that lie too deep or in directories that are not
/// searched are passed over.
pub open spec fn grepped(f: Found, q: SearchV, files: Seq<WalkedFile>) -> Option<Found>
    decreases files.len(),
{
    if files.len() == 0 || f.stopped {
        Some(f)
    } else {
        let file = files[0];
        match file.content {
            Some(c) => if is_walked(text::views(file.way@)) && wanted(
                q.names,
                file.name@,
                file.size,
            ) {
                let lines = text::lines(c@);
                let hits = lines.map_values(
                    |l: Seq<char>| outside::regex_matches(q.pattern, q.folds, l),
                );
                match searched(f, q.mode, q.max, file.path@, lines, hits) {
                    Some(g) => grepped(g, q, files.skip(1)),
                    None => None,
                }
            } else {
                grepped(f, q, files.skip(1))
            },
            None => grepped(f, q, files.skip(1)),
        }
    }
}

/// Searches files and gives the answer. There is none where a line that is to be
/// shown cannot be cut.
pub fn run_builtin_grep(
    files: &Vec<WalkedFile>,
    pattern: &str,
    glob_filter: &str,
    output_mode: &str,
    case_i: bool,
    max_results: usize,
) -> (r: Option<String>)
    ensures
        match outside::regex_problem(pattern@, case_i) {
            Some(p) => r matches Some(e) && e@ == "Error: invalid regex: "@ + p,
            None => {
                let q = SearchV {
                    pattern: pattern@,
                    folds: case_i,
                    names: name_filter(glob_filter@),
                    mode: output_mode@,
                    max: max_results as nat,
                };
                match grepped(nothing_found(), q, files@) {
                    Some(f) => r matches Some(a) && a@ == answer(f, q.mode, q.max),
                    None => r is None,
                }
            },
        },
{
    let mut run = match GrepRun::start(pattern, glob_filter, output_mode, case_i, max_results) {
        Ok(run) => run,
        Err(e) => {
            return Some(e);
        },
    };
    let ghost q = run.search();
    let ghost all = grepped(nothing_found(), q, files@);
    let mut i: usize = 0;
    let mut enough = false;
    assert(files@.skip(0) =~= files@);
    while i < files.len() && !enough
        invariant
            i <= files@.len(),
            outside::regex_problem(pattern@, case_i) is None,
            q == (SearchV {
                pattern: pattern@,
                folds: case_i,
                names: name_filter(glob_filter@),
                mode: output_mode@,
                max: max_results as nat,
            }),
            all == grepped(nothing_found(), q, files@),
            run.search() == q,
            enough == run.found().stopped,
            all == grepped(run.found(), q, files@.skip(i as int)),
        decreases files@.len() - i,
    {
        let file = &files[i];
        assert(files@.skip(i as int)[0] == *file);
        assert(files@.skip(i as int).skip(1) =~= files@.skip(i + 1));
        i = i + 1;
        if let Some(content) = &file.content {
            if is_reached(&file.way) && run.wants(&file.name, file.size) {
                match run.scan(&file.path, content) {
                    Some(stopped) => {
                        enough = stopped;
                    },
                    None => {
                        return None;
                    },
                }
            }
        }
    }
    Some(run.finish())
}

/// A search under way.
pub struct GrepRun {
    re: regex::Regex,
    glob: Option<regex::Regex>,
    mode: String,
    max: usize,
    files: Vec<String>,
    lines: Vec<String>,
    counts: Vec<(String, usize)>,
    total: u128,
    stopped: bool,
}

spec fn count_views(l: Seq<(String, usize)>) -> Seq<(Seq<char>, nat)> {
    l.map_values(|r: (String, usize)| (r.0@, r.1 as nat))
}

impl GrepRun {
    #[verifier::type_invariant]
    spec fn well_formed(self) -> bool {
        &&& self.stopped || self.total <= self.max as u128 * 2
        &&& self.glob matches Some(g) ==> !outside::regex_folds(g)
    }

    /// The pattern that is searched for.
    pub closed spec fn pattern(self) -> Seq<char> {
        outside::regex_pattern(self.re)
    }

    /// Capitals are not told from small letters.
    pub closed spec fn folds(self) -> bool {
        outside::regex_folds(self.re)
    }

    /// The regular expression that the names of the files must match, if any.
    pub closed spec fn name_pattern(self) -> Option<Seq<char>> {
        match self.glob {
            Some(g) => Some(outside::regex_pattern(g)),
            None => None,
        }
    }

    /// What is asked for: files, lines or counts.
    pub closed spec fn mode(self) -> Seq<char> {
        self.mode@
    }

    /// How many results are asked for.
    pub closed spec fn max(self) -> nat {
        self.max as nat
    }

    /// What was found.
    pub closed spec fn found(self) -> Found {
        Found {
            files: text::views(self.files@),
            lines: text::views(self.lines@),
            counts: count_views(self.counts@),
            total: self.total as nat,
            stopped: self.stopped,
        }
    }

    /// What is searched for.
    pub open spec fn search(self) -> SearchV {
        SearchV {
            pattern: self.pattern(),
            folds: self.folds(),
            names: self.name_pattern(),
            mode: self.mode(),
            max: self.max(),
        }
    }

    /// Only what was found differs.
    pub open spec fn same_search(self, other: GrepRun) -> bool {
        &&& self.pattern() == other.pattern()
        &&& self.folds() == other.folds()
        &&& self.name_pattern() == other.name_pattern()
        &&& self.mode() == other.mode()
        &&& self.max() == other.max()
    }

    /// Starts a search, or tells why the pattern cannot be searched for. A glob
    /// that cannot be compiled is passed over.
    pub fn start(
        pattern: &str,
        glob_filter: &str,
        output_mode: &str,
        case_i: bool,
        max_results: usize,
    ) -> (r: Result<GrepRun, String>)
        ensures
            match r {
                Ok(g) => {
                    &&& outside::regex_problem(pattern@, case_i) is None
                    &&& g.pattern() == pattern@
                    &&& g.folds() == case_i
                    &&& g.name_pattern() == name_filter(glob_filter@)
                    &&& g.mode() == output_mode@
                    &&& g.max() == max_results
                    &&& g.found() == nothing_found()
                },
                Err(e) => match outside::regex_problem(pattern@, case_i) {
                    Some(p) => e@ == "Error: invalid regex: "@ + p,
                    None => false,
                },
            },
    {
        let re = match outside::regex_compile(pattern, case_i) {
            Ok(re) => re,
            Err(p) => {
                let mut e = "Error: invalid regex: ".to_owned();
                e.append(&p);
                return Err(e);
            },
        };
        let glob = if glob_filter.is_empty() {
            None
        } else {
            match outside::regex_compile(&glob_to_pattern(glob_filter), false) {
                Ok(g) => Some(g),
                Err(_) => None,
            }
        };
        let g = GrepRun {
            re,
            glob,
            mode: output_mode.to_owned(),
            max: max_results,
            files: Vec::new(),
            lines: Vec::new(),
            counts: Vec::new(),
            total: 0,
            stopped: false,
        };
        assert(g.found() =~= nothing_found());
        Ok(g)
    }

    /// Whether a file is searched, by its name and its size, if that is known.
    pub fn wants(&self, file_name: &str, size: Option<u64>) -> (r: bool)
        ensures
            r == wanted(self.name_pattern(), file_name@, size),
    {
        proof {
            use_type_invariant(self);
        }
        let named = match &self.glob {
            Some(g) => outside::regex_is_match(g, file_name),
            None => true,
        };
        let small = match size {
            Some(n) => n <= MAX_FILE_BYTES,
            None => true,
        };
        named && small
    }

    /// Which of the lines of a file match.
    fn matches(&self, lines: &Vec<String>) -> (r: Vec<bool>)
        ensures
            r@.len() == lines@.len(),
            forall|i: int|
                0 <= i < r@.len() ==> #[trigger] r@[i] == outside::regex_matches(
                    self.pattern(),
                    self.folds(),
                    lines@[i]@,
                ),
    {
        let mut out: Vec<bool> = Vec::new();
        for i in 0..lines.len()
            invariant
                out@.len() == i,
                forall|j: int|
                    0 <= j < i ==> #[trigger] out@[j] == outside::regex_matches(
                        self.pattern(),
                        self.folds(),
                        lines@[j]@,
                    ),
        {
            out.push(outside::regex_is_match(&self.re, &lines[i]));
        }
        out
    }

    /// Takes in which lines of a file match. Afterwards the search goes on
    /// unless it tells that it stopped; there is no answer where a line that
    /// is to be shown cannot be cut.
    pub fn note_file(&mut self, path: &str, lines: &Vec<String>, hits: &Vec<bool>) -> (r: Option<
        bool,
    >)
        requires
            lines@.len() == hits@.len(),
        ensures
            final(self).same_search(*old(self)),
            match r {
                Some(stopped) => {
                    &&& searched(
                        old(self).found(),
                        old(self).mode(),
                        old(self).max(),
                        path@,
                        text::views(lines@),
                        hits@,
                    ) == Some(final(self).found())
                    &&& stopped == final(self).found().stopped
                },
                None => {
                    &&& searched(
                        old(self).found(),
                        old(self).mode(),
                        old(self).max(),
                        path@,
                        text::views(lines@),
                        hits@,
                    ) is None
                    &&& *final(self) == *old(self)
                },
            },
    {
        proof {
            use_type_invariant(&*self);
        }
        if self.stopped {
            return Some(true);
        }
        let ghost v = text::views(lines@);
        let by_lines = text::same(&self.mode, "content");
        let mut shown_lines: Vec<String> = Vec::new();
        if by_lines {
            match show_lines(&self.lines, path, lines, hits, self.max) {
                Some(l) => {
                    shown_lines = l;
                },
                None => {
                    return None;
                },
            }
        }
        let n = count_hits(hits);
        let total: u128 = self.total + n as u128;
        let stopped = total >= self.max as u128 * 2;
        let ghost before = self.found();
        self.stopped = true;
        if n > 0 {
            if text::same(&self.mode, "files") {
                if self.files.len() < self.max {
                    let mut files: Vec<String> = Vec::new();
                    std::mem::swap(&mut files, &mut self.files);
                    files.push(path.to_owned());
                    self.files = files;
                    assert(text::views(self.files@) =~= before.files.push(path@));
                }
            } else if text::same(&self.mode, "count") {
                let mut counts: Vec<(String, usize)> = Vec::new();
                std::mem::swap(&mut counts, &mut self.counts);
                counts.push((path.to_owned(), n));
                self.counts = counts;
                assert(count_views(self.counts@) =~= before.counts.push((path@, n as nat)));
            }
        }
        if by_lines {
            self.lines = shown_lines;
        }
        self.total = total;
        self.stopped = stopped;
        proof {
            reveal_strlit("files");
            reveal_strlit("count");
            assert("files"@.len() == 5 && "files"@[0] == 'f');
            assert("count"@[0] == 'c');
            assert(self.found() =~= searched(
                before,
                old(self).mode(),
                old(self).max(),
                path@,
                v,
                hits@,
            )->0);
        }
        Some(stopped)
    }

    /// Searches the content of a file.
    pub fn scan(&mut self, path: &str, content: &str) -> (r: Option<bool>)
        ensures
            final(self).same_search(*old(self)),
            ({
                let lines = text::lines(content@);
                let want = searched(
                    old(self).found(),
                    old(self).mode(),
                    old(self).max(),
                    path@,
                    lines,
                    lines.map_values(
                        |l: Seq<char>|
                            outside::regex_matches(old(self).pattern(), old(self).folds(), l),
                    ),
                );
                match r {
                    Some(stopped) => want == Some(final(self).found()) && stopped
                        == final(self).found().stopped,
                    None => want is None && *final(self) == *old(self),
                }
            }),
    {
        let lines = text::split_lines(content);
        let hits = self.matches(&lines);
        assert(text::views(lines@).len() == lines@.len());
        assert(hits@ =~= text::lines(content@).map_values(
            |l: Seq<char>| outside::regex_matches(self.pattern(), self.folds(), l),
        )) by {
            assert forall|i: int| 0 <= i < hits@.len() implies hits@[i] == outside::regex_matches(
                self.pattern(),
                self.folds(),
                text::lines(content@)[i],
            ) by {
                assert(text::views(lines@)[i] == lines@[i]@);
            }
        }
        self.note_file(path, &lines, &hits)
    }

    /// The answer to the search.
    pub fn finish(&self) -> (r: String)
        ensures
            r@ == answer(self.found(), self.mode(), self.max()),
    {
        assert(text::views(self.files@).len() == self.files@.len());
        assert(text::views(self.lines@).len() == self.lines@.len());
        assert(count_views(self.counts@).len() == self.counts@.len());
        if text::same(&self.mode, "files") {
            if self.files.len() == 0 {
                return NO_MATCHES.to_owned();
            }
            let mut out = text::number(self.files.len() as u64);
            out.append(" file(s) matched:\n");
            out.append(&text::joined(&self.files, "\n"));
            return out;
        }
        if text::same(&self.mode, "content") {
            if self.lines.len() == 0 {
                return NO_MATCHES.to_owned();
            }
            let mut out = text::number(self.lines.len() as u64);
            out.append(" match(es):\n");
            out.append(&text::joined(&self.lines, "\n"));
            if self.total > self.lines.len() as u128 {
                out.append("\n... (");
                out.append(&text::large_number(self.total - self.lines.len() as u128));
                out.append(" more not shown)");
            }
            return out;
        }
        if text::same(&self.mode, "count") {
            if self.counts.len() == 0 {
                return NO_MATCHES.to_owned();
            }
            return join_rows(&sort_rows(&self.counts), self.max);
        }
        let mut out = "Unknown output mode: ".to_owned();
        out.append(&self.mode);
        out
    }
}

fn count_hits(hits: &Vec<bool>) -> (r: usize)
    ensures
        r == hit_count(hits@, hits@.len()),
{
    let mut n: usize = 0;
    for i in 0..hits.len()
        invariant
            n == hit_count(hits@, i as nat),
            n <= i,
    {
        if hits[i] {
            n = n + 1;
        }
    }
    n
}

fn copy_strings(l: &Vec<String>) -> (r: Vec<String>)
    ensures
        r@ == l@,
{
    let mut out: Vec<String> = Vec::new();
    for i in 0..l.len()
        invariant
            out@ == l@.take(i as int),
    {
        out.push(l[i].clone());
        assert(out@ =~= l@.take(i + 1));
    }
    assert(out@ =~= l@);
    out
}

fn show_lines(
    before: &Vec<String>,
    path: &str,
    lines: &Vec<String>,
    hits: &Vec<bool>,
    max: usize,
) -> (r: Option<Vec<String>>)
    requires
        lines@.len() == hits@.len(),
    ensures
        match r {
            Some(l) => shown(
                text::views(before@),
                path@,
                text::views(lines@),
                hits@,
                max as nat,
                lines@.len(),
            ) == Some(text::views(l@)),
            None => shown(
                text::views(before@),
                path@,
                text::views(lines@),
                hits@,
                max as nat,
                lines@.len(),
            ) is None,
        },
{
    broadcast use text::views_push;

    let mut out = copy_strings(before);
    let ghost v = text::views(lines@);
    let ghost b = text::views(before@);
    for i in 0..lines.len()
        invariant
            lines@.len() == hits@.len(),
            v == text::views(lines@),
            b == text::views(before@),
            shown(b, path@, v, hits@, max as nat, i as nat) == Some(text::views(out@)),
    {
        assert(v[i as int] == lines@[i as int]@);
        assert(text::views(out@).len() == out@.len());
        if hits[i] && out.len() < max {
            match make_snippet(&lines[i]) {
                Some(s) => {
                    let mut l = path.to_owned();
                    l.append(":");
                    l.append(&text::number(i as u64 + 1));
                    l.append(":");
                    l.append(&s);
                    out.push(l);
                },
                None => {
                    proof {
                        stays_unshown(b, path@, v, hits@, max as nat, (i + 1) as nat);
                    }
                    return None;
                },
            }
        }
    }
    Some(out)
}

proof fn stays_unshown(
    before: Seq<Seq<char>>,
    path: Seq<char>,
    lines: Seq<Seq<char>>,
    hits: Seq<bool>,
    max: nat,
    n: nat,
)
    requires
        n <= lines.len(),
        shown(before, path, lines, hits, max, n) is None,
    ensures
        shown(before, path, lines, hits, max, lines.len()) is None,
    decreases lines.len() - n,
{
    if n < lines.len() {
        stays_unshown(before, path, lines, hits, max, n + 1);
    }
}

fn sort_rows(rows: &Vec<(String, usize)>) -> (r: Vec<(String, usize)>)
    ensures
        count_views(r@) == by_count(count_views(rows@)),
{
    let ghost all = count_views(rows@);
    let mut out: Vec<(String, usize)> = Vec::new();
    assert(all.take(0) =~= Seq::empty());
    assert(count_views(out@) =~= Seq::empty());
    for i in 0..rows.len()
        invariant
            all == count_views(rows@),
            count_views(out@) == by_count(all.take(i as int)),
    {
        let n: usize = rows[i].1;
        let ghost before = count_views(out@);
        let mut p: usize = 0;
        assert(before.skip(0) =~= before);
        while p < out.len() && out[p].1 >= n
            invariant
                p <= out@.len(),
                before == count_views(out@),
                row_place(before, n as nat) == p + row_place(before.skip(p as int), n as nat),
            decreases out@.len() - p,
        {
            assert(before.skip(p as int)[0] == (out@[p as int].0@, out@[p as int].1 as nat));
            assert(before.skip(p as int).skip(1) =~= before.skip(p + 1));
            p = p + 1;
        }
        proof {
            if p < out@.len() {
                assert(before.skip(p as int)[0] == (out@[p as int].0@, out@[p as int].1 as nat));
            } else {
                assert(before.skip(p as int) =~= Seq::empty());
            }
            assert(all.take(i + 1).drop_last() =~= all.take(i as int));
            assert(all.take(i + 1).last() == (rows@[i as int].0@, n as nat));
        }
        let ghost old_out = out@;
        let row = (rows[i].0.clone(), n);
        out.insert(p, row);
        assert(count_views(out@) =~= before.insert(p as int, (row.0@, n as nat)));
    }
    assert(all.take(all.len() as int) =~= all);
    out
}

fn join_rows(rows: &Vec<(String, usize)>, max: usize) -> (r: String)
    ensures
        r@ == text::join(
            first_rows(count_views(rows@), max as nat).map_values(
                |r: (Seq<char>, nat)| row_text(r),
            ),
            "\n"@,
        ),
{
    broadcast use text::views_push;

    let ghost all = count_views(rows@);
    let ghost want = first_rows(all, max as nat).map_values(|r: (Seq<char>, nat)| row_text(r));
    let n: usize = if rows.len() <= max {
        rows.len()
    } else {
        max
    };
    let mut lines: Vec<String> = Vec::new();
    assert(all.len() == rows@.len());
    for i in 0..n
        invariant
            n <= rows@.len(),
            all == count_views(rows@),
            want == first_rows(all, max as nat).map_values(|r: (Seq<char>, nat)| row_text(r)),
            want.len() == n,
            text::views(lines@) == want.take(i as int),
    {
        let mut l = rows[i].0.clone();
        l.append(": ");
        l.append(&text::number(rows[i].1 as u64));
        assert(all[i as int] == (rows@[i as int].0@, rows@[i as int].1 as nat));
        assert(want[i as int] == l@);
        lines.push(l);
        assert(want.take(i + 1) =~= want.take(i as int).push(l@));
    }
    assert(want.take(want.len() as int) =~= want);
    text::joined(&lines, "\n")
}

} // verus!
