//! What a source file holds: an outline of its symbols, and what it imports.

use crate::outside;
use crate::text;
use vstd::prelude::*;

verus! {

/// How many symbols an outline shows.
pub const MAX_SYMBOLS: usize = 400;

/// The models of a list of labels and patterns.
pub open spec fn pattern_views(l: Seq<(&'static str, &'static str)>) -> Seq<
    (Seq<char>, Seq<char>),
> {
    l.map_values(|p: (&'static str, &'static str)| (p.0@, p.1@))
}

/// The patterns of the symbols of such a file.
pub open spec fn rust_patterns() -> Seq<(Seq<char>, Seq<char>)> {
    seq![
        (
            "fn"@,
            "^\\s*(?:pub\\s+(?:\\([^)]*\\)\\s*)?)?(?:async\\s+)?(?:const\\s+)?(?:unsafe\\s+)?fn\\s+([A-Za-z_][A-Za-z0-9_]*)"@,
        ),
        (
            "struct"@,
            "^\\s*(?:pub\\s+(?:\\([^)]*\\)\\s*)?)?struct\\s+([A-Za-z_][A-Za-z0-9_]*)"@,
        ),
        (
            "enum"@,
            "^\\s*(?:pub\\s+(?:\\([^)]*\\)\\s*)?)?enum\\s+([A-Za-z_][A-Za-z0-9_]*)"@,
        ),
        (
            "trait"@,
            "^\\s*(?:pub\\s+(?:\\([^)]*\\)\\s*)?)?trait\\s+([A-Za-z_][A-Za-z0-9_]*)"@,
        ),
        (
            "impl"@,
            "^\\s*impl(?:<[^>]*>)?\\s+(?:[A-Za-z_][A-Za-z0-9_:<>, ]*\\s+for\\s+)?([A-Za-z_][A-Za-z0-9_]*)"@,
        ),
        (
            "mod"@,
            "^\\s*(?:pub\\s+)?mod\\s+([A-Za-z_][A-Za-z0-9_]*)"@,
        ),
        (
            "use"@,
            "^\\s*(?:pub\\s+)?use\\s+([A-Za-z_][A-Za-z0-9_:*{}, ]*)"@,
        ),
    ]
}

fn rust_table() -> (r: Vec<(&'static str, &'static str)>)
    ensures
        pattern_views(r@) == rust_patterns(),
{
    let mut r: Vec<(&'static str, &'static str)> = Vec::new();
    r.push(
        (
            "fn",
            "^\\s*(?:pub\\s+(?:\\([^)]*\\)\\s*)?)?(?:async\\s+)?(?:const\\s+)?(?:unsafe\\s+)?fn\\s+([A-Za-z_][A-Za-z0-9_]*)",
        ),
    );
    r.push(
        (
            "struct",
            "^\\s*(?:pub\\s+(?:\\([^)]*\\)\\s*)?)?struct\\s+([A-Za-z_][A-Za-z0-9_]*)",
        ),
    );
    r.push(
        (
            "enum",
            "^\\s*(?:pub\\s+(?:\\([^)]*\\)\\s*)?)?enum\\s+([A-Za-z_][A-Za-z0-9_]*)",
        ),
    );
    r.push(
        (
            "trait",
            "^\\s*(?:pub\\s+(?:\\([^)]*\\)\\s*)?)?trait\\s+([A-Za-z_][A-Za-z0-9_]*)",
        ),
    );
    r.push(
        (
            "impl",
            "^\\s*impl(?:<[^>]*>)?\\s+(?:[A-Za-z_][A-Za-z0-9_:<>, ]*\\s+for\\s+)?([A-Za-z_][A-Za-z0-9_]*)",
        ),
    );
    r.push(
        (
            "mod",
            "^\\s*(?:pub\\s+)?mod\\s+([A-Za-z_][A-Za-z0-9_]*)",
        ),
    );
    r.push(
        (
            "use",
            "^\\s*(?:pub\\s+)?use\\s+([A-Za-z_][A-Za-z0-9_:*{}, ]*)",
        ),
    );
    assert(pattern_views(r@) =~= rust_patterns());
    r
}

/// The patterns of the symbols of such a file.
pub open spec fn script_patterns() -> Seq<(Seq<char>, Seq<char>)> {
    seq![
        (
            "fn"@,
            "^\\s*(?:export\\s+(?:default\\s+)?)?(?:async\\s+)?function\\s+([A-Za-z_$][A-Za-z0-9_$]*)"@,
        ),
        (
            "class"@,
            "^\\s*(?:export\\s+(?:default\\s+)?)?class\\s+([A-Za-z_$][A-Za-z0-9_$]*)"@,
        ),
        (
            "const"@,
            "^\\s*(?:export\\s+)?(?:const|let|var)\\s+([A-Za-z_$][A-Za-z0-9_$]*)\\s*="@,
        ),
        (
            "import"@,
            "^\\s*import\\s+(?:.+\\s+from\\s+)?['\"\"](.+)['\"\"]"@,
        ),
    ]
}

fn script_table() -> (r: Vec<(&'static str, &'static str)>)
    ensures
        pattern_views(r@) == script_patterns(),
{
    let mut r: Vec<(&'static str, &'static str)> = Vec::new();
    r.push(
        (
            "fn",
            "^\\s*(?:export\\s+(?:default\\s+)?)?(?:async\\s+)?function\\s+([A-Za-z_$][A-Za-z0-9_$]*)",
        ),
    );
    r.push(
        (
            "class",
            "^\\s*(?:export\\s+(?:default\\s+)?)?class\\s+([A-Za-z_$][A-Za-z0-9_$]*)",
        ),
    );
    r.push(
        (
            "const",
            "^\\s*(?:export\\s+)?(?:const|let|var)\\s+([A-Za-z_$][A-Za-z0-9_$]*)\\s*=",
        ),
    );
    r.push(
        (
            "import",
            "^\\s*import\\s+(?:.+\\s+from\\s+)?['\"\"](.+)['\"\"]",
        ),
    );
    assert(pattern_views(r@) =~= script_patterns());
    r
}

/// The patterns of the symbols of such a file.
pub open spec fn typed_script_patterns() -> Seq<(Seq<char>, Seq<char>)> {
    seq![
        (
            "fn"@,
            "^\\s*(?:export\\s+(?:default\\s+)?)?(?:async\\s+)?function\\s+([A-Za-z_$][A-Za-z0-9_$]*)"@,
        ),
        (
            "class"@,
            "^\\s*(?:export\\s+(?:default\\s+)?)?(?:abstract\\s+)?class\\s+([A-Za-z_$][A-Za-z0-9_$]*)"@,
        ),
        (
            "interface"@,
            "^\\s*(?:export\\s+)?interface\\s+([A-Za-z_$][A-Za-z0-9_$]*)"@,
        ),
        (
            "type"@,
            "^\\s*(?:export\\s+)?type\\s+([A-Za-z_$][A-Za-z0-9_$]*)"@,
        ),
        (
            "const"@,
            "^\\s*(?:export\\s+)?(?:const|let|var)\\s+([A-Za-z_$][A-Za-z0-9_$]*)"@,
        ),
        (
            "import"@,
            "^\\s*import\\s+(?:.+\\s+from\\s+)?['\"\"](.+)['\"\"]"@,
        ),
    ]
}

fn typed_script_table() -> (r: Vec<(&'static str, &'static str)>)
    ensures
        pattern_views(r@) == typed_script_patterns(),
{
    let mut r: Vec<(&'static str, &'static str)> = Vec::new();
    r.push(
        (
            "fn",
            "^\\s*(?:export\\s+(?:default\\s+)?)?(?:async\\s+)?function\\s+([A-Za-z_$][A-Za-z0-9_$]*)",
        ),
    );
    r.push(
        (
            "class",
            "^\\s*(?:export\\s+(?:default\\s+)?)?(?:abstract\\s+)?class\\s+([A-Za-z_$][A-Za-z0-9_$]*)",
        ),
    );
    r.push(
        (
            "interface",
            "^\\s*(?:export\\s+)?interface\\s+([A-Za-z_$][A-Za-z0-9_$]*)",
        ),
    );
    r.push(
        (
            "type",
            "^\\s*(?:export\\s+)?type\\s+([A-Za-z_$][A-Za-z0-9_$]*)",
        ),
    );
    r.push(
        (
            "const",
            "^\\s*(?:export\\s+)?(?:const|let|var)\\s+([A-Za-z_$][A-Za-z0-9_$]*)",
        ),
    );
    r.push(
        (
            "import",
            "^\\s*import\\s+(?:.+\\s+from\\s+)?['\"\"](.+)['\"\"]",
        ),
    );
    assert(pattern_views(r@) =~= typed_script_patterns());
    r
}

/// The patterns of the symbols of such a file.
pub open spec fn python_patterns() -> Seq<(Seq<char>, Seq<char>)> {
    seq![
        (
            "def"@,
            "^\\s*(?:async\\s+)?def\\s+([A-Za-z_][A-Za-z0-9_]*)"@,
        ),
        (
            "class"@,
            "^\\s*class\\s+([A-Za-z_][A-Za-z0-9_]*)"@,
        ),
        (
            "import"@,
            "^\\s*(?:from\\s+([A-Za-z_.][A-Za-z0-9_.]*)\\s+)?import\\s"@,
        ),
    ]
}

fn python_table() -> (r: Vec<(&'static str, &'static str)>)
    ensures
        pattern_views(r@) == python_patterns(),
{
    let mut r: Vec<(&'static str, &'static str)> = Vec::new();
    r.push(
        (
            "def",
            "^\\s*(?:async\\s+)?def\\s+([A-Za-z_][A-Za-z0-9_]*)",
        ),
    );
    r.push(
        (
            "class",
            "^\\s*class\\s+([A-Za-z_][A-Za-z0-9_]*)",
        ),
    );
    r.push(
        (
            "import",
            "^\\s*(?:from\\s+([A-Za-z_.][A-Za-z0-9_.]*)\\s+)?import\\s",
        ),
    );
    assert(pattern_views(r@) =~= python_patterns());
    r
}

/// The patterns of the symbols of such a file.
pub open spec fn go_patterns() -> Seq<(Seq<char>, Seq<char>)> {
    seq![
        (
            "func"@,
            "^\\s*func\\s+(?:\\([^)]+\\)\\s+)?([A-Za-z_][A-Za-z0-9_]*)"@,
        ),
        (
            "type"@,
            "^\\s*type\\s+([A-Za-z_][A-Za-z0-9_]*)"@,
        ),
        (
            "import"@,
            "^\\s*import\\s+['\"\"](.+)['\"\"]"@,
        ),
    ]
}

fn go_table() -> (r: Vec<(&'static str, &'static str)>)
    ensures
        pattern_views(r@) == go_patterns(),
{
    let mut r: Vec<(&'static str, &'static str)> = Vec::new();
    r.push(
        (
            "func",
            "^\\s*func\\s+(?:\\([^)]+\\)\\s+)?([A-Za-z_][A-Za-z0-9_]*)",
        ),
    );
    r.push(
        (
            "type",
            "^\\s*type\\s+([A-Za-z_][A-Za-z0-9_]*)",
        ),
    );
    r.push(
        (
            "import",
            "^\\s*import\\s+['\"\"](.+)['\"\"]",
        ),
    );
    assert(pattern_views(r@) =~= go_patterns());
    r
}

/// The patterns of the symbols of such a file.
pub open spec fn other_patterns() -> Seq<(Seq<char>, Seq<char>)> {
    seq![
        (
            "header"@,
            "^(#{1,6})\\s+(.+)$"@,
        ),
    ]
}

fn other_table() -> (r: Vec<(&'static str, &'static str)>)
    ensures
        pattern_views(r@) == other_patterns(),
{
    let mut r: Vec<(&'static str, &'static str)> = Vec::new();
    r.push(
        (
            "header",
            "^(#{1,6})\\s+(.+)$",
        ),
    );
    assert(pattern_views(r@) =~= other_patterns());
    r
}

/// The labels and patterns of the symbols of a file, by the ending of its
/// name, in the order in which they are tried.
pub open spec fn patterns_for(ext: Seq<char>) -> Seq<(Seq<char>, Seq<char>)> {
    if ext == "rs"@ {
        rust_patterns()
    } else if ext == "js"@ || ext == "jsx"@ || ext == "mjs"@ || ext == "cjs"@ {
        script_patterns()
    } else if ext == "ts"@ || ext == "tsx"@ {
        typed_script_patterns()
    } else if ext == "py"@ {
        python_patterns()
    } else if ext == "go"@ {
        go_patterns()
    } else {
        other_patterns()
    }
}

fn table_for(ext: &str) -> (r: Vec<(&'static str, &'static str)>)
    ensures
        pattern_views(r@) == patterns_for(ext@),
{
    if text::same(ext, "rs") {
        rust_table()
    } else if text::same(ext, "js") || text::same(ext, "jsx") || text::same(ext, "mjs")
        || text::same(ext, "cjs") {
        script_table()
    } else if text::same(ext, "ts") || text::same(ext, "tsx") {
        typed_script_table()
    } else if text::same(ext, "py") {
        python_table()
    } else if text::same(ext, "go") {
        go_table()
    } else {
        other_table()
    }
}

/// A symbol of a file: its line, its label and its name.
#[derive(Debug)]
pub struct Symbol {
    pub line: usize,
    pub label: String,
    pub name: String,
}

/// The model of a symbol.
pub struct SymbolV {
    pub line: nat,
    pub label: Seq<char>,
    pub name: Seq<char>,
}

impl View for Symbol {
    type V = SymbolV;

    open spec fn view(&self) -> SymbolV {
        SymbolV { line: self.line as nat, label: self.label@, name: self.name@ }
    }
}

/// The models of a list of symbols.
pub open spec fn symbol_views(l: Seq<Symbol>) -> Seq<SymbolV> {
    l.map_values(|s: Symbol| s@)
}

/// The name in a match: the first group that took part in it, or nothing.
pub open spec fn name_in(g: (Option<Seq<char>>, Option<Seq<char>>)) -> Seq<char> {
    match g.0 {
        Some(n) => n,
        None => match g.1 {
            Some(n) => n,
            None => Seq::empty(),
        },
    }
}

/// The symbol that a line defines: by the first pattern that matches, if the
/// match has a name. A pattern that cannot be compiled is passed over.
pub open spec fn symbol_in(
    patterns: Seq<(Seq<char>, Seq<char>)>,
    line: Seq<char>,
) -> Option<(Seq<char>, Seq<char>)>
    decreases patterns.len(),
{
    if patterns.len() == 0 {
        None
    } else {
        let p = patterns[0];
        let g = outside::regex_groups(p.1, false, line);
        if outside::regex_problem(p.1, false) is None && g is Some {
            if name_in(g->0).len() == 0 {
                None
            } else {
                Some((p.0, name_in(g->0)))
            }
        } else {
            symbol_in(patterns.skip(1), line)
        }
    }
}

/// The symbols of the first `n` lines of a file.
pub open spec fn symbols(
    patterns: Seq<(Seq<char>, Seq<char>)>,
    lines: Seq<Seq<char>>,
    n: nat,
) -> Seq<SymbolV>
    decreases n,
{
    if n == 0 {
        Seq::empty()
    } else {
        let before = symbols(patterns, lines, (n - 1) as nat);
        match symbol_in(patterns, lines[n - 1]) {
            Some((label, name)) => before.push(SymbolV { line: n, label, name }),
            None => before,
        }
    }
}

/// The patterns of a list that can be compiled.
pub open spec fn sound(patterns: Seq<(Seq<char>, Seq<char>)>) -> Seq<(Seq<char>, Seq<char>)>
    decreases patterns.len(),
{
    if patterns.len() == 0 {
        Seq::empty()
    } else {
        let before = sound(patterns.drop_last());
        if outside::regex_problem(patterns.last().1, false) is None {
            before.push(patterns.last())
        } else {
            before
        }
    }
}

/// What a list of labels and compiled patterns stands for.
spec fn compiled_views(l: Seq<(&'static str, regex::Regex)>) -> Seq<(Seq<char>, Seq<char>)> {
    l.map_values(|p: (&'static str, regex::Regex)| (p.0@, outside::regex_pattern(p.1)))
}

spec fn unfolded(l: Seq<(&'static str, regex::Regex)>) -> bool {
    forall|i: int|
        0 <= i < l.len() ==> !#[trigger] outside::regex_folds(l[i].1) && outside::regex_problem(
            outside::regex_pattern(l[i].1),
            false,
        ) is None
}

fn compile_all(table: &Vec<(&'static str, &'static str)>) -> (r: Vec<(&'static str, regex::Regex)>)
    ensures
        compiled_views(r@) == sound(pattern_views(table@)),
        unfolded(r@),
{
    let ghost all = pattern_views(table@);
    let mut out: Vec<(&'static str, regex::Regex)> = Vec::new();
    assert(all.take(0) =~= Seq::empty());
    assert(compiled_views(out@) =~= Seq::empty());
    for i in 0..table.len()
        invariant
            all == pattern_views(table@),
            compiled_views(out@) == sound(all.take(i as int)),
            unfolded(out@),
    {
        assert(all.take(i + 1).drop_last() =~= all.take(i as int));
        assert(all.take(i + 1).last() == (table@[i as int].0@, table@[i as int].1@));
        if let Ok(re) = outside::regex_compile(table[i].1, false) {
            let ghost before = out@;
            out.push((table[i].0, re));
            assert(compiled_views(out@) =~= compiled_views(before).push(
                (table@[i as int].0@, table@[i as int].1@),
            ));
            assert forall|k: int| 0 <= k < out@.len() implies !#[trigger] outside::regex_folds(
                out@[k].1,
            ) && outside::regex_problem(outside::regex_pattern(out@[k].1), false) is None by {
                if k < before.len() {
                    assert(out@[k] == before[k]);
                    assert(!outside::regex_folds(before[k].1));
                }
            }
        }
    }
    assert(all.take(all.len() as int) =~= all);
    out
}

proof fn sound_finds_the_same(patterns: Seq<(Seq<char>, Seq<char>)>, line: Seq<char>)
    ensures
        symbol_in(sound(patterns), line) == symbol_in(patterns, line),
    decreases patterns.len(),
{
    if patterns.len() > 0 {
        let rest = patterns.skip(1);
        sound_finds_the_same(rest, line);
        sound_front(patterns);
        if outside::regex_problem(patterns[0].1, false) is None {
            assert((seq![patterns[0]] + sound(rest)).skip(1) =~= sound(rest));
        }
    }
}

proof fn sound_front(patterns: Seq<(Seq<char>, Seq<char>)>)
    requires
        patterns.len() > 0,
    ensures
        sound(patterns) == (if outside::regex_problem(patterns[0].1, false) is None {
            seq![patterns[0]] + sound(patterns.skip(1))
        } else {
            sound(patterns.skip(1))
        }),
    decreases patterns.len(),
{
    let rest = patterns.skip(1);
    if patterns.len() == 1 {
        assert(patterns.drop_last() =~= Seq::empty());
        assert(rest =~= Seq::empty());
        assert(sound(patterns.drop_last()) =~= Seq::empty());
        assert(sound(rest) =~= Seq::empty());
        assert(sound(patterns) =~= (if outside::regex_problem(patterns[0].1, false) is None {
            seq![patterns[0]] + sound(rest)
        } else {
            sound(rest)
        }));
    } else {
        sound_front(patterns.drop_last());
        assert(patterns.drop_last().skip(1) =~= rest.drop_last());
        assert(rest.last() == patterns.last());
        assert(sound(patterns) =~= (if outside::regex_problem(patterns[0].1, false) is None {
            seq![patterns[0]] + sound(rest)
        } else {
            sound(rest)
        }));
    }
}

/// The symbol that a match of a labelled pattern stands for, if it has a name.
pub fn symbol_of_match(
    line: usize,
    label: &str,
    groups: (Option<String>, Option<String>),
) -> (r: Option<Symbol>)
    ensures
        ({
            let name = name_in(outside::group_views(Some(groups))->0);
            match r {
                Some(s) => name.len() > 0 && s@ == (SymbolV {
                    line: line as nat,
                    label: label@,
                    name,
                }),
                None => name.len() == 0,
            }
        }),
{
    let name = match groups.0 {
        Some(n) => n,
        None => match groups.1 {
            Some(n) => n,
            None => String::new(),
        },
    };
    if name.as_str().is_empty() {
        None
    } else {
        Some(Symbol { line, label: label.to_owned(), name })
    }
}

fn find_symbol(
    compiled: &Vec<(&'static str, regex::Regex)>,
    number: usize,
    line: &str,
) -> (r: Option<Symbol>)
    requires
        unfolded(compiled@),
    ensures
        match r {
            Some(s) => symbol_in(compiled_views(compiled@), line@) == Some(
                (s@.label, s@.name),
            ) && s@.line == number,
            None => symbol_in(compiled_views(compiled@), line@) is None,
        },
{
    let ghost all = compiled_views(compiled@);
    let mut i: usize = 0;
    assert(all.skip(0) =~= all);
    while i < compiled.len()
        invariant
            i <= compiled@.len(),
            unfolded(compiled@),
            all == compiled_views(compiled@),
            symbol_in(all, line@) == symbol_in(all.skip(i as int), line@),
        decreases compiled@.len() - i,
    {
        assert(all.skip(i as int)[0] == (
            compiled@[i as int].0@,
            outside::regex_pattern(compiled@[i as int].1),
        ));
        assert(!outside::regex_folds(compiled@[i as int].1));
        if let Some(groups) = outside::regex_capture(&compiled[i].1, line) {
            return symbol_of_match(number, compiled[i].0, groups);
        }
        assert(all.skip(i as int).skip(1) =~= all.skip(i + 1));
        i = i + 1;
    }
    assert(all.skip(i as int) =~= Seq::empty());
    None
}

/// The line for a symbol in an outline.
pub open spec fn symbol_line(s: SymbolV) -> Seq<char> {
    "  "@ + text::pad_left(text::decimal(s.line), 5, ' ') + "  "@ + text::pad_left(
        s.label,
        8,
        ' ',
    ) + "  "@ + s.name + "\n"@
}

/// The lines for the first `n` symbols of a list.
pub open spec fn symbol_lines(l: Seq<SymbolV>, n: nat) -> Seq<char>
    decreases n,
{
    if n == 0 {
        Seq::empty()
    } else {
        symbol_lines(l, (n - 1) as nat) + symbol_line(l[n - 1])
    }
}

/// An outline of a file with the given symbols.
pub open spec fn outline_text(path: Seq<char>, l: Seq<SymbolV>) -> Seq<char> {
    if l.len() == 0 {
        "No symbols extracted from "@ + path + " (unsupported or empty file)."@
    } else {
        let all = "Outline of "@ + path + " ("@ + text::decimal(l.len()) + " symbols):\n"@;
        if l.len() > MAX_SYMBOLS {
            all + symbol_lines(l, MAX_SYMBOLS as nat) + "  ... ("@ + text::decimal(
                (l.len() - MAX_SYMBOLS) as nat,
            ) + " more)\n"@
        } else {
            all + symbol_lines(l, l.len())
        }
    }
}

/// An outline of a file with the given symbols.
pub fn format_outline(path: &str, l: &Vec<Symbol>) -> (r: String)
    ensures
        r@ == outline_text(path@, symbol_views(l@)),
{
    assert(symbol_views(l@).len() == l@.len());
    if l.len() == 0 {
        let mut out = "No symbols extracted from ".to_owned();
        out.append(path);
        out.append(" (unsupported or empty file).");
        return out;
    }
    let mut out = "Outline of ".to_owned();
    out.append(path);
    out.append(" (");
    out.append(&text::number(l.len() as u64));
    out.append(" symbols):\n");
    let ghost head = out@;
    let n: usize = if l.len() > MAX_SYMBOLS {
        MAX_SYMBOLS
    } else {
        l.len()
    };
    for i in 0..n
        invariant
            n <= l@.len(),
            out@ == head + symbol_lines(symbol_views(l@), i as nat),
    {
        let ghost before = out@;
        let s = &l[i];
        assert(symbol_views(l@)[i as int] == s@);
        out.append("  ");
        out.append(&text::padded_left(&text::number(s.line as u64), 5, ' '));
        out.append("  ");
        out.append(&text::padded_left(&s.label, 8, ' '));
        out.append("  ");
        out.append(&s.name);
        out.append("\n");
        assert(out@ =~= before + symbol_line(s@));
        assert(out@ =~= head + symbol_lines(symbol_views(l@), (i + 1) as nat));
    }
    if l.len() > MAX_SYMBOLS {
        out.append("  ... (");
        out.append(&text::number((l.len() - MAX_SYMBOLS) as u64));
        out.append(" more)\n");
    }
    out
}

/// An outline of the content of a file, by the ending of its name.
pub fn outline_source(path: &str, ext: &str, content: &str) -> (r: String)
    ensures
        r@ == outline_text(
            path@,
            symbols(patterns_for(ext@), text::lines(content@), text::lines(content@).len()),
        ),
{
    let compiled = compile_all(&table_for(ext));
    let lines = text::split_lines(content);
    let ghost all = text::lines(content@);
    let ghost patterns = patterns_for(ext@);
    let mut found: Vec<Symbol> = Vec::new();
    assert(symbol_views(found@) =~= Seq::empty());
    assert(all.len() == lines@.len());
    for i in 0..lines.len()
        invariant
            text::views(lines@) == all,
            all.len() == lines@.len(),
            unfolded(compiled@),
            compiled_views(compiled@) == sound(patterns),
            symbol_views(found@) == symbols(patterns, all, i as nat),
    {
        assert(all[i as int] == lines@[i as int]@);
        proof {
            sound_finds_the_same(patterns, all[i as int]);
        }
        let ghost before = found@;
        if let Some(s) = find_symbol(&compiled, i + 1, &lines[i]) {
            found.push(s);
            assert(symbol_views(found@) =~= symbol_views(before).push(s@));
        }
    }
    format_outline(path, &found)
}

// ---------------------------------------------------------------------------
// Imports
// ---------------------------------------------------------------------------

/// A file of a language whose modules are called scripts.
pub open spec fn is_script(ext: Seq<char>) -> bool {
    ext == "ts"@ || ext == "tsx"@ || ext == "js"@ || ext == "jsx"@ || ext == "mjs"@ || ext == "cjs"@
}

/// What a line of a file imports, if it does.
pub open spec fn import_in(ext: Seq<char>, line: Seq<char>) -> Option<Seq<char>> {
    let t = text::trim(line);
    if ext == "rs"@ {
        if text::begins(t, "use "@) || text::begins(t, "pub use "@) || text::begins(t, "mod "@)
            || text::begins(t, "pub mod "@) {
            Some(text::strip_end(t, ';'))
        } else {
            None
        }
    } else if is_script(ext) {
        if text::begins(t, "import "@) || (text::begins(t, "export "@) && text::occurs(
            t,
            " from "@,
        )) || (text::begins(t, "const "@) && text::occurs(t, "require("@)) {
            Some(text::strip_end(t, ';'))
        } else {
            None
        }
    } else if ext == "py"@ {
        if text::begins(t, "import "@) || text::begins(t, "from "@) {
            Some(t)
        } else {
            None
        }
    } else if ext == "go"@ {
        if text::begins(t, "import "@) || (text::begins(t, "\""@) && text::ends(t, "\""@)) {
            Some(t)
        } else {
            None
        }
    } else {
        None
    }
}

fn script(ext: &str) -> (r: bool)
    ensures
        r == is_script(ext@),
{
    text::same(ext, "ts") || text::same(ext, "tsx") || text::same(ext, "js") || text::same(
        ext,
        "jsx",
    ) || text::same(ext, "mjs") || text::same(ext, "cjs")
}

fn find_import(ext: &str, line: &str) -> (r: Option<String>)
    ensures
        match r {
            Some(i) => import_in(ext@, line@) == Some(i@),
            None => import_in(ext@, line@) is None,
        },
{
    let t = text::trimmed(line);
    if text::same(ext, "rs") {
        if text::starts_with(&t, "use ") || text::starts_with(&t, "pub use ") || text::starts_with(
            &t,
            "mod ",
        ) || text::starts_with(&t, "pub mod ") {
            return Some(text::stripped_end(&t, ';'));
        }
        return None;
    }
    if script(ext) {
        if text::starts_with(&t, "import ") || (text::starts_with(&t, "export ")
            && text::contains(&t, " from ")) || (text::starts_with(&t, "const ")
            && text::contains(&t, "require(")) {
            return Some(text::stripped_end(&t, ';'));
        }
        return None;
    }
    if text::same(ext, "py") {
        if text::starts_with(&t, "import ") || text::starts_with(&t, "from ") {
            return Some(t);
        }
        return None;
    }
    if text::same(ext, "go") {
        if text::starts_with(&t, "import ") || (text::starts_with(&t, "\"") && text::ends_with(
            &t,
            "\"",
        )) {
            return Some(t);
        }
        return None;
    }
    None
}

/// What the lines of a list import, in order.
pub open spec fn imports(ext: Seq<char>, lines: Seq<Seq<char>>) -> Seq<Seq<char>>
    decreases lines.len(),
{
    if lines.len() == 0 {
        Seq::empty()
    } else {
        let before = imports(ext, lines.drop_last());
        match import_in(ext, lines.last()) {
            Some(i) => before.push(i),
            None => before,
        }
    }
}

/// What a file imports, by the ending of its name.
pub fn extract_imports(content: &str, ext: &str) -> (r: Vec<String>)
    ensures
        text::views(r@) == imports(ext@, text::lines(content@)),
{
    broadcast use text::views_push;

    let lines = text::split_lines(content);
    let ghost all = text::views(lines@);
    let mut out: Vec<String> = Vec::new();
    assert(all.take(0) =~= Seq::empty());
    for i in 0..lines.len()
        invariant
            all == text::views(lines@),
            text::views(out@) == imports(ext@, all.take(i as int)),
    {
        assert(all.take(i + 1).drop_last() =~= all.take(i as int));
        assert(all.take(i + 1).last() == lines@[i as int]@);
        if let Some(s) = find_import(ext, &lines[i]) {
            out.push(s);
        }
    }
    assert(all.take(all.len() as int) =~= all);
    out
}

} // verus!
