//! The start of a local model server: how it is set up, and how long its
//! start is waited for.

use crate::llm::types::{setting, setting_or};
use crate::text;
use vstd::prelude::*;

verus! {

/// How often the server is tried before its start is left to itself.
pub const MAX_ATTEMPTS: u8 = 12;

/// How long a try to reach the server may take, in seconds.
pub const CONNECT_SECS: u64 = 2;

/// The pause after a try that failed, in milliseconds.
pub const RETRY_MS: u64 = 2500;

/// How far a command line has been taken apart.
#[verifier::ext_equal]
pub struct Splitting {
    pub words: Seq<Seq<char>>,
    pub current: Seq<char>,
    pub quoted: bool,
}

/// A word that has begun is added to the ones before it.
pub open spec fn with_current(words: Seq<Seq<char>>, current: Seq<char>) -> Seq<Seq<char>> {
    if current.len() > 0 {
        words.push(current)
    } else {
        words
    }
}

/// One more character: a quote switches quoting, a space outside of quotes
/// ends a word, and any other character belongs to the word.
pub open spec fn split_char(s: Splitting, c: char) -> Splitting {
    if c == '"' {
        Splitting { quoted: !s.quoted, ..s }
    } else if c == ' ' && !s.quoted {
        Splitting {
            words: with_current(s.words, s.current),
            current: Seq::empty(),
            quoted: s.quoted,
        }
    } else {
        Splitting { current: s.current.push(c), ..s }
    }
}

/// A command line taken apart.
pub open spec fn splitting(line: Seq<char>) -> Splitting
    decreases line.len(),
{
    if line.len() == 0 {
        Splitting { words: Seq::empty(), current: Seq::empty(), quoted: false }
    } else {
        split_char(splitting(line.drop_last()), line.last())
    }
}

/// The words of a command line.
pub open spec fn command_words(line: Seq<char>) -> Seq<Seq<char>> {
    with_current(splitting(line).words, splitting(line).current)
}

/// The words of a command line. What stands in double quotes is not taken
/// apart; every line can be read.
pub fn split(s: &str) -> (r: Result<Vec<String>, ()>)
    ensures
        r matches Ok(words) && text::views(words@) == command_words(s@),
{
    broadcast use text::views_push;

    let line = text::to_chars(s);
    let mut out: Vec<String> = Vec::new();
    let mut current = String::new();
    let mut quoted = false;
    assert(line@.take(0) =~= Seq::empty());
    assert(text::views(out@) =~= Seq::empty());
    for i in 0..line.len()
        invariant
            splitting(line@.take(i as int)) == (Splitting {
                words: text::views(out@),
                current: current@,
                quoted,
            }),
    {
        let c = line[i];
        assert(line@.take(i + 1).drop_last() =~= line@.take(i as int));
        assert(line@.take(i + 1).last() == c);
        if c == '"' {
            quoted = !quoted;
        } else if c == ' ' && !quoted {
            if !current.as_str().is_empty() {
                out.push(current);
                current = String::new();
            }
            assert(current@ =~= Seq::empty());
        } else {
            current.push(c);
        }
    }
    assert(line@.take(line@.len() as int) =~= line@);
    if !current.as_str().is_empty() {
        out.push(current);
    }
    Ok(out)
}

/// The end of a line is within quotes: it has an odd number of them.
pub open spec fn ends_quoted(line: Seq<char>) -> bool
    decreases line.len(),
{
    if line.len() == 0 {
        false
    } else if line.last() == '"' {
        !ends_quoted(line.drop_last())
    } else {
        ends_quoted(line.drop_last())
    }
}

/// What counts of a line: all but its quotes and the spaces outside of them.
pub open spec fn what_counts(line: Seq<char>) -> Seq<char>
    decreases line.len(),
{
    if line.len() == 0 {
        Seq::empty()
    } else {
        let before = what_counts(line.drop_last());
        if line.last() == '"' || (line.last() == ' ' && !ends_quoted(line.drop_last())) {
            before
        } else {
            before.push(line.last())
        }
    }
}

/// A line, with quotes or without, falls apart at the spaces outside of quotes and
/// nowhere else: put together, the words are the line without these spaces and
/// without the quotes, so that of all other characters none is lost, added or
/// moved. No word is empty.
pub proof fn split_keeps_all_but_spaces_and_quotes(line: Seq<char>)
    ensures
        text::join(command_words(line), Seq::empty()) == what_counts(line),
        what_counts(line).filter(|c: char| c != ' ') == line.filter(
            |c: char| c != ' ' && c != '"',
        ),
        forall|i: int| 0 <= i < command_words(line).len() ==> (#[trigger] command_words(
            line,
        )[i]).len() > 0,
{
    words_hold_what_counts(line);
    what_counts_holds_the_rest(line);
    let s = splitting(line);
    let e = Seq::<char>::empty();
    if s.current.len() > 0 {
        join_one_more(s.words, s.current);
    } else {
        assert(text::join(s.words, e) + s.current =~= text::join(s.words, e));
    }
}

proof fn join_one_more(words: Seq<Seq<char>>, word: Seq<char>)
    ensures
        text::join(words.push(word), Seq::empty()) == text::join(words, Seq::empty()) + word,
{
    let e = Seq::<char>::empty();
    assert(words.push(word).drop_last() =~= words);
    if words.len() == 0 {
        assert(text::join(words, e) =~= e);
    }
    assert(text::join(words.push(word), e) =~= text::join(words, e) + word);
}

proof fn words_hold_what_counts(line: Seq<char>)
    ensures
        splitting(line).quoted == ends_quoted(line),
        text::join(splitting(line).words, Seq::empty()) + splitting(line).current == what_counts(
            line,
        ),
        forall|i: int| 0 <= i < splitting(line).words.len() ==> (#[trigger] splitting(
            line,
        ).words[i]).len() > 0,
    decreases line.len(),
{
    let e = Seq::<char>::empty();
    if line.len() > 0 {
        let front = line.drop_last();
        words_hold_what_counts(front);
        let s = splitting(front);
        let t = splitting(line);
        if line.last() == '"' {
        } else if line.last() == ' ' && !s.quoted {
            if s.current.len() > 0 {
                join_one_more(s.words, s.current);
            }
            assert(text::join(t.words, e) + t.current =~= text::join(s.words, e) + s.current);
        } else {
            assert(text::join(t.words, e) + t.current =~= (text::join(s.words, e)
                + s.current).push(line.last()));
        }
    } else {
        assert(text::join(splitting(line).words, e) + splitting(line).current =~= e);
    }
}

proof fn what_counts_holds_the_rest(line: Seq<char>)
    ensures
        what_counts(line).filter(|c: char| c != ' ') == line.filter(
            |c: char| c != ' ' && c != '"',
        ),
    decreases line.len(),
{
    reveal(Seq::filter);
    if line.len() > 0 {
        let front = line.drop_last();
        what_counts_holds_the_rest(front);
        let w = what_counts(line);
        if w.len() > what_counts(front).len() {
            assert(w.drop_last() =~= what_counts(front));
        }
    }
}

/// The settings that the environment may give, each absent or set.
#[derive(Debug)]
pub struct GemmaSettings {
    pub cmd: Option<String>,
    pub args: Option<String>,
    pub host: Option<String>,
    pub port: Option<String>,
    pub auto_start: Option<String>,
}

/// How the local server is started.
#[derive(Debug)]
pub struct GemmaOrchestrator {
    pub cmd: String,
    pub args: Vec<String>,
    pub host: String,
    pub port: u16,
    pub auto_start: bool,
}

impl GemmaOrchestrator {
    /// What the settings amount to, with a default for each absent one.
    pub fn from_env(s: &GemmaSettings) -> (r: Self)
        ensures
            r.cmd@ == setting(s.cmd, "ollama"@),
            text::views(r.args@) == command_words(setting(s.args, "serve"@)),
            r.host@ == setting(s.host, "127.0.0.1"@),
            r.port == (match s.port {
                Some(p) => match text::unsigned_value(p@, u16::MAX as nat) {
                    Some(n) => n as u16,
                    None => 11434u16,
                },
                None => 11434u16,
            }),
            r.auto_start == (match s.auto_start {
                Some(a) => a@ != "0"@,
                None => true,
            }),
    {
        let raw_args = setting_or(&s.args, "serve");
        let args = match split(&raw_args) {
            Ok(words) => words,
            Err(_) => Vec::new(),
        };
        let port: u16 = match &s.port {
            Some(p) => match text::parse_unsigned(p, u16::MAX as u64) {
                Some(n) => n as u16,
                None => 11434,
            },
            None => 11434,
        };
        let auto_start = match &s.auto_start {
            Some(a) => !text::same(a, "0"),
            None => true,
        };
        GemmaOrchestrator {
            cmd: setting_or(&s.cmd, "ollama"),
            args,
            host: setting_or(&s.host, "127.0.0.1"),
            port,
            auto_start,
        }
    }

    /// Whether the server is to be started with the program.
    pub fn is_auto_start(&self) -> (r: bool)
        ensures
            r == self.auto_start,
    {
        self.auto_start
    }

    /// The address under which the server is waited for.
    pub fn address(&self) -> (r: String)
        ensures
            r@ == self.host@ + ":"@ + text::decimal(self.port as nat),
    {
        let mut a = self.host.clone();
        a.append(":");
        a.append(&text::number(self.port as u64));
        a
    }

    /// What the start begins with, by whether there is enough memory and
    /// whether the server already runs.
    pub fn try_start(&self, enough_memory: bool, running: bool) -> (r: StartStep)
        ensures
            r == (if !enough_memory {
                StartStep::Done { launch: Launch::NoMemory }
            } else if running {
                StartStep::Done { launch: Launch::Up }
            } else {
                StartStep::Spawn
            }),
    {
        if !enough_memory {
            StartStep::Done { launch: Launch::NoMemory }
        } else if running {
            StartStep::Done { launch: Launch::Up }
        } else {
            StartStep::Spawn
        }
    }

    /// What follows on a try to reach the server that was the `attempts`-th: each
    /// that fails is followed by a pause, the last one too.
    pub fn after_attempt(&self, attempts: u8, connected: bool) -> (r: StartStep)
        ensures
            r == after(attempts, connected),
    {
        if connected {
            StartStep::Done { launch: Launch::Up }
        } else if attempts < MAX_ATTEMPTS {
            StartStep::Retry { attempt: attempts + 1, pause_ms: RETRY_MS }
        } else {
            StartStep::GiveUp { pause_ms: RETRY_MS, launch: Launch::TimedOut }
        }
    }
}

/// What came of a start of the server.
#[derive(Clone, Copy, Debug, PartialEq, Eq, Structural)]
pub enum Launch {
    /// The server is up.
    Up,
    /// There is too little memory for it.
    NoMemory,
    /// It was started but did not answer in time; it may still come up.
    TimedOut,
}

impl Launch {
    /// Whether the server was started, be it up already or not.
    pub fn is_started(self) -> (r: bool)
        ensures
            r == (self != Launch::NoMemory),
    {
        match self {
            Launch::NoMemory => false,
            _ => true,
        }
    }
}

/// What the start of the server does next.
#[derive(Clone, Copy, Debug, PartialEq, Eq, Structural)]
pub enum StartStep {
    /// The start is over.
    Done { launch: Launch },
    /// The process is to be started, and then reached.
    Spawn,
    /// After a pause the server is to be tried again.
    Retry { attempt: u8, pause_ms: u64 },
    /// After a pause the start is over; the server may still come up.
    GiveUp { pause_ms: u64, launch: Launch },
}

/// What follows on a try to reach the server that was the `attempts`-th.
pub open spec fn after(attempts: u8, connected: bool) -> StartStep {
    if connected {
        StartStep::Done { launch: Launch::Up }
    } else if attempts < MAX_ATTEMPTS {
        StartStep::Retry { attempt: (attempts + 1) as u8, pause_ms: RETRY_MS }
    } else {
        StartStep::GiveUp { pause_ms: RETRY_MS, launch: Launch::TimedOut }
    }
}

/// The server is tried at most twelve times: each try that is followed by
/// another one comes nearer to the last.
pub proof fn start_gives_up(attempts: u8, connected: bool)
    ensures
        after(attempts, connected) matches StartStep::Retry { attempt, .. } ==> attempts < attempt
            <= MAX_ATTEMPTS,
{
}

} // verus!
