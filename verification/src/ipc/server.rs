//! The service: how its lines are let in, how its requests are told apart, and
//! how they are cancelled.

use crate::ipc::handlers::admin::{count, count_or_zero, size, size_or_zero};
use crate::ipc::handlers::chat::session::{self, get_session_todos_json, Sessions};
use crate::ipc::protocol::{error, is_error, IPCRequest, IPCResponse};
use crate::json::Json;
use crate::llm::types::LLMConfig;
use crate::strmap::StrMap;
use crate::text;
use vstd::prelude::*;

verus! {

/// How many lines are let in within one second.
pub const RATE_LIMIT: usize = 60;

/// A second, in milliseconds.
pub const RATE_WINDOW_MS: u64 = 1_000;

pub const PIPE_NAME: &'static str = "\\\\.\\pipe\\rook";

/// Limits the lines of a connection: a window of one second slides along with
/// the time.
#[derive(Debug)]
pub struct RateLimiter {
    /// When the last lines that were let in came, up to sixty of them.
    pub recent: Vec<u64>,
}

/// A line at `now_ms` is let in behind those at the given times: the sixtieth
/// before it, if there is one, came a second ago or earlier.
pub open spec fn has_room(let_in: Seq<u64>, now_ms: u64) -> bool {
    let_in.len() < RATE_LIMIT || now_ms - let_in[let_in.len() - RATE_LIMIT] >= RATE_WINDOW_MS
}

/// The last sixty of some times, or all of them.
pub open spec fn last_sixty(times: Seq<u64>) -> Seq<u64> {
    if times.len() <= RATE_LIMIT {
        times
    } else {
        times.skip(times.len() - RATE_LIMIT)
    }
}

impl RateLimiter {
    /// A line at `now_ms` is let in.
    pub open spec fn lets_in(self, now_ms: u64) -> bool {
        has_room(self.recent@, now_ms)
    }

    /// What is kept once a line has come at `now_ms`: a line that is not let in
    /// does not count.
    pub open spec fn counted(self, now_ms: u64) -> Seq<u64> {
        if self.lets_in(now_ms) {
            last_sixty(self.recent@.push(now_ms))
        } else {
            self.recent@
        }
    }

    /// A limiter that has seen no line.
    pub fn new() -> (r: Self)
        ensures
            r.recent@ == Seq::<u64>::empty(),
    {
        RateLimiter { recent: Vec::new() }
    }

    /// Counts a line that comes in at `now_ms`, and tells whether it is let in.
    pub fn let_in(&mut self, now_ms: u64) -> (r: bool)
        ensures
            r == old(self).lets_in(now_ms),
            final(self).recent@ == old(self).counted(now_ms),
    {
        let n: usize = self.recent.len();
        if n >= RATE_LIMIT {
            let before: u64 = self.recent[n - RATE_LIMIT];
            if now_ms < before || now_ms - before < RATE_WINDOW_MS {
                return false;
            }
        }
        self.recent.push(now_ms);
        let ghost all = self.recent@;
        if self.recent.len() > RATE_LIMIT {
            let from: usize = self.recent.len() - RATE_LIMIT;
            let kept = self.recent.split_off(from);
            self.recent = kept;
        }
        assert(self.recent@ =~= last_sixty(all));
        true
    }
}

/// Which of the lines that came at the given times were let in, by their times.
pub open spec fn lines_let_in(times: Seq<u64>) -> Seq<u64>
    decreases times.len(),
{
    if times.len() == 0 {
        Seq::empty()
    } else {
        let before = lines_let_in(times.drop_last());
        if has_room(before, times.last()) {
            before.push(times.last())
        } else {
            before
        }
    }
}

/// The times do not go back.
pub open spec fn go_on(times: Seq<u64>) -> bool {
    forall|i: int, j: int| 0 <= i <= j < times.len() ==> times[i] <= times[j]
}

/// A limiter that keeps the last sixty lines that were let in decides as one
/// that keeps them all, and goes on to keep the last sixty.
pub proof fn sixty_times_are_enough(limiter: RateLimiter, times: Seq<u64>, now_ms: u64)
    requires
        limiter.recent@ == last_sixty(lines_let_in(times)),
    ensures
        limiter.lets_in(now_ms) == has_room(lines_let_in(times), now_ms),
        limiter.counted(now_ms) == last_sixty(lines_let_in(times.push(now_ms))),
{
    assert(times.push(now_ms).drop_last() =~= times);
    let all = lines_let_in(times);
    assert(last_sixty(last_sixty(all).push(now_ms)) =~= last_sixty(all.push(now_ms)));
}

/// No span of a second holds more than sixty lines that were let in: lines that
/// came less than a second apart are at most sixty with all between them.
pub proof fn sixty_lines_per_second(times: Seq<u64>, i: int, j: int)
    requires
        go_on(times),
        0 <= i <= j < lines_let_in(times).len(),
        lines_let_in(times)[j] - lines_let_in(times)[i] < RATE_WINDOW_MS,
    ensures
        j - i + 1 <= RATE_LIMIT,
{
    let_in_lines_go_on(times);
    let all = lines_let_in(times);
    if j - i >= RATE_LIMIT {
        assert(all[i + RATE_LIMIT] - all[i] >= RATE_WINDOW_MS);
        assert(all[i + RATE_LIMIT] <= all[j]);
    }
}

proof fn let_in_lines_go_on(times: Seq<u64>)
    requires
        go_on(times),
    ensures
        go_on(lines_let_in(times)),
        lines_let_in(times).len() > 0 ==> times.len() > 0 && lines_let_in(times).last()
            <= times.last(),
        forall|i: int|
            0 <= i < lines_let_in(times).len() - RATE_LIMIT ==> #[trigger] lines_let_in(times)[i
                + RATE_LIMIT] - lines_let_in(times)[i] >= RATE_WINDOW_MS,
    decreases times.len(),
{
    if times.len() > 0 {
        let front = times.drop_last();
        assert forall|i: int, j: int| 0 <= i <= j < front.len() implies front[i] <= front[j] by {
            assert(times[i] <= times[j]);
        }
        let_in_lines_go_on(front);
        let before = lines_let_in(front);
        let all = lines_let_in(times);
        if before.len() > 0 {
            assert(times[front.len() - 1] <= times.last());
        }
        assert forall|i: int| 0 <= i < all.len() - RATE_LIMIT implies #[trigger] all[i + RATE_LIMIT]
            - all[i] >= RATE_WINDOW_MS by {
            if i + RATE_LIMIT < before.len() {
                assert(before[i + RATE_LIMIT] - before[i] >= RATE_WINDOW_MS);
            }
        }
    }
}

/// A line is refused only where sixty others were let in within the last second.
pub proof fn refused_behind_sixty(times: Seq<u64>, now_ms: u64)
    requires
        go_on(times.push(now_ms)),
        !has_room(lines_let_in(times), now_ms),
    ensures
        lines_let_in(times).len() >= RATE_LIMIT,
        forall|i: int|
            lines_let_in(times).len() - RATE_LIMIT <= i < lines_let_in(times).len() ==> now_ms
                - #[trigger] lines_let_in(times)[i] < RATE_WINDOW_MS,
{
    let all = times.push(now_ms);
    assert forall|i: int, j: int| 0 <= i <= j < times.len() implies times[i] <= times[j] by {
        assert(all[i] <= all[j]);
    }
    let_in_lines_go_on(times);
}

/// A line after a pause of a whole second is always let in.
pub proof fn a_pause_lets_in(limiter: RateLimiter, now_ms: u64)
    requires
        forall|i: int|
            0 <= i < limiter.recent@.len() ==> now_ms - #[trigger] limiter.recent@[i]
                >= RATE_WINDOW_MS,
    ensures
        limiter.lets_in(now_ms),
{
}

/// What is to be done with a line.
#[derive(Debug)]
pub enum LineStep {
    /// The line is blank.
    Ignore,
    /// There were too many lines; the answer says so.
    Refuse(IPCResponse),
    /// The line is to be read as a request.
    Read(String),
}

pub const RATE_LIMITED: &'static str = "Rate limit exceeded \u{2014} slow down requests";

/// What is to be done with a line that comes in at `now_ms`. A blank line is
/// not counted.
pub fn on_line(limiter: &mut RateLimiter, line: &str, now_ms: u64) -> (r: LineStep)
    ensures
        match r {
            LineStep::Ignore => text::blank(line@) && *final(limiter) == *old(limiter),
            LineStep::Refuse(resp) => {
                &&& !text::blank(line@)
                &&& final(limiter).recent@ == old(limiter).counted(now_ms)
                &&& !old(limiter).lets_in(now_ms)
                &&& is_error(resp, "rate-limited"@, RATE_LIMITED@)
            },
            LineStep::Read(t) => {
                &&& !text::blank(line@)
                &&& final(limiter).recent@ == old(limiter).counted(now_ms)
                &&& old(limiter).lets_in(now_ms)
                &&& t@ == text::trim(line@)
            },
        },
{
    let trimmed = text::trimmed(line);
    if trimmed.as_str().is_empty() {
        return LineStep::Ignore;
    }
    if limiter.let_in(now_ms) {
        LineStep::Read(trimmed)
    } else {
        LineStep::Refuse(error("rate-limited", RATE_LIMITED.to_owned()))
    }
}

/// The answer to a line that is no request.
pub fn on_unreadable(problem: &str) -> (r: IPCResponse)
    ensures
        is_error(r, "unknown"@, "Invalid JSON: "@ + problem@),
{
    let mut m = "Invalid JSON: ".to_owned();
    m.append(problem);
    error("unknown", m)
}

/// The kind of a request that cannot be read.
pub const UNPARSEABLE: &'static str = "<unparseable>";

/// The kind that a line names, for the log.
pub fn raw_type(value: Option<&Json>) -> (r: String)
    ensures
        r@ == (match value {
            Some(v) => match v@.text_at("type"@) {
                Some(t) => t,
                None => UNPARSEABLE@,
            },
            None => UNPARSEABLE@,
        }),
{
    match value {
        Some(v) => match v.text_at("type") {
            Some(t) => t,
            None => UNPARSEABLE.to_owned(),
        },
        None => UNPARSEABLE.to_owned(),
    }
}

/// The id of a request.
pub open spec fn request_id(request: IPCRequest) -> Seq<char> {
    match request {
        IPCRequest::Chat { id, .. } => id@,
        IPCRequest::CreateNode { id, .. } => id@,
        IPCRequest::QueryMemory { id, .. } => id@,
        IPCRequest::GetNode { id, .. } => id@,
        IPCRequest::GetConnectedNodes { id, .. } => id@,
        IPCRequest::SearchEmbeddings { id, .. } => id@,
        IPCRequest::SubmitMemoryFeedback { id, .. } => id@,
        IPCRequest::ReadFile { id, .. } => id@,
        IPCRequest::WriteFile { id, .. } => id@,
        IPCRequest::WebSearch { id, .. } => id@,
        IPCRequest::SpawnBrowser { id, .. } => id@,
        IPCRequest::SpawnCdpBrowser { id, .. } => id@,
        IPCRequest::CdpNavigate { id, .. } => id@,
        IPCRequest::CdpClick { id, .. } => id@,
        IPCRequest::CdpType { id, .. } => id@,
        IPCRequest::CdpEvaluate { id, .. } => id@,
        IPCRequest::Screenshot { id, .. } => id@,
        IPCRequest::KillBrowser { id, .. } => id@,
        IPCRequest::BrowserDebuggingUrl { id, .. } => id@,
        IPCRequest::ExecuteSkill { id, .. } => id@,
        IPCRequest::ListSkills { id, .. } => id@,
        IPCRequest::GetPreviews { id, .. } => id@,
        IPCRequest::CreatePreview { id, .. } => id@,
        IPCRequest::HealthCheck { id, .. } => id@,
        IPCRequest::CancelRequest { id, .. } => id@,
        IPCRequest::ApprovePendingTools { id, .. } => id@,
        IPCRequest::GitStatus { id, .. } => id@,
        IPCRequest::GitLog { id, .. } => id@,
        IPCRequest::GitDiff { id, .. } => id@,
        IPCRequest::GitBranch { id, .. } => id@,
        IPCRequest::GitCommit { id, .. } => id@,
        IPCRequest::SearchPlugins { id, .. } => id@,
        IPCRequest::ListPlugins { id, .. } => id@,
        IPCRequest::InstallPlugin { id, .. } => id@,
        IPCRequest::SetPluginEnabled { id, .. } => id@,
        IPCRequest::UninstallPlugin { id, .. } => id@,
        IPCRequest::StartMcp { id, .. } => id@,
        IPCRequest::StopMcp { id, .. } => id@,
        IPCRequest::LaunchGemma { id, .. } => id@,
        IPCRequest::UpdateConfig { id, .. } => id@,
        IPCRequest::GetMemoryCapabilities { id, .. } => id@,
        IPCRequest::GracefulShutdown { id, .. } => id@,
        IPCRequest::ListScheduledTasks { id, .. } => id@,
        IPCRequest::CreateScheduledTask { id, .. } => id@,
        IPCRequest::ApproveScheduledTask { id, .. } => id@,
        IPCRequest::CancelScheduledTask { id, .. } => id@,
        IPCRequest::PauseScheduledTask { id, .. } => id@,
        IPCRequest::ResumeScheduledTask { id, .. } => id@,
        IPCRequest::GetConversations { id, .. } => id@,
        IPCRequest::SearchConversations { id, .. } => id@,
        IPCRequest::RegenerateLastMessage { id, .. } => id@,
        IPCRequest::GetConversationMessages { id, .. } => id@,
        IPCRequest::PinConversation { id, .. } => id@,
        IPCRequest::SetNodePinned { id, .. } => id@,
        IPCRequest::DeleteNode { id, .. } => id@,
        IPCRequest::UpdateNodeSummary { id, .. } => id@,
        IPCRequest::GetMemoryHealth { id, .. } => id@,
        IPCRequest::ExportMemory { id, .. } => id@,
        IPCRequest::ImportMemory { id, .. } => id@,
        IPCRequest::LogToolAudit { id, .. } => id@,
        IPCRequest::GetToolAuditLog { id, .. } => id@,
        IPCRequest::GetUserFact { id, .. } => id@,
        IPCRequest::SetUserFact { id, .. } => id@,
        IPCRequest::GetSessionTodos { id, .. } => id@,
        IPCRequest::IndexDirectory { id, .. } => id@,
        IPCRequest::DeleteConversation { id, .. } => id@,
        IPCRequest::RenameConversation { id, .. } => id@,
        IPCRequest::GetAppStats { id, .. } => id@,
    }
}

/// The id of a request.
pub fn extract_request_id(request: &IPCRequest) -> (r: String)
    ensures
        r@ == request_id(*request),
{
    match request {
        IPCRequest::Chat { id, .. } => id.clone(),
        IPCRequest::CreateNode { id, .. } => id.clone(),
        IPCRequest::QueryMemory { id, .. } => id.clone(),
        IPCRequest::GetNode { id, .. } => id.clone(),
        IPCRequest::GetConnectedNodes { id, .. } => id.clone(),
        IPCRequest::SearchEmbeddings { id, .. } => id.clone(),
        IPCRequest::SubmitMemoryFeedback { id, .. } => id.clone(),
        IPCRequest::ReadFile { id, .. } => id.clone(),
        IPCRequest::WriteFile { id, .. } => id.clone(),
        IPCRequest::WebSearch { id, .. } => id.clone(),
        IPCRequest::SpawnBrowser { id, .. } => id.clone(),
        IPCRequest::SpawnCdpBrowser { id, .. } => id.clone(),
        IPCRequest::CdpNavigate { id, .. } => id.clone(),
        IPCRequest::CdpClick { id, .. } => id.clone(),
        IPCRequest::CdpType { id, .. } => id.clone(),
        IPCRequest::CdpEvaluate { id, .. } => id.clone(),
        IPCRequest::Screenshot { id, .. } => id.clone(),
        IPCRequest::KillBrowser { id, .. } => id.clone(),
        IPCRequest::BrowserDebuggingUrl { id, .. } => id.clone(),
        IPCRequest::ExecuteSkill { id, .. } => id.clone(),
        IPCRequest::ListSkills { id, .. } => id.clone(),
        IPCRequest::GetPreviews { id, .. } => id.clone(),
        IPCRequest::CreatePreview { id, .. } => id.clone(),
        IPCRequest::HealthCheck { id, .. } => id.clone(),
        IPCRequest::CancelRequest { id, .. } => id.clone(),
        IPCRequest::ApprovePendingTools { id, .. } => id.clone(),
        IPCRequest::GitStatus { id, .. } => id.clone(),
        IPCRequest::GitLog { id, .. } => id.clone(),
        IPCRequest::GitDiff { id, .. } => id.clone(),
        IPCRequest::GitBranch { id, .. } => id.clone(),
        IPCRequest::GitCommit { id, .. } => id.clone(),
        IPCRequest::SearchPlugins { id, .. } => id.clone(),
        IPCRequest::ListPlugins { id, .. } => id.clone(),
        IPCRequest::InstallPlugin { id, .. } => id.clone(),
        IPCRequest::SetPluginEnabled { id, .. } => id.clone(),
        IPCRequest::UninstallPlugin { id, .. } => id.clone(),
        IPCRequest::StartMcp { id, .. } => id.clone(),
        IPCRequest::StopMcp { id, .. } => id.clone(),
        IPCRequest::LaunchGemma { id, .. } => id.clone(),
        IPCRequest::UpdateConfig { id, .. } => id.clone(),
        IPCRequest::GetMemoryCapabilities { id, .. } => id.clone(),
        IPCRequest::GracefulShutdown { id, .. } => id.clone(),
        IPCRequest::ListScheduledTasks { id, .. } => id.clone(),
        IPCRequest::CreateScheduledTask { id, .. } => id.clone(),
        IPCRequest::ApproveScheduledTask { id, .. } => id.clone(),
        IPCRequest::CancelScheduledTask { id, .. } => id.clone(),
        IPCRequest::PauseScheduledTask { id, .. } => id.clone(),
        IPCRequest::ResumeScheduledTask { id, .. } => id.clone(),
        IPCRequest::GetConversations { id, .. } => id.clone(),
        IPCRequest::SearchConversations { id, .. } => id.clone(),
        IPCRequest::RegenerateLastMessage { id, .. } => id.clone(),
        IPCRequest::GetConversationMessages { id, .. } => id.clone(),
        IPCRequest::PinConversation { id, .. } => id.clone(),
        IPCRequest::SetNodePinned { id, .. } => id.clone(),
        IPCRequest::DeleteNode { id, .. } => id.clone(),
        IPCRequest::UpdateNodeSummary { id, .. } => id.clone(),
        IPCRequest::GetMemoryHealth { id, .. } => id.clone(),
        IPCRequest::ExportMemory { id, .. } => id.clone(),
        IPCRequest::ImportMemory { id, .. } => id.clone(),
        IPCRequest::LogToolAudit { id, .. } => id.clone(),
        IPCRequest::GetToolAuditLog { id, .. } => id.clone(),
        IPCRequest::GetUserFact { id, .. } => id.clone(),
        IPCRequest::SetUserFact { id, .. } => id.clone(),
        IPCRequest::GetSessionTodos { id, .. } => id.clone(),
        IPCRequest::IndexDirectory { id, .. } => id.clone(),
        IPCRequest::DeleteConversation { id, .. } => id.clone(),
        IPCRequest::RenameConversation { id, .. } => id.clone(),
        IPCRequest::GetAppStats { id, .. } => id.clone(),
    }
}

/// The requests that are under way, each with the number of its token.
#[derive(Debug)]
pub struct Cancellations {
    pub tokens: StrMap<u64>,
    pub next: u64,
}

/// What is to be done with a request.
#[derive(Debug)]
#[allow(inconsistent_fields)]
pub enum RequestStep {
    /// The request under way with this token is to be cancelled, if there is
    /// one, and the answer sent.
    Cancel { token: Option<u64>, answer: IPCResponse },
    /// The request is to be handled under a new token.
    Start { id: String, token: u64, request: IPCRequest },
}

/// A request is taken in: one to cancel another one is answered at once, and any
/// other is noted under its id.
pub open spec fn takes_in(
    c: Cancellations,
    request: IPCRequest,
    n: Cancellations,
    r: RequestStep,
) -> bool {
    match request {
        IPCRequest::CancelRequest { id, target_id } => {
            &&& r matches RequestStep::Cancel { token, answer }
            &&& token == (if c.tokens@.contains_key(target_id@) {
                Some(c.tokens@[target_id@])
            } else {
                None
            })
            &&& (answer matches IPCResponse::Cancelled { id: i, target_id: t } && i@ == id@ && t@
                == target_id@)
            &&& n.tokens@ == c.tokens@.remove(target_id@)
            &&& n.next == c.next
        },
        _ => {
            &&& r matches RequestStep::Start { id, token, request: q }
            &&& id@ == request_id(request)
            &&& token == c.next
            &&& q == request
            &&& n.tokens@ == c.tokens@.insert(request_id(request), token)
            &&& n.next == c.next + 1
        },
    }
}

impl Cancellations {
    /// Nothing is under way.
    pub fn new() -> (r: Self)
        ensures
            r.tokens@ == Map::<Seq<char>, u64>::empty(),
            r.next == 0,
    {
        Cancellations { tokens: StrMap::new(), next: 0 }
    }

    /// Takes a request in. A request to cancel another one is answered at once;
    /// any other is noted under its id, so that it can be cancelled.
    pub fn on_request(&mut self, request: IPCRequest) -> (r: RequestStep)
        requires
            old(self).next < u64::MAX,
        ensures
            takes_in(*old(self), request, *final(self), r),
    {
        if let IPCRequest::CancelRequest { id, target_id } = request {
            let token = self.tokens.remove(&target_id);
            return RequestStep::Cancel {
                token,
                answer: IPCResponse::Cancelled { id, target_id },
            };
        }
        let id = extract_request_id(&request);
        let token: u64 = self.next;
        self.next = token + 1;
        self.tokens.insert(id.clone(), token);
        RequestStep::Start { id, token, request }
    }

    /// A request was handled: it is no longer under way, and this is its answer.
    pub fn on_done(&mut self, id: &str, outcome: Result<IPCResponse, String>) -> (r: IPCResponse)
        ensures
            final(self).tokens@ == old(self).tokens@.remove(id@),
            final(self).next == old(self).next,
            match outcome {
                Ok(resp) => r == resp,
                Err(e) => is_error(r, id@, e@),
            },
    {
        let _ = self.tokens.remove(id);
        match outcome {
            Ok(resp) => resp,
            Err(e) => error(id, e),
        }
    }
}

/// What is done with a line.
#[derive(Debug)]
#[allow(inconsistent_fields)]
pub enum LineAction {
    /// Nothing: the line is blank.
    Nothing,
    /// The answer is sent.
    Send { answer: IPCResponse },
    /// The request is taken in.
    Take { step: RequestStep },
}

/// Deals with a line that came in at `now_ms` and reads as `parsed`: a blank one
/// is passed over, one too many is refused, one that is no request is answered so,
/// and a request is taken in.
pub fn handle_connection(
    limiter: &mut RateLimiter,
    running: &mut Cancellations,
    line: &str,
    now_ms: u64,
    parsed: Result<IPCRequest, String>,
) -> (r: LineAction)
    requires
        old(running).next < u64::MAX,
    ensures
        if text::blank(line@) {
            r is Nothing && *final(limiter) == *old(limiter) && *final(running) == *old(running)
        } else {
            &&& final(limiter).recent@ == old(limiter).counted(now_ms)
            &&& if !old(limiter).lets_in(now_ms) {
                *final(running) == *old(running) && (r matches LineAction::Send { answer }
                    && is_error(answer, "rate-limited"@, RATE_LIMITED@))
            } else {
                match parsed {
                    Err(e) => *final(running) == *old(running) && (r matches LineAction::Send {
                        answer,
                    } && is_error(answer, "unknown"@, "Invalid JSON: "@ + e@)),
                    Ok(request) => r matches LineAction::Take { step } && takes_in(
                        *old(running),
                        request,
                        *final(running),
                        step,
                    ),
                }
            }
        },
{
    match on_line(limiter, line, now_ms) {
        LineStep::Ignore => LineAction::Nothing,
        LineStep::Refuse(answer) => LineAction::Send { answer },
        LineStep::Read(_) => match parsed {
            Err(e) => LineAction::Send { answer: on_unreadable(&e) },
            Ok(request) => LineAction::Take { step: running.on_request(request) },
        },
    }
}

/// A request that was taken in and not yet handled can be cancelled by its id,
/// and cancelling it leaves the others as they were.
pub proof fn a_started_request_can_be_cancelled(
    before: Cancellations,
    request: IPCRequest,
    started: Cancellations,
    start: RequestStep,
    cancel: IPCRequest,
    after: Cancellations,
    step: RequestStep,
)
    requires
        !(request is CancelRequest),
        takes_in(before, request, started, start),
        cancel matches IPCRequest::CancelRequest { id, target_id } && target_id@ == request_id(
            request,
        ),
        takes_in(started, cancel, after, step),
    ensures
        step matches RequestStep::Cancel { token, answer } && token == Some(start->Start_token),
        after.tokens@ == before.tokens@.remove(request_id(request)),
{
    assert(before.tokens@.insert(request_id(request), start->Start_token).remove(request_id(request))
        =~= before.tokens@.remove(request_id(request)));
}

/// The status that a scheduled task gets.
#[derive(Debug, Clone, Copy, PartialEq, Eq, Structural)]
pub enum TaskStatus {
    Active,
    Paused,
    Archived,
}

/// What handles a request.
#[derive(Debug)]
pub enum Dispatch {
    /// The answer is known.
    Reply(IPCResponse),
    /// A picture of the page, of all of it or of what is visible.
    Screenshot { id: String, full: bool },
    /// The last `n` commits.
    GitLog { id: String, n: usize },
    /// The status of a scheduled task is to be changed.
    SetTaskStatus { id: String, task_id: String, status: TaskStatus, action: String },
    /// The handler of the request is to be called.
    Handler(IPCRequest),
}

/// A change of the status of a scheduled task.
pub open spec fn sets_status(
    d: Dispatch,
    id: Seq<char>,
    task_id: Seq<char>,
    status: TaskStatus,
    action: Seq<char>,
) -> bool {
    d matches Dispatch::SetTaskStatus { id: i, task_id: t, status: s, action: a } && i@ == id && t@
        == task_id && s == status && a@ == action
}

/// What handles a request, with the configuration that is in force.
pub open spec fn dispatches(
    request: IPCRequest,
    config: LLMConfig,
    sessions: Sessions,
    d: Dispatch,
) -> bool {
    match request {
        IPCRequest::HealthCheck { id } => d matches Dispatch::Reply(IPCResponse::HealthCheck {
            id: i,
            status,
            mock_mode,
            model,
        }) && i@ == id@ && status@ == "ok"@ && mock_mode == text::blank(config.api_key@) && model@
            == config.model@,
        IPCRequest::CancelRequest { .. } => d matches Dispatch::Reply(e) && is_error(
            e,
            "?"@,
            "CancelRequest handled upstream"@,
        ),
        IPCRequest::GetSessionTodos { id, conversation_id } => d matches Dispatch::Reply(
            IPCResponse::SessionTodos { id: i, conversation_id: c, todos },
        ) && i@ == id@ && c@ == conversation_id@ && todos@.len() == sessions.todos(
            conversation_id@,
        ).len() && forall|k: int|
            0 <= k < todos@.len() ==> (#[trigger] todos@[k])@ == session::todo_json(
                sessions.todos(conversation_id@)[k],
            ),
        IPCRequest::Screenshot { id, full, .. } => d matches Dispatch::Screenshot {
            id: i,
            full: f,
        } && i@ == id@ && f == (match full {
            Some(b) => b,
            None => true,
        }),
        IPCRequest::GitLog { id, n } => d matches Dispatch::GitLog { id: i, n: m } && i@ == id@ && m
            == (match n {
            Some(k) => k,
            None => 10,
        }),
        IPCRequest::ApproveScheduledTask { id, task_id } => sets_status(
            d,
            id@,
            task_id@,
            TaskStatus::Active,
            "approve"@,
        ),
        IPCRequest::CancelScheduledTask { id, task_id } => sets_status(
            d,
            id@,
            task_id@,
            TaskStatus::Archived,
            "cancel"@,
        ),
        IPCRequest::PauseScheduledTask { id, task_id } => sets_status(
            d,
            id@,
            task_id@,
            TaskStatus::Paused,
            "pause"@,
        ),
        IPCRequest::ResumeScheduledTask { id, task_id } => sets_status(
            d,
            id@,
            task_id@,
            TaskStatus::Active,
            "resume"@,
        ),
        _ => d == Dispatch::Handler(request),
    }
}

/// What handles a request: what the service knows by itself is answered at
/// once, what a request leaves out is filled in, and all else goes to the
/// handler of its kind.
pub fn dispatch(request: IPCRequest, config: &LLMConfig, sessions: &Sessions) -> (r: Dispatch)
    ensures
        dispatches(request, *config, *sessions, r),
{
    match request {
        IPCRequest::HealthCheck { id } => Dispatch::Reply(
            IPCResponse::HealthCheck {
                id,
                status: "ok".to_owned(),
                mock_mode: text::is_blank(&config.api_key),
                model: config.model.clone(),
            },
        ),
        IPCRequest::CancelRequest { .. } => Dispatch::Reply(
            error("?", "CancelRequest handled upstream".to_owned()),
        ),
        IPCRequest::GetSessionTodos { id, conversation_id } => {
            let todos = get_session_todos_json(sessions, &conversation_id);
            Dispatch::Reply(IPCResponse::SessionTodos { id, conversation_id, todos })
        },
        IPCRequest::Screenshot { id, full, .. } => Dispatch::Screenshot {
            id,
            full: match full {
                Some(b) => b,
                None => true,
            },
        },
        IPCRequest::GitLog { id, n } => Dispatch::GitLog {
            id,
            n: match n {
                Some(k) => k,
                None => 10,
            },
        },
        IPCRequest::ApproveScheduledTask { id, task_id } => Dispatch::SetTaskStatus {
            id,
            task_id,
            status: TaskStatus::Active,
            action: "approve".to_owned(),
        },
        IPCRequest::CancelScheduledTask { id, task_id } => Dispatch::SetTaskStatus {
            id,
            task_id,
            status: TaskStatus::Archived,
            action: "cancel".to_owned(),
        },
        IPCRequest::PauseScheduledTask { id, task_id } => Dispatch::SetTaskStatus {
            id,
            task_id,
            status: TaskStatus::Paused,
            action: "pause".to_owned(),
        },
        IPCRequest::ResumeScheduledTask { id, task_id } => Dispatch::SetTaskStatus {
            id,
            task_id,
            status: TaskStatus::Active,
            action: "resume".to_owned(),
        },
        other => Dispatch::Handler(other),
    }
}

/// The start of the last day and of the last week, for counting.
pub fn stats_windows(now_unix: i64) -> (r: (i64, i64))
    requires
        now_unix >= i64::MIN + 7 * 86_400,
    ensures
        r.0 == now_unix - 86_400,
        r.1 == now_unix - 7 * 86_400,
{
    (now_unix - 86_400, now_unix - 7 * 86_400)
}

/// The instructions of a project: the first of the candidate files that could
/// be read and is not blank.
pub fn load_project_instructions(candidates: Vec<Option<String>>) -> (r: Option<String>)
    ensures
        match r {
            Some(t) => exists|i: int|
                0 <= i < candidates@.len() && #[trigger] candidates@[i] == Some(t) && !text::blank(
                    t@,
                ) && forall|j: int|
                    0 <= j < i ==> (#[trigger] candidates@[j] matches Some(u) ==> text::blank(u@)),
            None => forall|j: int|
                0 <= j < candidates@.len() ==> (#[trigger] candidates@[j] matches Some(u)
                    ==> text::blank(u@)),
        },
{
    for i in 0..candidates.len()
        invariant
            forall|j: int|
                0 <= j < i ==> (#[trigger] candidates@[j] matches Some(u) ==> text::blank(u@)),
    {
        if let Some(t) = &candidates[i] {
            if !text::is_blank(t) {
                let r = t.clone();
                assert(candidates@[i as int] == Some(r));
                return Some(r);
            }
        }
    }
    None
}

/// The answer to a question for what the memory can do, from its numbers of
/// nodes, edges and embeddings, which are zero where they cannot be had.
pub fn memory_capabilities(
    id: &str,
    gnn_available: bool,
    last_trained_at: Option<i64>,
    stats: Option<(i64, i64, i64)>,
) -> (r: IPCResponse)
    ensures
        r matches IPCResponse::MemoryCapabilities {
            id: i,
            gnn_available: g,
            last_trained_at: l,
            node_count,
            edge_count,
            embedding_count,
        } && i@ == id@ && g == gnn_available && l == last_trained_at && (
            node_count,
            edge_count,
            embedding_count,
        ) == (match stats {
            Some(s) => s,
            None => (0, 0, 0),
        }),
{
    let (node_count, edge_count, embedding_count) = match stats {
        Some(s) => s,
        None => (0, 0, 0),
    };
    IPCResponse::MemoryCapabilities {
        id: id.to_owned(),
        gnn_available,
        last_trained_at,
        node_count,
        edge_count,
        embedding_count,
    }
}

/// The answer to a request to index a directory: how many files were indexed,
/// or that it is none.
pub fn directory_indexed(
    id: &str,
    path: &str,
    is_directory: bool,
    outcome: &Result<usize, String>,
) -> (r: IPCResponse)
    ensures
        if is_directory {
            r matches IPCResponse::DirectoryIndexed { id: i, path: p, files_indexed } && i@ == id@
                && p@ == path@ && files_indexed == (match *outcome {
                Ok(n) => n,
                Err(_) => 0,
            })
        } else {
            is_error(r, id@, "Not a directory: "@ + path@)
        },
{
    if !is_directory {
        let mut m = "Not a directory: ".to_owned();
        m.append(path);
        return error(id, m);
    }
    let files_indexed: usize = match outcome {
        Ok(n) => *n,
        Err(_) => 0,
    };
    IPCResponse::DirectoryIndexed { id: id.to_owned(), path: path.to_owned(), files_indexed }
}

/// What was counted for the overview; what could not be counted is absent.
#[derive(Debug)]
pub struct StatsCounts {
    pub conversation_count: Option<i64>,
    pub message_count: Option<i64>,
    pub user_message_count: Option<i64>,
    pub conversations_today: Option<i64>,
    pub messages_today: Option<i64>,
    pub conversations_this_week: Option<i64>,
    pub memory_node_count: Option<i64>,
    pub memory_edge_count: Option<i64>,
    pub embedding_count: Option<i64>,
    pub plugin_installed_count: Option<i64>,
    pub plugin_enabled_count: Option<i64>,
    pub tool_calls_count: Option<i64>,
    pub db_size_bytes: Option<u64>,
    /// When the first message was written.
    pub first_message_at: Option<i64>,
    pub oldest_conversation_at: Option<i64>,
}

/// The answer to a question for the overview; absent counts are those of a
/// memory that cannot be reached.
pub fn app_stats(id: &str, now_unix: i64, counts: &Option<StatsCounts>) -> (r: IPCResponse)
    ensures
        match *counts {
            None => is_error(r, id@, "DB unavailable"@),
            Some(c) => r matches IPCResponse::AppStats {
                id: i,
                conversation_count,
                message_count,
                user_message_count,
                conversations_today,
                messages_today,
                conversations_this_week,
                memory_node_count,
                memory_edge_count,
                embedding_count,
                plugin_installed_count,
                plugin_enabled_count,
                tool_calls_count,
                db_size_bytes,
                started_at,
                oldest_conversation_at,
            } && i@ == id@
                && conversation_count == count(c.conversation_count)
                && message_count == count(c.message_count)
                && user_message_count == count(c.user_message_count)
                && conversations_today == count(c.conversations_today)
                && messages_today == count(c.messages_today)
                && conversations_this_week == count(c.conversations_this_week)
                && memory_node_count == count(c.memory_node_count)
                && memory_edge_count == count(c.memory_edge_count)
                && embedding_count == count(c.embedding_count)
                && plugin_installed_count == count(c.plugin_installed_count)
                && plugin_enabled_count == count(c.plugin_enabled_count)
                && tool_calls_count == count(c.tool_calls_count)
                && db_size_bytes == size(c.db_size_bytes)
                && started_at == (match c.first_message_at {
                Some(t) => t,
                None => now_unix,
            }) && oldest_conversation_at == c.oldest_conversation_at,
        },
{
    match counts {
        None => error(id, "DB unavailable".to_owned()),
        Some(c) => IPCResponse::AppStats {
            id: id.to_owned(),
            conversation_count: count_or_zero(c.conversation_count),
            message_count: count_or_zero(c.message_count),
            user_message_count: count_or_zero(c.user_message_count),
            conversations_today: count_or_zero(c.conversations_today),
            messages_today: count_or_zero(c.messages_today),
            conversations_this_week: count_or_zero(c.conversations_this_week),
            memory_node_count: count_or_zero(c.memory_node_count),
            memory_edge_count: count_or_zero(c.memory_edge_count),
            embedding_count: count_or_zero(c.embedding_count),
            plugin_installed_count: count_or_zero(c.plugin_installed_count),
            plugin_enabled_count: count_or_zero(c.plugin_enabled_count),
            tool_calls_count: count_or_zero(c.tool_calls_count),
            db_size_bytes: size_or_zero(c.db_size_bytes),
            started_at: match c.first_message_at {
                Some(t) => t,
                None => now_unix,
            },
            oldest_conversation_at: c.oldest_conversation_at,
        },
    }
}

} // verus!
