//! What the functions of the library promise: that they give what holds of them here.

use crate::indexer::file_indexer::FileIndexer;
use crate::indexer::notes::{extract_todos, guess_file_type, guess_mime_type};
use crate::indexer::structure::{
    chunk_fingerprints, chunk_views, count_control_flow_tokens, extract_import_target,
    extract_structure, extract_symbol_signature, is_comment_line, ChunkFingerprint,
    StructuralFingerprint,
};
use crate::indexer::{notes, structure};
use crate::ipc::guards::{
    self, build_chat_messages_with_context, sanitize_chat_message, SanitizedChatInput,
};
use crate::ipc::handlers::chat::execute::{asks, execute_tool, ToolPlan};
use crate::ipc::handlers::chat::files::{
    self, git_diff_for_file, list_answer, plain_answer, read_answer, Listing,
};
use crate::ipc::handlers::chat::grep::{self, run_builtin_grep, WalkedFile};
use crate::ipc::handlers::chat::modes::{
    self, add_warnings, coder_messages, context_text, guard_reply, narrow_tools, replay,
    simulate_edit, team_messages, team_model, timed_out_result, tools_supported, trim_result,
};
use crate::ipc::handlers::chat::outline::{self, extract_imports, outline_source};
use crate::ipc::handlers::chat::patch::{self, apply_unified_patch, patch_if_possible};
use crate::ipc::handlers::chat::prompt::{
    self, add_user_note, compose_prompt, conversation_history, detect_provider, effective_config,
    index_hint, is_too_short, is_trivial_query, mode_max_tokens, needs_local_server, route_chat,
    splice_history, truncate_history, ChatRoute, PromptParts, Turn,
};
use crate::ipc::handlers::chat::search::{self, full_glob, glob_answer, search_in_file};
use crate::ipc::handlers::chat::stream::{self, data_of_line, StreamOut};
use crate::ipc::handlers::conversations::{self, title_fallback, title_of_reply, title_wanted};
use crate::ipc::handlers::tool_dispatch::{self, dispatch};
use crate::json::Json;
use crate::llm::client::{self, is_local_model};
use crate::llm::types::{
    message_views, text_view, tool_views, FloatBits, LLMConfig, Message, ToolDefinition,
};
use crate::outside;
use crate::text;
use vstd::prelude::*;

verus! {

/// A diff is applied as the laws on diffs say.
pub proof fn diffs_are_applied(
    original: &str,
    diff: &str,
    r: Result<String, String>,
    o: Option<Result<String, String>>,
)
    ensures
        call_ensures(apply_unified_patch, (original, diff), r) && outside::regex_problem(
            patch::HUNK_PATTERN@,
            false,
        ) is None ==> ({
            let lines = text::lines(diff@);
            let p = patch::patched(original@, lines, patch::hunk_starts(lines));
            &&& p matches Some(Ok(t)) ==> (r matches Ok(x) && x@ == t)
            &&& p matches Some(Err(e)) ==> (r matches Err(x) && x@ == e)
        }),
        call_ensures(patch_if_possible, (original, diff), o) && outside::regex_problem(
            patch::HUNK_PATTERN@,
            false,
        ) is None ==> ({
            let lines = text::lines(diff@);
            let p = patch::patched(original@, lines, patch::hunk_starts(lines));
            &&& p is None <==> o is None
            &&& p matches Some(Ok(t)) ==> (o matches Some(Ok(x)) && x@ == t)
            &&& p matches Some(Err(e)) ==> (o matches Some(Err(x)) && x@ == e)
        }),
        forall|lines: Seq<Seq<char>>, i: int|
            0 <= i < lines.len() ==> (match outside::regex_groups(
                "^@@ -(\\d+)(?:,(\\d+))? \\+(\\d+)(?:,(\\d+))? @@"@,
                false,
                lines[i],
            ) {
                Some((Some(a), b)) => #[trigger] patch::hunk_starts(lines)[i] == Some((a, b)),
                _ => patch::hunk_starts(lines)[i] is None,
            }),
{
}

/// Files are searched as the laws on searching say.
pub proof fn searches_are_made(
    files: &Vec<WalkedFile>,
    pattern: &str,
    glob: &str,
    mode: &str,
    folds: bool,
    max: usize,
    r: Option<String>,
)
    requires
        call_ensures(run_builtin_grep, (files, pattern, glob, mode, folds, max), r),
    ensures
        outside::regex_problem(pattern@, folds) matches Some(p) ==> (r matches Some(e) && e@
            == "Error: invalid regex: "@ + p),
        outside::regex_problem(pattern@, folds) is None ==> ({
            let names = if glob@.len() == 0 || outside::regex_problem(
                "^"@ + grep::glob_chars(glob@) + "$"@,
                false,
            ) is Some {
                None
            } else {
                Some("^"@ + grep::glob_chars(glob@) + "$"@)
            };
            let q = grep::SearchV { pattern: pattern@, folds, names, mode: mode@, max: max as nat };
            match grep::grepped(grep::nothing_found(), q, files@) {
                Some(f) => r matches Some(a) && a@ == grep::answer(f, mode@, max as nat),
                None => r is None,
            }
        }),
{
}

/// A call of a tool asks for what its arguments say.
pub proof fn calls_are_read(name: &str, args: &Json, p: ToolPlan)
    requires
        call_ensures(execute_tool, (name, args), p),
    ensures
        asks(name@, args@, p),
{
}

/// A prompt is put together of all its parts, and its message is sanitized first.
pub proof fn prompts_are_composed(
    message: &str,
    parts: PromptParts,
    r: Result<(Vec<Message>, Vec<String>), String>,
)
    requires
        call_ensures(compose_prompt, (message, parts), r),
    ensures
        r is Ok <==> guards::sanitized(message@) is Ok,
        r matches Ok((m, w)) ==> message_views(m@) == prompt::whole_prompt(
            guards::sanitized(message@)->Ok_0,
            parts,
        ) && text::views(w@) == guards::sanitized(message@)->Ok_0.warnings,
        r matches Err(e) ==> guards::sanitized(message@)->Err_0 == e@,
{
}

/// The pieces of a prompt are made as the laws on prompts say.
pub proof fn parts_of_prompts_are_made(
    messages: &mut Vec<Message>,
    facts: &Vec<(String, String)>,
    stored: Option<Vec<Turn>>,
    latest: Vec<Turn>,
    h: Vec<Message>,
    said: Vec<Message>,
    items: &Vec<(String, String)>,
    hint: Option<String>,
)
    ensures
        call_ensures(add_user_note, (messages, facts), ()) ==> message_views(final(messages)@)
            == message_views(old(messages)@) + prompt::user_note(prompt::turns(facts@)),
        call_ensures(truncate_history, (messages,), ()) ==> message_views(final(messages)@)
            == prompt::cut_to_budget(message_views(old(messages)@)),
        call_ensures(splice_history, (messages, said), ()) && said@.len() > 0 && old(messages)@.len()
            > 0 ==> message_views(final(messages)@) == message_views(old(messages)@).drop_last()
            + message_views(said@) + seq![message_views(old(messages)@).last()],
        call_ensures(conversation_history, (stored, latest), h) ==> message_views(h@)
            == prompt::history(
            match stored {
                Some(all) => Some(prompt::turns(all@)),
                None => None,
            },
            prompt::turns(latest@),
        ),
        call_ensures(index_hint, (items,), hint) ==> text_view(hint) == prompt::index_text(
            prompt::turns(items@),
        ),
{
    assert(message_views(said@).len() == said@.len());
}

/// A chat is led as it was asked for.
pub proof fn chats_are_led(
    mode: Option<&str>,
    name: &str,
    message: &str,
    route: ChatRoute,
    trivial: bool,
    short: bool,
    base: LLMConfig,
    tokens: Option<u32>,
    temperature: Option<FloatBits>,
    c: LLMConfig,
    n: u32,
    needs: bool,
    tag: &'static str,
)
    ensures
        call_ensures(route_chat, (mode, message), route) ==> (mode is None ==> route
            == ChatRoute::Chat) && (mode matches Some(m) ==> route == prompt::routed(m@, message@)),
        call_ensures(is_trivial_query, (message,), trivial) ==> trivial == prompt::trivial_query(
            message@,
        ),
        call_ensures(is_too_short, (message,), short) ==> short == prompt::too_short(message@),
        call_ensures(effective_config, (base, name, tokens, temperature), c) ==> c.max_tokens
            == prompt::token_cap(name@, tokens) && c.model == base.model && (
        temperature matches Some(t) ==> c.temperature == t) && (temperature is None ==> c.temperature
            == base.temperature),
        call_ensures(mode_max_tokens, (name,), n) ==> n == prompt::mode_limit(name@),
        call_ensures(needs_local_server, (mode,), needs) ==> (mode is None ==> !needs) && (
        mode matches Some(m) ==> needs == (text::occurs(m@, ":"@) || text::begins_any(
            text::lower(m@),
            prompt::served_prefixes(),
        ))),
        call_ensures(detect_provider, (name,), tag) ==> tag@ == prompt::provider_tag(name@),
{
    reveal_strlit("Chat");
    reveal_strlit("Team");
    assert("Chat"@[0] == 'C' && "Team"@[0] == 'T');
}

/// What a file shows of itself is read as the laws on files say.
pub proof fn files_are_taken_in(
    content: &str,
    s: StructuralFingerprint,
    line: Option<String>,
    l: Vec<ChunkFingerprint>,
    todos: Vec<String>,
    b: bool,
    n: usize,
    is_text: bool,
    t: String,
    segments: &Vec<String>,
)
    ensures
        call_ensures(extract_structure, (content,), s) ==> structure::is_structure(content@, s),
        call_ensures(extract_symbol_signature, (content,), line) ==> text_view(line)
            == structure::signature(content@),
        call_ensures(extract_import_target, (content,), line) ==> text_view(line)
            == structure::import_target(content@),
        call_ensures(chunk_fingerprints, (content,), l) ==> chunk_views(l@) == structure::chunks(
            content@,
        ),
        call_ensures(extract_todos, (content,), todos) ==> text::views(todos@) == notes::todos_in(
            text::lines(content@),
            text::lines(content@).len(),
        ),
        call_ensures(is_comment_line, (content,), b) ==> b == structure::comment(content@),
        call_ensures(count_control_flow_tokens, (content,), n) ==> n == structure::branch_count(
            content@,
            9,
        ),
        call_ensures(guess_mime_type, (content, is_text), t) ==> t@ == notes::mime_type(
            content@,
            is_text,
        ),
        call_ensures(guess_file_type, (content, is_text), t) ==> t@ == notes::file_type(
            content@,
            is_text,
        ),
        call_ensures(FileIndexer::<(), ()>::should_skip_path, (segments,), b) ==> b
            == crate::indexer::file_indexer::skips(text::views(segments@)),
        call_ensures(FileIndexer::<(), ()>::wants, (is_text, b, segments), is_text) ==> (is_text
            ==> b || !crate::indexer::file_indexer::skips(text::views(segments@))),
{
}

/// Files and directories are shown as the laws on reading say.
pub proof fn files_are_shown(
    content: &str,
    ext: &str,
    note: &Option<String>,
    offset: u64,
    limit: Option<u64>,
    r: String,
    recursive: bool,
    pattern: &str,
    l: &Listing,
    found: &Result<Vec<(String, i128)>, String>,
    folds: bool,
    absolute: bool,
    outcome: Result<String, String>,
    head: &Option<Vec<u8>>,
    index: &Option<Vec<u8>>,
    diff: Option<String>,
    list: Vec<String>,
)
    ensures
        call_ensures(read_answer, (content, ext, note, offset, limit), r) ==> r@ == files::read_text(
            content@,
            ext@,
            text_view(*note),
            offset,
            limit,
        ),
        call_ensures(list_answer, (content, recursive, pattern, l), r) ==> r@ == files::list_text(
            content@,
            recursive,
            pattern@,
            *l,
        ),
        call_ensures(glob_answer, (pattern, found), r) ==> r@ == search::glob_text(
            pattern@,
            search::found_view(*found),
        ),
        call_ensures(full_glob, (ext, pattern, absolute), r) ==> (absolute ==> r@ == pattern@) && (
        !absolute ==> r@ == ext@ + "/"@ + pattern@),
        call_ensures(search_in_file, (pattern, folds, ext, content, offset), r)
            && outside::regex_problem(pattern@, folds) is None ==> r@ == search::search_text(
            pattern@,
            ext@,
            text::lines(content@),
            text::lines(content@).map_values(
                |x: Seq<char>| outside::regex_matches(pattern@, folds, x),
            ),
            offset,
        ),
        call_ensures(outline_source, (pattern, ext, content), r) ==> r@ == outline::outline_text(
            pattern@,
            outline::symbols(
                outline::patterns_for(ext@),
                text::lines(content@),
                text::lines(content@).len(),
            ),
        ),
        call_ensures(extract_imports, (content, ext), list) ==> text::views(list@)
            == outline::imports(ext@, text::lines(content@)),
        call_ensures(plain_answer, (outcome,), r) ==> (outcome matches Ok(t) ==> r@ == t@) && (
        outcome matches Err(e) ==> r@ == "Error: "@ + e@),
        call_ensures(git_diff_for_file, (head, index), diff) ==> text_view(diff)
            == files::change_note(files::bytes_view(*head), files::bytes_view(*index)),
{
    if call_ensures(search_in_file, (pattern, folds, ext, content, offset), r)
        && outside::regex_problem(pattern@, folds) is None {
        assert(search::hits_in(pattern@, folds, text::lines(content@)) =~= text::lines(
            content@,
        ).map_values(|x: Seq<char>| outside::regex_matches(pattern@, folds, x)));
    }
}

/// Messages are sanitized and sent as the laws on messages say.
pub proof fn messages_are_sanitized(
    input: &str,
    context: Option<&str>,
    s: Result<SanitizedChatInput, String>,
    r: Result<(Vec<Message>, Vec<String>), String>,
)
    ensures
        call_ensures(sanitize_chat_message, (input,), s) ==> (s matches Ok(x)
            ==> guards::sanitized(input@) is Ok && x@ == guards::sanitized(input@)->Ok_0) && (
        s matches Err(e) ==> guards::sanitized(input@) is Err && guards::sanitized(input@)->Err_0
            == e@),
        call_ensures(build_chat_messages_with_context, (input, context), r) ==> (r matches Ok((m, w))
            ==> guards::sanitized(input@) is Ok && message_views(m@) == guards::chat_messages(
            guards::sanitized(input@)->Ok_0,
            match context {
                Some(c) => Some(c@),
                None => None,
            },
        )),
{
}

/// Agents are told and shown what the laws on agents say.
pub proof fn agents_are_told(
    content: String,
    warnings: &Vec<String>,
    r: String,
    text_in: &str,
    outs: Vec<StreamOut>,
    messages: Vec<Message>,
    list: &Vec<String>,
    m: Vec<Message>,
    tools: &Vec<ToolDefinition>,
    few: Vec<ToolDefinition>,
    shown: Option<String>,
    args: &Json,
    packet: Option<&Json>,
    model: Option<&str>,
    b: bool,
    top: (Vec<Message>, usize),
)
    ensures
        call_ensures(add_warnings, (content, warnings), r) ==> r@ == modes::with_warnings(
            content@,
            text::views(warnings@),
        ),
        call_ensures(guard_reply, (content, warnings), r) ==> r@ == modes::guarded(
            content@,
            text::views(warnings@),
        ),
        call_ensures(replay, (text_in,), outs) ==> stream::out_views(outs@) == text::cuts(
            text_in@,
        ).map_values(|w: Seq<char>| stream::OutV::Token(w)),
        call_ensures(coder_messages, (messages, list), m) ==> message_views(m@)
            == modes::coder_prompt(message_views(messages@), text::views(list@)),
        call_ensures(narrow_tools, (tools, list), few) ==> tool_views(few@) == modes::narrowed(
            tool_views(tools@),
            text::views(list@),
        ),
        call_ensures(trim_result, (text_in,), shown) ==> text_view(shown) == modes::shown_result(
            text_in@,
        ),
        call_ensures(simulate_edit, (text_in, args), r) ==> modes::simulates(text_in@, args@, r@),
        call_ensures(context_text, (packet,), shown) ==> text_view(shown) == modes::known_context(
            match packet {
                Some(p) => Some(p@),
                None => None,
            },
        ),
        call_ensures(team_messages, (messages, shown, text_in), top) ==> message_views(top.0@)
            == modes::team_top(text_view(shown), text_in@) + message_views(messages@),
        call_ensures(team_model, (model, text_in), r) ==> (model matches Some(x) ==> r@
            == text::lower(x@)) && (model is None ==> r@ == text::lower(text_in@)),
        call_ensures(tools_supported, (text_in, model), b) ==> (b <==> !text::occurs(
            text_in@,
            "bard"@,
        ) && (model is None || (model->0)@ != "1"@)),
        call_ensures(timed_out_result, (text_in,), r) ==> r@ == "Error: tool '"@ + text_in@
            + "' timed out after "@ + text::decimal(120)
            + "s. Use run_in_background=true for long commands."@,
{
}

/// Streams, titles, models and tools are read as the laws on them say.
pub proof fn other_texts_are_read(
    raw: &str,
    d: Option<String>,
    t: String,
    first: &Vec<(String, String)>,
    n: i64,
    title: &Option<String>,
    b: bool,
    name: &str,
    args: &Json,
    r: Result<Option<String>, String>,
)
    ensures
        call_ensures(data_of_line, (raw,), d) ==> text_view(d) == stream::line_data(raw@),
        call_ensures(title_of_reply, (raw,), t) ==> t@ == conversations::title_in(raw@),
        call_ensures(title_fallback, (first,), t) ==> t@ == conversations::title_without(
            conversations::said_views(first@),
        ),
        call_ensures(title_wanted, (n, title), b) ==> b == conversations::wants_title(
            n,
            text_view(*title),
        ),
        call_ensures(is_local_model, (raw,), b) ==> b == client::local_model(raw@),
        call_ensures(dispatch, (name, args), r) ==> (r matches Ok(Some(x))
            ==> tool_dispatch::dispatched(name@, args@) == Ok::<_, Seq<char>>(Some(x@))) && (
        r matches Ok(None) ==> tool_dispatch::dispatched(name@, args@) == Ok::<_, Seq<char>>(
            None::<Seq<char>>,
        )) && (r matches Err(e) ==> tool_dispatch::dispatched(name@, args@) == Err::<
            Option<Seq<char>>,
            _,
        >(e@)),
{
}

} // verus!
