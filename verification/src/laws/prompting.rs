//! What a prompt holds.

use crate::ipc::guards::{chat_messages, SanitizedV};
use crate::ipc::handlers::chat::prompt::{
    code_endings, core_keys, cut_to_budget, digest, digest_line, essentials, first_said,
    fitting_note, history, index_line, index_lines, index_text, mode_limit, opt, plugin_words,
    plugins_note, preamble, provider_tag, routed, served_prefixes, shell_signs, spliced, token_cap,
    too_short, total_bytes, trivial_query, turns, user_note, whole_prompt, within_budget,
    work_verbs, ActivePlugin, ChatRoute, PromptParts, DIGEST_HEADER,
};
use crate::laws::parts::{concat, joined_parts_occur, occurs_within};
use crate::llm::types::{message_views, MessageV};
use crate::text;
use vstd::prelude::*;

verus! {

// ---------------------------------------------------------------------------
// The user
// ---------------------------------------------------------------------------

/// A fact that the model is always told.
pub open spec fn is_essential(f: (Seq<char>, Seq<char>)) -> bool {
    let key = text::lower(f.0);
    key == "name"@ || key == "full_name"@ || key == "pronouns"@ || key == "timezone"@ || key
        == "location"@
}

/// The line for a fact.
pub open spec fn fact_line(f: (Seq<char>, Seq<char>)) -> Seq<char> {
    "\u{2022} "@ + f.0 + ": "@ + f.1
}

proof fn core_is_essential(f: (Seq<char>, Seq<char>))
    ensures
        core_keys().contains(text::lower(f.0)) <==> is_essential(f),
{
    let k = core_keys();
    assert(k.len() == 5);
    assert(k[0] == "name"@ && k[1] == "full_name"@ && k[2] == "pronouns"@ && k[3] == "timezone"@
        && k[4] == "location"@);
}

/// Every essential fact about the user has a line of its own, in the order of the
/// facts, and no other fact has one.
pub proof fn every_essential_fact_has_a_line(facts: Seq<(Seq<char>, Seq<char>)>)
    ensures
        essentials(facts) == facts.filter(
            |f: (Seq<char>, Seq<char>)| is_essential(f),
        ).map_values(|f: (Seq<char>, Seq<char>)| fact_line(f)),
    decreases facts.len(),
{
    reveal(Seq::filter);
    let p = |f: (Seq<char>, Seq<char>)| is_essential(f);
    let l = |f: (Seq<char>, Seq<char>)| fact_line(f);
    if facts.len() > 0 {
        every_essential_fact_has_a_line(facts.drop_last());
        core_is_essential(facts.last());
    }
    assert(essentials(facts) =~= facts.filter(p).map_values(l));
}

/// Where anything is known of the user, the model is told in one message: each
/// essential fact word for word, and how many others there are.
pub proof fn the_user_is_told_of(facts: Seq<(Seq<char>, Seq<char>)>)
    requires
        facts.len() > 0,
    ensures
        ({
            let others = facts.filter(|f: (Seq<char>, Seq<char>)| !is_essential(f)).len();
            let note = user_note(facts);
            &&& note.len() == 1
            &&& note[0].role == "system"@
            &&& forall|i: int|
                0 <= i < facts.len() && is_essential(#[trigger] facts[i]) ==> text::occurs(
                    note[0].content,
                    fact_line(facts[i]),
                )
            &&& 0 < others < facts.len() ==> text::ends(
                note[0].content,
                "\n[+"@ + text::decimal(others) + " more facts available via search_memory]"@,
            )
            &&& others == facts.len() ==> text::occurs(note[0].content, text::decimal(others))
            &&& others == 0 ==> note[0].content == "# User (essentials)\n"@ + text::join(
                facts.map_values(|f: (Seq<char>, Seq<char>)| fact_line(f)),
                "\n"@,
            )
        }),
{
    broadcast use vstd::seq_lib::group_filter_ensures;

    every_essential_fact_has_a_line(facts);
    let p = |f: (Seq<char>, Seq<char>)| is_essential(f);
    let l = |f: (Seq<char>, Seq<char>)| fact_line(f);
    let q = |f: (Seq<char>, Seq<char>)| !is_essential(f);
    let e = essentials(facts);
    let others = facts.filter(q).len();
    two_parts(facts);
    let note = user_note(facts);
    let hint = "# User (essentials)\n"@ + text::join(e, "\n"@);
    let more = "\n[+"@ + text::decimal(others) + " more facts available via search_memory]"@;
    assert(hint + "\n[+"@ + text::decimal(others) + " more facts available via search_memory]"@
        =~= hint + more);
    if e.len() > 0 {
        assert forall|i: int|
            0 <= i < facts.len() && is_essential(#[trigger] facts[i]) implies text::occurs(
            note[0].content,
            fact_line(facts[i]),
        ) by {
            let j = choose|j: int| 0 <= j < facts.filter(p).len() && facts.filter(p)[j] == facts[i];
            assert(facts.filter(p).contains(facts[i]));
            assert(e[j] == fact_line(facts[i]));
            joined_parts_occur(e, "\n"@, j);
            occurs_within("# User (essentials)\n"@, text::join(e, "\n"@), Seq::empty(), e[j]);
            assert("# User (essentials)\n"@ + text::join(e, "\n"@) + Seq::<char>::empty() =~= hint);
            occurs_within(Seq::empty(), hint, more, e[j]);
            assert(Seq::<char>::empty() + hint + more =~= hint + more);
        }
        if others > 0 {
            assert((hint + more).subrange(hint.len() as int, (hint + more).len() as int) =~= more);
        } else {
            none_is_left(facts);
            assert(facts.filter(p) =~= facts);
        }
    } else {
        assert forall|i: int| 0 <= i < facts.len() implies !is_essential(#[trigger] facts[i]) by {
            if is_essential(facts[i]) {
                    assert(facts.filter(p).contains(facts[i]));
            }
        }
        let d = text::decimal(others);
        assert(d.subrange(0, d.len() as int) =~= d);
        assert(text::match_at(d, d, 0));
        occurs_within(
            "# User\n["@,
            d,
            " facts stored - query with search_memory if needed]"@,
            d,
        );
    }
}

proof fn two_parts(facts: Seq<(Seq<char>, Seq<char>)>)
    ensures
        facts.filter(|f: (Seq<char>, Seq<char>)| is_essential(f)).len() + facts.filter(
            |f: (Seq<char>, Seq<char>)| !is_essential(f),
        ).len() == facts.len(),
    decreases facts.len(),
{
    reveal(Seq::filter);
    if facts.len() > 0 {
        two_parts(facts.drop_last());
    }
}

proof fn none_is_left(facts: Seq<(Seq<char>, Seq<char>)>)
    requires
        facts.filter(|f: (Seq<char>, Seq<char>)| !is_essential(f)).len() == 0,
    ensures
        facts.filter(|f: (Seq<char>, Seq<char>)| is_essential(f)) == facts,
    decreases facts.len(),
{
    reveal(Seq::filter);
    if facts.len() > 0 {
        none_is_left(facts.drop_last());
        assert(facts.drop_last().push(facts.last()) =~= facts);
    } else {
        assert(facts.filter(|f: (Seq<char>, Seq<char>)| is_essential(f)) =~= facts);
    }
}

// ---------------------------------------------------------------------------
// The conversation
// ---------------------------------------------------------------------------

/// What is said of a turn in a digest: its role, and the first 120 characters of
/// what was said, on one line.
pub open spec fn told_turn(t: (Seq<char>, Seq<char>)) -> Seq<char> {
    "- "@ + t.0 + ": "@ + (if t.1.len() <= 120 {
        t.1
    } else {
        t.1.take(120)
    }).map_values(
        |c: char|
            if c == '\n' {
                ' '
            } else {
                c
            },
    ) + "\n"@
}

proof fn line_feeds_become_spaces(s: Seq<char>)
    ensures
        text::replace(s, "\n"@, " "@) == s.map_values(
            |c: char|
                if c == '\n' {
                    ' '
                } else {
                    c
                },
        ),
    decreases s.len(),
{
    reveal_strlit("\n");
    reveal_strlit(" ");
    let m = |c: char|
        if c == '\n' {
            ' '
        } else {
            c
        };
    if s.len() > 0 {
        line_feeds_become_spaces(s.skip(1));
        if s[0] == '\n' {
            assert(s.subrange(0, 1) =~= "\n"@);
        } else if text::begins(s, "\n"@) {
            assert(s.subrange(0, 1)[0] == '\n');
        }
        assert(text::replace(s, "\n"@, " "@) =~= s.map_values(m));
    } else {
        assert(text::replace(s, "\n"@, " "@) =~= s.map_values(m));
    }
}

proof fn digest_from(d: Seq<char>, older: Seq<(Seq<char>, Seq<char>)>)
    requires
        text::byte_count(d) <= 1800,
    ensures
        ({
            let whole = d + concat(older.map_values(|t: (Seq<char>, Seq<char>)| told_turn(t)));
            if text::byte_count(whole) <= 1800 {
                digest(d, older) == Some(whole)
            } else {
                match digest(d, older) {
                    Some(r) => exists|cut: Seq<char>|
                        text::byte_count(cut) == 1800 && #[trigger] text::begins(whole, cut) && r
                            == cut + "\u{2026}\n"@,
                    None => true,
                }
            }
        }),
    decreases older.len(),
{
    let f = |t: (Seq<char>, Seq<char>)| told_turn(t);
    let whole = d + concat(older.map_values(f));
    if older.len() == 0 {
        assert(whole =~= d);
    } else {
        let e = d + digest_line(older[0]);
        line_feeds_become_spaces(text::head(older[0].1, 120));
        assert(digest_line(older[0]) =~= told_turn(older[0]));
        assert(older.map_values(f).skip(1) =~= older.skip(1).map_values(f));
        let rest = concat(older.skip(1).map_values(f));
        assert(whole =~= e + rest);
        text::byte_count_sum(e, rest);
        if text::byte_count(e) <= 1800 {
            digest_from(e, older.skip(1));
        } else {
            text::byte_cut_is_prefix(e, 1800);
            if let Some(cut) = text::byte_cut(e, 1800) {
                assert(whole.subrange(0, cut.len() as int) =~= cut);
                assert(text::begins(whole, cut));
            }
        }
    }
}

/// The digest of older turns tells every one of them, in order and on a line of its
/// own; where that takes more than eighteen hundred bytes it is cut there.
pub proof fn a_digest_tells_every_turn(older: Seq<(Seq<char>, Seq<char>)>)
    ensures
        ({
            let whole = DIGEST_HEADER@ + concat(
                older.map_values(|t: (Seq<char>, Seq<char>)| told_turn(t)),
            );
            if text::byte_count(whole) <= 1800 {
                digest(DIGEST_HEADER@, older) == Some(whole)
            } else {
                match digest(DIGEST_HEADER@, older) {
                    Some(r) => exists|cut: Seq<char>|
                        text::byte_count(cut) == 1800 && #[trigger] text::begins(whole, cut) && r
                            == cut + "\u{2026}\n"@,
                    None => true,
                }
            }
        }),
{
    reveal_strlit(
        "Earlier in this conversation (digest - call search_memory for detail):\n",
    );
    text::byte_count_most(DIGEST_HEADER@);
    digest_from(DIGEST_HEADER@, older);
}

/// Of a conversation whose turns cannot be had, the latest exchange is sent, the
/// oldest turn first and word for word.
pub proof fn the_latest_exchange_is_sent(latest: Seq<(Seq<char>, Seq<char>)>)
    ensures
        history(None, latest).len() == latest.len(),
        forall|i: int|
            0 <= i < latest.len() ==> (#[trigger] history(None, latest)[i]).role == latest[latest.len()
                - 1 - i].0 && history(None, latest)[i].content == latest[latest.len() - 1 - i].1,
{
}

/// The messages that are no messages of the system.
pub open spec fn of_others(messages: Seq<MessageV>) -> Seq<MessageV> {
    messages.filter(|m: MessageV| m.role != "system"@)
}

proof fn first_said_is_first(messages: Seq<MessageV>)
    ensures
        first_said(messages) <= messages.len(),
        forall|i: int| 0 <= i < first_said(messages) ==> (#[trigger] messages[i]).role
            == "system"@,
        first_said(messages) < messages.len() ==> messages[first_said(messages) as int].role
            != "system"@,
    decreases messages.len(),
{
    if messages.len() > 0 && messages[0].role == "system"@ {
        first_said_is_first(messages.skip(1));
        assert forall|i: int| 0 <= i < first_said(messages) implies (#[trigger] messages[i]).role
            == "system"@ by {
            if i > 0 {
                assert(messages[i] == messages.skip(1)[i - 1]);
            }
        }
    }
}

proof fn the_first_goes(messages: Seq<MessageV>, i: int)
    requires
        0 <= i < messages.len(),
        messages[i].role != "system"@,
        forall|j: int| 0 <= j < i ==> (#[trigger] messages[j]).role == "system"@,
    ensures
        of_others(messages).len() > 0,
        of_others(messages)[0] == messages[i],
        of_others(messages.remove(i)) == of_others(messages).skip(1),
    decreases messages.len(),
{
    reveal(Seq::filter);
    let rest = messages.remove(i);
    let front = messages.drop_last();
    if i == messages.len() - 1 {
        only_system(front);
        assert(rest =~= front);
        assert(of_others(messages) =~= seq![messages[i]]);
        assert(of_others(rest) =~= of_others(messages).skip(1));
    } else {
        the_first_goes(front, i);
        assert(rest.drop_last() =~= front.remove(i));
        assert(rest.last() == messages.last());
        assert(of_others(rest) =~= of_others(messages).skip(1));
    }
}

proof fn only_system(messages: Seq<MessageV>)
    requires
        forall|j: int| 0 <= j < messages.len() ==> (#[trigger] messages[j]).role == "system"@,
    ensures
        of_others(messages) == Seq::<MessageV>::empty(),
    decreases messages.len(),
{
    reveal(Seq::filter);
    if messages.len() > 0 {
        only_system(messages.drop_last());
    }
    assert(of_others(messages) =~= Seq::empty());
}

/// The bytes of messages add up, and those of one message are the bytes of its
/// content.
pub proof fn bytes_add_up(a: Seq<MessageV>, b: Seq<MessageV>, m: MessageV)
    ensures
        total_bytes(a + b) == total_bytes(a) + total_bytes(b),
        total_bytes(seq![m]) == text::byte_count(m.content),
    decreases b.len(),
{
    reveal_with_fuel(total_bytes, 2);
    assert(seq![m].drop_last() =~= Seq::empty());
    if b.len() == 0 {
        assert(a + b =~= a);
    } else {
        bytes_add_up(a, b.drop_last(), m);
        assert((a + b).drop_last() =~= a + b.drop_last());
    }
}

/// A prompt of at most ninety thousand tokens, of four bytes each, is not cut. Of a
/// longer one the oldest things that were said go, only as many as needed: what is
/// left of them is an end of what was said.
pub proof fn the_oldest_goes_first(messages: Seq<MessageV>)
    ensures
        total_bytes(messages) < 360_004 ==> cut_to_budget(messages) == messages,
        exists|k: int|
            0 <= k <= of_others(messages).len() && of_others(cut_to_budget(messages))
                == #[trigger] of_others(messages).skip(k),
        total_bytes(cut_to_budget(messages)) < 360_004 || cut_to_budget(messages).len() <= 2
            || of_others(cut_to_budget(messages)).len() == 0,
        messages.len() >= 2 ==> cut_to_budget(messages).len() >= 2,
    decreases messages.len(),
{
    first_said_is_first(messages);
    let i = first_said(messages) as int;
    assert(of_others(messages).skip(0) =~= of_others(messages));
    if within_budget(messages) || messages.len() <= 2 || i >= messages.len() {
        if i >= messages.len() {
            only_system(messages);
        }
    } else {
        the_first_goes(messages, i);
        let rest = messages.remove(i);
        the_oldest_goes_first(rest);
        let k = choose|k: int|
            0 <= k <= of_others(rest).len() && of_others(cut_to_budget(rest))
                == #[trigger] of_others(rest).skip(k);
        assert(of_others(rest).skip(k) =~= of_others(messages).skip(k + 1));
    }
}

// ---------------------------------------------------------------------------
// The whole
// ---------------------------------------------------------------------------

/// A prompt begins with the words of the user on how to answer, if there are any,
/// and the instructions of the project, if there are any.
pub proof fn instructions_lead(s: SanitizedV, p: PromptParts)
    ensures
        p.system_prompt matches Some(sp) ==> !text::blank(sp@) ==> whole_prompt(s, p).len() > 0
            && whole_prompt(s, p)[0] == MessageV::plain("system"@, sp@),
        p.project_instructions matches Some(i) ==> ({
            let at = if p.system_prompt is Some && !text::blank(p.system_prompt->0@) {
                1int
            } else {
                0
            };
            whole_prompt(s, p).len() > at && whole_prompt(s, p)[at] == MessageV::plain(
                "system"@,
                "# Project Instructions\n\n"@ + i@,
            )
        }),
{
}

/// Behind the instructions stands the chat, with the whole history in front of the
/// message that is answered where it is within the budget, and behind it the notes on
/// plugins and on the user.
pub proof fn the_history_precedes_the_message(s: SanitizedV, p: PromptParts)
    requires
        chat_messages(s, opt(p.curated_context)).len() > 0,
    ensures
        ({
            let chat = chat_messages(s, opt(p.curated_context));
            let said = chat.drop_last() + message_views(p.history@) + seq![chat.last()];
            total_bytes(said) < 360_004 ==> whole_prompt(s, p) == preamble(p) + said + plugins_note(
                p.active_plugins@,
            ) + fitting_note(p.fitting_plugins@) + user_note(turns(p.user_facts@))
        }),
{
    let chat = chat_messages(s, opt(p.curated_context));
    let h = message_views(p.history@);
    let said = chat.drop_last() + h + seq![chat.last()];
    if h.len() == 0 {
        assert(said =~= chat);
    }
    assert(spliced(chat, h) =~= said);
    the_oldest_goes_first(said);
}

/// Every plugin that is in use or fits the message is told with its kind and its
/// description.
pub proof fn every_plugin_is_told(plugins: Seq<ActivePlugin>, i: int)
    requires
        0 <= i < plugins.len(),
    ensures
        plugins_note(plugins).len() == 1,
        plugins_note(plugins)[0].role == "system"@,
        text::occurs(
            plugins_note(plugins)[0].content,
            "- "@ + plugins[i].name@ + " ["@ + plugins[i].plugin_type@ + "]: "@ + (match plugins[i].description {
                Some(d) => d@,
                None => "(no description)"@,
            }),
        ),
        fitting_note(plugins).len() == 1,
        fitting_note(plugins)[0].role == "system"@,
        text::occurs(
            fitting_note(plugins)[0].content,
            "- "@ + plugins[i].name@ + " ("@ + plugins[i].plugin_type@ + "): "@ + (match plugins[i].description {
                Some(d) => d@,
                None => Seq::empty(),
            }),
        ),
{
    let a = plugins.map_values(
        |p: ActivePlugin| crate::ipc::handlers::chat::prompt::plugin_line(p),
    );
    let b = plugins.map_values(
        |p: ActivePlugin| crate::ipc::handlers::chat::prompt::fitting_line(p),
    );
    joined_parts_occur(a, "\n"@, i);
    joined_parts_occur(b, "\n"@, i);
    occurs_within(
        crate::ipc::handlers::chat::prompt::PLUGINS_HEADER@,
        text::join(a, "\n"@),
        crate::ipc::handlers::chat::prompt::PLUGINS_FOOTER@,
        a[i],
    );
    occurs_within(
        crate::ipc::handlers::chat::prompt::FITTING_HEADER@,
        text::join(b, "\n"@),
        Seq::empty(),
        b[i],
    );
    assert(crate::ipc::handlers::chat::prompt::FITTING_HEADER@ + text::join(b, "\n"@) + Seq::<
        char,
    >::empty() =~= fitting_note(plugins)[0].content);
}

/// The hint at what is known lists the first five things, each with its number, its
/// kind and the first eighty characters of its title.
pub proof fn the_first_five_are_hinted_at(items: Seq<(Seq<char>, Seq<char>)>, i: int)
    requires
        0 <= i < items.len(),
    ensures
        index_text(items) is Some,
        i < 5 ==> text::occurs(
            index_text(items)->0,
            text::decimal((i + 1) as nat) + ". ["@ + items[i].0 + "] "@ + (if items[i].1.len()
                <= 80 {
                items[i].1
            } else {
                items[i].1.take(80)
            }) + "\n"@,
        ),
{
    let n = if items.len() < 5 {
        items.len()
    } else {
        5
    };
    if i < 5 {
        index_line_occurs(items, n, i);
        let l = index_line(i, items[i].0, items[i].1);
        let h = crate::ipc::handlers::chat::prompt::INDEX_HEADER@;
        occurs_within(h, index_lines(items, n), Seq::empty(), l);
        assert(h + index_lines(items, n) + Seq::<char>::empty() =~= index_text(items)->0);
    }
}

proof fn index_line_occurs(items: Seq<(Seq<char>, Seq<char>)>, n: nat, i: int)
    requires
        0 <= i < n <= items.len(),
    ensures
        text::occurs(index_lines(items, n), index_line(i, items[i].0, items[i].1)),
    decreases n,
{
    let m = (n - 1) as nat;
    let front = index_lines(items, m);
    let last = index_line(n - 1, items[n - 1].0, items[n - 1].1);
    let l = index_line(i, items[i].0, items[i].1);
    if i == n - 1 {
        assert(last.subrange(0, last.len() as int) =~= last);
        assert(text::match_at(last, last, 0));
        occurs_within(front, last, Seq::empty(), l);
        assert(front + last + Seq::<char>::empty() =~= index_lines(items, n));
    } else {
        index_line_occurs(items, m, i);
        occurs_within(Seq::empty(), front, last, l);
        assert(Seq::<char>::empty() + front + last =~= index_lines(items, n));
    }
}

// ---------------------------------------------------------------------------
// Modes
// ---------------------------------------------------------------------------

/// Something is looked up for every message but those of at most three words and
/// twenty bytes.
pub proof fn only_short_messages_go_without_context(message: Seq<char>)
    ensures
        text::words(text::trim(message)).len() > 3 ==> !too_short(message),
        text::byte_count(text::trim(message)) > 20 ==> !too_short(message),
        text::words(text::trim(message)).len() <= 3 && text::byte_count(text::trim(message)) <= 20
            ==> too_short(message),
{
}

/// Fitting plugins are looked up for a message with one of six words in it.
pub proof fn six_words_ask_for_plugins(lower: Seq<char>)
    ensures
        text::occurs_any(lower, plugin_words()) <==> text::occurs(lower, "plugin"@) || text::occurs(
            lower,
            "mcp"@,
        ) || text::occurs(lower, "skill"@) || text::occurs(lower, "connector"@) || text::occurs(
            lower,
            "install"@,
        ) || text::occurs(lower, "extension"@),
{
    let w = plugin_words();
    assert(w.len() == 6 && w[0] == "plugin"@ && w[1] == "mcp"@ && w[2] == "skill"@ && w[3]
        == "connector"@ && w[4] == "install"@ && w[5] == "extension"@);
}

/// The local server is started for the families of models that it serves.
pub proof fn families_are_served(lower: Seq<char>)
    ensures
        text::begins_any(lower, served_prefixes()) <==> text::begins(lower, "gemma"@)
            || text::begins(lower, "llama"@) || text::begins(lower, "mistral"@) || text::begins(
            lower,
            "phi"@,
        ) || text::begins(lower, "qwen"@) || text::begins(lower, "deepseek"@) || text::begins(
            lower,
            "codellama"@,
        ) || text::begins(lower, "solar"@),
{
    let w = served_prefixes();
    assert(w.len() == 8 && w[0] == "gemma"@ && w[1] == "llama"@ && w[2] == "mistral"@ && w[3]
        == "phi"@ && w[4] == "qwen"@ && w[5] == "deepseek"@ && w[6] == "codellama"@ && w[7]
        == "solar"@);
}

/// A reply of a team may be twice as long as one of a coder, and that one twice as
/// long as any other; asking for more does not help, and asking for less does.
pub proof fn modes_limit_replies(mode: Seq<char>, asked: Option<u32>)
    ensures
        mode_limit("Team"@) == 2 * mode_limit("Coder"@),
        mode_limit("Code"@) == mode_limit("Coder"@) == 2 * mode_limit("Chat"@),
        mode != "Team"@ && mode != "Code"@ && mode != "Coder"@ ==> mode_limit(mode) == 2048,
        asked is None ==> token_cap(mode, asked) == mode_limit(mode),
        asked matches Some(n) ==> token_cap(mode, asked) == (if n < mode_limit(mode) {
            n
        } else {
            mode_limit(mode)
        }),
{
    reveal_strlit("Team");
    reveal_strlit("Code");
    reveal_strlit("Coder");
    reveal_strlit("Chat");
    assert("Team"@[0] == 'T' && "Code"@[0] == 'C' && "Coder"@.len() == 5 && "Chat"@[1] == 'h'
        && "Code"@[1] == 'o' && "Chat"@[0] == 'C' && "Chat"@.len() == 4);
}

/// What a message must hold, beside its length, for a team to work on it.
pub open spec fn shows_work(q: Seq<char>) -> bool {
    let l = text::lower(q);
    ||| text::occurs(q, ".rs"@)
    ||| text::occurs(q, ".ts"@)
    ||| text::occurs(q, ".js"@)
    ||| text::occurs(q, ".py"@)
    ||| text::occurs(q, ".go"@)
    ||| text::occurs(q, ".java"@)
    ||| text::occurs(q, ".cpp"@)
    ||| text::occurs(q, ".h"@)
    ||| text::occurs(q, "cargo "@)
    ||| text::occurs(q, "npm "@)
    ||| text::occurs(q, "git "@)
    ||| text::occurs(q, "./"@)
    ||| text::occurs(q, "sudo "@)
    ||| text::occurs(q, "/"@)
    ||| text::occurs(q, "\\"@)
    ||| text::occurs(l, "build "@)
    ||| text::occurs(l, "run "@)
    ||| text::occurs(l, "install "@)
    ||| text::occurs(l, "fix "@)
    ||| text::occurs(l, "read "@)
    ||| text::occurs(l, "write "@)
    ||| text::occurs(l, "open "@)
    ||| text::occurs(l, "find "@)
    ||| text::occurs(l, "search "@)
    ||| text::occurs(l, "grep "@)
    ||| text::occurs(l, "debug "@)
    ||| text::occurs(l, "refactor "@)
    ||| text::occurs(l, "implement "@)
    ||| text::occurs(l, "create "@)
}

proof fn has_a_dot(q: Seq<char>, ending: Seq<char>)
    requires
        text::occurs(q, ending),
        ending.len() > 0,
        ending[0] == '.',
    ensures
        text::occurs(q, "."@),
{
    reveal_strlit(".");
    let i = choose|i: int| text::match_at(q, ending, i);
    assert(q.subrange(i, i + ending.len())[0] == '.');
    assert(q.subrange(i, i + 1) =~= "."@);
    assert(text::match_at(q, "."@, i));
}

/// A message needs no team if it is shorter than twenty-five bytes or names neither
/// code nor commands nor paths nor work.
pub proof fn only_work_needs_a_team(message: Seq<char>)
    ensures
        trivial_query(message) <==> text::byte_count(text::trim(message)) < 25 || !shows_work(
            text::trim(message),
        ),
{
    let q = text::trim(message);
    let c = code_endings();
    let s = shell_signs();
    let v = work_verbs();
    assert(c.len() == 8 && c[0] == ".rs"@ && c[1] == ".ts"@ && c[2] == ".js"@ && c[3] == ".py"@
        && c[4] == ".go"@ && c[5] == ".java"@ && c[6] == ".cpp"@ && c[7] == ".h"@);
    assert(s.len() == 5 && s[0] == "cargo "@ && s[1] == "npm "@ && s[2] == "git "@ && s[3] == "./"@
        && s[4] == "sudo "@);
    assert(v.len() == 14 && v[0] == "build "@ && v[1] == "run "@ && v[2] == "install "@ && v[3]
        == "fix "@ && v[4] == "read "@ && v[5] == "write "@ && v[6] == "open "@ && v[7] == "find "@
        && v[8] == "search "@ && v[9] == "grep "@ && v[10] == "debug "@ && v[11] == "refactor "@
        && v[12] == "implement "@ && v[13] == "create "@);
    reveal_strlit(".rs");
    reveal_strlit(".ts");
    reveal_strlit(".js");
    reveal_strlit(".py");
    reveal_strlit(".go");
    reveal_strlit(".java");
    reveal_strlit(".cpp");
    reveal_strlit(".h");
    assert forall|k: int| 0 <= k < 8 && text::occurs(q, #[trigger] c[k]) implies text::occurs(
        q,
        "."@,
    ) by {
        has_a_dot(q, c[k]);
    }
}

/// A chat is answered in the mode that is asked for: a team works where there is
/// work, a coder codes, and all that is asked of an assistant is a chat.
pub proof fn modes_are_answered(mode: Seq<char>, message: Seq<char>)
    ensures
        mode == "Team"@ ==> (routed(mode, message) == ChatRoute::Team <==> !trivial_query(message)),
        mode == "Team"@ && trivial_query(message) ==> routed(mode, message) == ChatRoute::Chat,
        mode == "Chat"@ || mode == "Assistant"@ ==> routed(mode, message) == ChatRoute::Chat,
        mode == "Code"@ || mode == "Coder"@ ==> routed(mode, message) == ChatRoute::Coder,
        mode != "Team"@ && mode != "Chat"@ && mode != "Assistant"@ && mode != "Code"@ && mode
            != "Coder"@ ==> routed(mode, message) == ChatRoute::Other,
{
    reveal_strlit("Team");
    reveal_strlit("Code");
    reveal_strlit("Coder");
    reveal_strlit("Chat");
    reveal_strlit("Assistant");
    assert("Team"@[0] == 'T' && "Code"@[0] == 'C' && "Coder"@[0] == 'C' && "Chat"@[1] == 'h'
        && "Code"@[1] == 'o' && "Coder"@[1] == 'o' && "Chat"@[0] == 'C' && "Assistant"@[0] == 'A');
}

/// A provider is told by its address.
pub proof fn providers_are_told_by_address(url: Seq<char>)
    ensures
        ({
            let u = text::lower(url);
            let tag = provider_tag(url);
            &&& tag == "groq"@ || !text::occurs(u, "groq.com"@)
            &&& text::occurs(u, "openai.com"@) ==> tag == "openai"@ || tag == "groq"@
            &&& text::occurs(u, "anthropic.com"@) && !text::occurs(u, "groq.com"@) && !text::occurs(
                u,
                "openai.com"@,
            ) ==> tag == "anthropic"@
            &&& text::occurs(u, "mistral.ai"@) && tag != "mistral"@ ==> text::occurs(u, "groq.com"@)
                || text::occurs(u, "openai.com"@) || text::occurs(u, "anthropic.com"@)
            &&& text::occurs(u, "together."@) && tag != "together"@ ==> text::occurs(u, "groq.com"@)
                || text::occurs(u, "openai.com"@) || text::occurs(u, "anthropic.com"@)
                || text::occurs(u, "mistral.ai"@)
            &&& text::occurs(u, "deepseek.com"@) && tag != "deepseek"@ ==> text::occurs(
                u,
                "groq.com"@,
            ) || text::occurs(u, "openai.com"@) || text::occurs(u, "anthropic.com"@)
                || text::occurs(u, "mistral.ai"@) || text::occurs(u, "together."@)
            &&& (text::occurs(u, "localhost"@) || text::occurs(u, "127.0.0.1"@)) && tag != "local"@
                ==> text::occurs(u, "groq.com"@) || text::occurs(u, "openai.com"@) || text::occurs(
                u,
                "anthropic.com"@,
            ) || text::occurs(u, "mistral.ai"@) || text::occurs(u, "together."@) || text::occurs(
                u,
                "deepseek.com"@,
            )
        }),
{
}

} // verus!
