//! What an entry of the error log is made of.

use crate::json::{json_views, Json, JsonV, Number};
use crate::llm::types::{text_view, Message};
use crate::text;
use vstd::arithmetic::div_mod::{lemma_hoist_over_denominator, lemma_mod_multiples_vanish};
use vstd::prelude::*;

verus! {

/// How many characters of a message an entry shows.
pub const PREVIEW_CHARS: usize = 300;

/// A message as the log shows it: its role, its size and how it begins.
#[derive(Debug, Clone)]
pub struct PromptPreviewEntry {
    pub role: String,
    pub chars: usize,
    pub head: String,
}

/// The entry for a message. The size is that of the content in bytes.
pub open spec fn previews(e: PromptPreviewEntry, m: Message) -> bool {
    &&& e.role@ == m.role@
    &&& e.chars == text::byte_count(m.content@)
    &&& e.head@ == text::head(m.content@, PREVIEW_CHARS as nat)
}

/// The entries for a list of messages, cut down to what is safe to store.
pub fn preview_messages(messages: &[Message]) -> (r: Vec<PromptPreviewEntry>)
    ensures
        r@.len() == messages@.len(),
        forall|i: int| 0 <= i < r@.len() ==> previews(#[trigger] r@[i], messages@[i]),
{
    let mut out: Vec<PromptPreviewEntry> = Vec::new();
    for i in 0..messages.len()
        invariant
            out@.len() == i,
            forall|j: int| 0 <= j < i ==> previews(#[trigger] out@[j], messages@[j]),
    {
        let m = &messages[i];
        out.push(
            PromptPreviewEntry {
                role: m.role.clone(),
                chars: text::byte_len(&m.content),
                head: text::take_chars(&m.content, PREVIEW_CHARS),
            },
        );
    }
    out
}

/// What is told of an error.
#[derive(Debug)]
pub struct ErrorContext {
    /// Where the error came from, such as `llm_api` or `ipc`.
    pub source: String,
    pub message: String,
    pub conversation_id: Option<String>,
    pub model: Option<String>,
    pub provider: Option<String>,
    pub agent_mode: Option<String>,
    pub max_tokens: Option<u32>,
    /// How the messages begin that were sent.
    pub prompt_preview: Option<Vec<PromptPreviewEntry>>,
    /// About how many tokens were sent.
    pub est_input_tokens: Option<usize>,
    /// Whatever else is worth telling.
    pub extra: Option<Json>,
}

/// A number that may be absent as a value.
pub open spec fn number_or_null(n: Option<u64>) -> JsonV {
    match n {
        Some(u) => JsonV::Num(Number::Unsigned(u)),
        None => JsonV::Null,
    }
}

/// How a message begins, as it is written.
pub open spec fn preview_json(e: PromptPreviewEntry) -> JsonV {
    JsonV::Object(
        seq![
            ("role"@, JsonV::Text(e.role@)),
            ("chars"@, JsonV::Num(Number::Unsigned(e.chars as u64))),
            ("head"@, JsonV::Text(e.head@)),
        ],
    )
}

/// The members of an entry up to the messages.
pub open spec fn first_members(stamp: Seq<char>, c: ErrorContext) -> Seq<(Seq<char>, JsonV)> {
    seq![
        ("timestamp"@, JsonV::Text(stamp)),
        ("source"@, JsonV::Text(c.source@)),
        ("message"@, JsonV::Text(c.message@)),
        ("conversation_id"@, JsonV::text_or_null(text_view(c.conversation_id))),
        ("model"@, JsonV::text_or_null(text_view(c.model))),
        ("provider"@, JsonV::text_or_null(text_view(c.provider))),
        ("agent_mode"@, JsonV::text_or_null(text_view(c.agent_mode))),
        (
            "max_tokens"@,
            number_or_null(
                match c.max_tokens {
                    Some(n) => Some(n as u64),
                    None => None,
                },
            ),
        ),
    ]
}

/// An entry of the log: the messages and what else is worth telling stand in it
/// only where they are there.
pub open spec fn record_json(stamp: Seq<char>, c: ErrorContext) -> JsonV {
    let previews = match c.prompt_preview {
        Some(l) => seq![
            (
                "prompt_preview"@,
                JsonV::List(l@.map_values(|e: PromptPreviewEntry| preview_json(e))),
            ),
        ],
        None => Seq::empty(),
    };
    let tokens = number_or_null(
        match c.est_input_tokens {
            Some(n) => Some(n as u64),
            None => None,
        },
    );
    let extra = match c.extra {
        Some(e) => seq![("extra"@, e@)],
        None => Seq::empty(),
    };
    JsonV::Object(
        first_members(stamp, c) + previews + seq![("est_input_tokens"@, tokens)] + extra,
    )
}

/// The models of the members of an object.
spec fn member_views(l: Seq<(String, Json)>) -> Seq<(Seq<char>, JsonV)> {
    l.map_values(|m: (String, Json)| (m.0@, m.1@))
}

fn number(n: Option<u64>) -> (r: Json)
    ensures
        r@ == number_or_null(n),
{
    match n {
        Some(u) => Json::Num(Number::Unsigned(u)),
        None => Json::Null,
    }
}

fn preview_value(e: &PromptPreviewEntry) -> (r: Json)
    ensures
        r@ == preview_json(*e),
{
    let r = Json::Object(
        vec![
            ("role".to_owned(), Json::Text(e.role.clone())),
            ("chars".to_owned(), Json::Num(Number::Unsigned(e.chars as u64))),
            ("head".to_owned(), Json::Text(e.head.clone())),
        ],
    );
    proof {
        reveal_with_fuel(Json::model, 3);
        assert(r@->Object_0 =~= preview_json(*e)->Object_0);
    }
    r
}

fn preview_list(l: &Vec<PromptPreviewEntry>) -> (r: Json)
    ensures
        r@ == JsonV::List(l@.map_values(|e: PromptPreviewEntry| preview_json(e))),
{
    let ghost want = l@.map_values(|e: PromptPreviewEntry| preview_json(e));
    let mut out: Vec<Json> = Vec::new();
    assert(json_views(out@) =~= want.take(0));
    for i in 0..l.len()
        invariant
            want == l@.map_values(|e: PromptPreviewEntry| preview_json(e)),
            json_views(out@) == want.take(i as int),
    {
        let ghost before = out@;
        let j = preview_value(&l[i]);
        out.push(j);
        assert(json_views(out@) =~= json_views(before).push(j@));
        assert(want.take(i + 1) =~= want.take(i as int).push(j@));
    }
    assert(want.take(want.len() as int) =~= want);
    let r = Json::List(out);
    proof {
        reveal_with_fuel(Json::model, 2);
        assert(r@->List_0 =~= want);
    }
    r
}

fn first_of_record(stamp: String, c: &ErrorContext) -> (r: Vec<(String, Json)>)
    ensures
        member_views(r@) == first_members(stamp@, *c),
{
    let max_tokens: Option<u64> = match c.max_tokens {
        Some(n) => Some(n as u64),
        None => None,
    };
    let r = vec![
        ("timestamp".to_owned(), Json::Text(stamp)),
        ("source".to_owned(), Json::Text(c.source.clone())),
        ("message".to_owned(), Json::Text(c.message.clone())),
        ("conversation_id".to_owned(), Json::text_or_null(c.conversation_id.clone())),
        ("model".to_owned(), Json::text_or_null(c.model.clone())),
        ("provider".to_owned(), Json::text_or_null(c.provider.clone())),
        ("agent_mode".to_owned(), Json::text_or_null(c.agent_mode.clone())),
        ("max_tokens".to_owned(), number(max_tokens)),
    ];
    assert(member_views(r@) =~= first_members(stamp@, *c)) by {
        reveal_with_fuel(Json::model, 2);
    }
    r
}

/// The entry for an error that is told of `now` seconds after the start of 1970.
pub fn record(c: &ErrorContext, now: u64) -> (r: Json)
    ensures
        exists|t: (i32, u32, u32, u32, u32, u32)| #[trigger]
            is_utc(now, t) && r@ == record_json(rfc3339(t), *c),
{
    let stamp = chrono_rfc3339(now);
    let ghost s = stamp@;
    let mut members = first_of_record(stamp, c);
    let ghost first = member_views(members@);
    let ghost mut shown = Seq::<(Seq<char>, JsonV)>::empty();
    if let Some(l) = &c.prompt_preview {
        let list = preview_list(l);
        members.push(("prompt_preview".to_owned(), list));
        proof {
            shown = seq![("prompt_preview"@, list@)];
        }
    }
    assert(member_views(members@) =~= first + shown);
    let tokens: Option<u64> = match c.est_input_tokens {
        Some(n) => Some(n as u64),
        None => None,
    };
    let t = number(tokens);
    members.push(("est_input_tokens".to_owned(), t));
    assert(member_views(members@) =~= first + shown + seq![("est_input_tokens"@, t@)]);
    let ghost mut rest = Seq::<(Seq<char>, JsonV)>::empty();
    if let Some(e) = &c.extra {
        let e = e.copy();
        members.push(("extra".to_owned(), e));
        proof {
            rest = seq![("extra"@, e@)];
        }
    }
    assert(member_views(members@) =~= first + shown + seq![("est_input_tokens"@, t@)] + rest);
    let r = Json::Object(members);
    proof {
        reveal_with_fuel(Json::model, 2);
        assert(r@->Object_0 =~= member_views(members@));
        assert(r@ == record_json(s, *c));
    }
    r
}

/// A year of 366 days.
pub open spec fn leap(y: int) -> bool {
    (y % 4 == 0 && y % 100 != 0) || y % 400 == 0
}

/// The days of a year before its month `m`.
pub open spec fn days_before_month(y: int, m: int) -> int {
    let common = if m == 1 { 0int } else if m == 2 { 31 } else if m == 3 { 59 } else if m == 4 {
        90
    } else if m == 5 { 120 } else if m == 6 { 151 } else if m == 7 { 181 } else if m == 8 {
        212
    } else if m == 9 { 243 } else if m == 10 { 273 } else if m == 11 { 304 } else { 334 };
    if m > 2 && leap(y) {
        common + 1
    } else {
        common
    }
}

/// The days from the start of the year 0 to the start of the year `y`.
pub open spec fn days_before_year(y: int) -> int {
    365 * y + (y - 1) / 4 - (y - 1) / 100 + (y - 1) / 400 + 1
}

/// The length of a month.
pub open spec fn days_in_month(y: int, m: int) -> int {
    if m == 2 {
        if leap(y) {
            29
        } else {
            28
        }
    } else if m == 4 || m == 6 || m == 9 || m == 11 {
        30
    } else {
        31
    }
}

/// A date of the Gregorian calendar.
pub open spec fn valid_date(y: int, m: int, d: int) -> bool {
    1 <= m <= 12 && 1 <= d <= days_in_month(y, m)
}

/// The days from the first of January 1970 to a date.
pub open spec fn day_number(y: int, m: int, d: int) -> int {
    days_before_year(y) + days_before_month(y, m) + d - 1 - 719528
}

/// The year that a number of seconds after the start of 1970 falls into.
pub open spec fn year_of(y: int, m: u32, d: u32, secs: u64) -> bool {
    valid_date(y, m as int, d as int) && day_number(y, m as int, d as int) == secs / 86400
}

/// The length of the first `n` years of an era, where years begin in March.
spec fn era_days(n: int) -> int {
    365 * n + n / 4 - n / 100
}

#[verifier::spinoff_prover]
#[verifier::rlimit(40)]
proof fn year_of_era(doe: int) -> (yoe: int)
    requires
        0 <= doe <= 146096,
    ensures
        yoe == (doe - doe / 1460 + doe / 36524 - doe / 146096) / 365,
        0 <= yoe <= 399,
        era_days(yoe) <= doe,
        doe - era_days(yoe) <= 365,
        doe - era_days(yoe) == 365 ==> (yoe + 1) % 4 == 0 && ((yoe + 1) % 100 != 0 || yoe == 399),
{
    (doe - doe / 1460 + doe / 36524 - doe / 146096) / 365
}

/// The calendar repeats itself every four hundred years.
#[verifier::spinoff_prover]
proof fn eras_are_alike(k: int, era: int, y: int)
    requires
        y == k + 400 * era,
    ensures
        leap(y) == leap(k),
        days_before_year(y) == days_before_year(k) + 146097 * era,
{
    assert(y == 4 * (100 * era) + k && y == 100 * (4 * era) + k && y == 400 * era + k);
    lemma_mod_multiples_vanish(100 * era, k, 4);
    lemma_mod_multiples_vanish(4 * era, k, 100);
    lemma_mod_multiples_vanish(era, k, 400);
    lemma_hoist_over_denominator(k - 1, 100 * era, 4);
    lemma_hoist_over_denominator(k - 1, 4 * era, 100);
    lemma_hoist_over_denominator(k - 1, era, 400);
    assert(y - 1 == k - 1 + 100 * era * 4);
    assert(y - 1 == k - 1 + 4 * era * 100);
    assert(y - 1 == k - 1 + era * 400);
}

/// A day of an era, counted by years that begin in March, is a date.
#[verifier::spinoff_prover]
#[verifier::rlimit(60)]
proof fn march_date(era: int, yoe: int, doy: int, mp: int, d: int, m: int, y: int)
    requires
        0 <= yoe <= 399,
        0 <= doy <= 365,
        doy == 365 ==> (yoe + 1) % 4 == 0 && ((yoe + 1) % 100 != 0 || yoe == 399),
        mp == (5 * doy + 2) / 153,
        d == doy - (153 * mp + 2) / 5 + 1,
        m == (if mp < 10 {
            mp + 3
        } else {
            mp - 9
        }),
        y == yoe + era * 400 + (if m <= 2 {
            1int
        } else {
            0
        }),
    ensures
        valid_date(y, m, d),
        day_number(y, m, d) == era * 146097 + era_days(yoe) + doy - 719468,
{
    let k = yoe + (if m <= 2 {
        1int
    } else {
        0
    });
    assert(y == k + 400 * era);
    eras_are_alike(k, era, y);
    assert(0 <= mp <= 11);
    assert(m == 1 || m == 2 || m == 3 || m == 4 || m == 5 || m == 6 || m == 7 || m == 8 || m == 9
        || m == 10 || m == 11 || m == 12);
}

/// The date of a day that is counted from the first of January 1970.
fn date_of_day(days: i64) -> (r: (i64, u32, u32))
    requires
        0 <= days <= u64::MAX / 86400,
    ensures
        valid_date(r.0 as int, r.1 as int, r.2 as int),
        day_number(r.0 as int, r.1 as int, r.2 as int) == days,
{
    // Counted from the first of March of the year 0, the leap day comes last.
    let z: i64 = days + 719468;
    let era: i64 = z / 146097;
    let doe: i64 = z - era * 146097;
    let ghost _ = year_of_era(doe as int);
    let yoe: i64 = (doe - doe / 1460 + doe / 36524 - doe / 146096) / 365;
    let doy: i64 = doe - (365 * yoe + yoe / 4 - yoe / 100);
    let mp: i64 = (5 * doy + 2) / 153;
    let d: i64 = doy - (153 * mp + 2) / 5 + 1;
    let m: i64 = if mp < 10 {
        mp + 3
    } else {
        mp - 9
    };
    let y: i64 = if m <= 2 {
        yoe + era * 400 + 1
    } else {
        yoe + era * 400
    };
    proof {
        march_date(
            era as int,
            yoe as int,
            doy as int,
            mp as int,
            d as int,
            m as int,
            y as int,
        );
    }
    (y, m as u32, d as u32)
}

/// The date and the time of day, in UTC and without leap seconds, of a number
/// of seconds after the start of 1970: year, month, day, hour, minute, second.
pub fn unix_to_utc(secs: u64) -> (r: (i32, u32, u32, u32, u32, u32))
    ensures
        is_utc(secs, r),
{
    let days: i64 = (secs / 86400) as i64;
    let sod: u32 = (secs % 86400) as u32;
    let h: u32 = sod / 3600;
    let mi: u32 = (sod % 3600) / 60;
    let s: u32 = sod % 60;
    let (y, m, d) = date_of_day(days);
    let r = (y as i32, m, d, h, mi, s);
    assert(year_of(y as int, r.1, r.2, secs));
    assert(r.3 * 3600 + r.4 * 60 + r.5 == secs % 86400);
    assert(r.0 == (y as int) as i32);
    r
}

/// An integer with zeros in front of its digits, up to `width` characters.
pub open spec fn zero_padded(n: int, width: nat) -> Seq<char> {
    if n < 0 {
        seq!['-'] + text::pad_left(text::decimal((-n) as nat), (width - 1) as nat, '0')
    } else {
        text::pad_left(text::decimal(n as nat), width, '0')
    }
}

/// `n` with zeros in front of its digits, up to `width` characters.
pub fn zero_pad(n: i64, width: usize) -> (r: String)
    requires
        width > 0,
    ensures
        r@ == zero_padded(n as int, width as nat),
{
    if n < 0 {
        let m: u64 = (-(n as i128)) as u64;
        let mut out = String::new();
        out.push('-');
        out.append(&text::padded_left(&text::number(m), width - 1, '0'));
        assert(out@ =~= zero_padded(n as int, width as nat));
        out
    } else {
        text::padded_left(&text::number(n as u64), width, '0')
    }
}

/// A point in time in the notation of RFC 3339, to the second and in UTC.
pub open spec fn rfc3339(t: (i32, u32, u32, u32, u32, u32)) -> Seq<char> {
    zero_padded(t.0 as int, 4) + "-"@ + zero_padded(t.1 as int, 2) + "-"@ + zero_padded(
        t.2 as int,
        2,
    ) + "T"@ + zero_padded(t.3 as int, 2) + ":"@ + zero_padded(t.4 as int, 2) + ":"@ + zero_padded(
        t.5 as int,
        2,
    ) + "Z"@
}

/// A point in time with its date, its time of day and the name of the zone.
pub open spec fn utc_notation(t: (i32, u32, u32, u32, u32, u32)) -> Seq<char> {
    zero_padded(t.0 as int, 4) + "-"@ + zero_padded(t.1 as int, 2) + "-"@ + zero_padded(
        t.2 as int,
        2,
    ) + " "@ + zero_padded(t.3 as int, 2) + ":"@ + zero_padded(t.4 as int, 2) + ":"@ + zero_padded(
        t.5 as int,
        2,
    ) + " UTC"@
}

/// The parts of a point in time `secs` seconds after the start of 1970.
pub open spec fn is_utc(secs: u64, t: (i32, u32, u32, u32, u32, u32)) -> bool {
    &&& exists|y: int| #[trigger] year_of(y, t.1, t.2, secs) && t.0 == y as i32
    &&& t.3 < 24 && t.4 < 60 && t.5 < 60
    &&& t.3 * 3600 + t.4 * 60 + t.5 == secs % 86400
}

/// The text is a point in time with its date, its time of day and the zone.
pub open spec fn is_utc_text(secs: u64, s: Seq<char>) -> bool {
    exists|t: (i32, u32, u32, u32, u32, u32)| #[trigger] is_utc(secs, t) && s == utc_notation(t)
}

/// From 1970 to the end of the year 9999, the text is the one of the calendar.
pub open spec fn agrees_with_calendar(secs: i64, s: Option<Seq<char>>) -> bool {
    0 <= secs < 253_402_300_800 ==> s is Some && is_utc_text(secs as u64, s->0)
}

/// The time stamp of an entry that is written `now` seconds after the start
/// of 1970.
pub fn chrono_rfc3339(now: u64) -> (r: String)
    ensures
        exists|t: (i32, u32, u32, u32, u32, u32)| #[trigger] is_utc(now, t) && r@ == rfc3339(t),
{
    let t = unix_to_utc(now);
    let mut out = zero_pad(t.0 as i64, 4);
    out.append("-");
    out.append(&zero_pad(t.1 as i64, 2));
    out.append("-");
    out.append(&zero_pad(t.2 as i64, 2));
    out.append("T");
    out.append(&zero_pad(t.3 as i64, 2));
    out.append(":");
    out.append(&zero_pad(t.4 as i64, 2));
    out.append(":");
    out.append(&zero_pad(t.5 as i64, 2));
    out.append("Z");
    assert(is_utc(now, t));
    out
}

/// The month and the day of a date are fixed by its day number and its year.
proof fn same_year_same_date(y: int, m1: int, d1: int, m2: int, d2: int)
    requires
        valid_date(y, m1, d1),
        valid_date(y, m2, d2),
        day_number(y, m1, d1) == day_number(y, m2, d2),
    ensures
        m1 == m2,
        d1 == d2,
{
}

#[verifier::spinoff_prover]
proof fn next_year(a: int)
    ensures
        days_before_year(a + 1) == days_before_year(a) + (if leap(a) {
            366int
        } else {
            365
        }),
{
    assert(a / 4 == (a - 1) / 4 + (if a % 4 == 0 {
        1int
    } else {
        0
    }));
    assert(a / 100 == (a - 1) / 100 + (if a % 100 == 0 {
        1int
    } else {
        0
    }));
    assert(a / 400 == (a - 1) / 400 + (if a % 400 == 0 {
        1int
    } else {
        0
    }));
}

proof fn years_follow(a: int, b: int)
    requires
        a <= b,
    ensures
        days_before_year(a) <= days_before_year(b),
    decreases b - a,
{
    if a < b {
        years_follow(a, b - 1);
        next_year(b - 1);
    }
}

proof fn date_within_year(y: int, m: int, d: int)
    requires
        valid_date(y, m, d),
    ensures
        days_before_year(y) <= day_number(y, m, d) + 719528,
        day_number(y, m, d) + 719528 < days_before_year(y) + (if leap(y) {
            366int
        } else {
            365
        }),
{
}

/// A date in an earlier year is an earlier day.
pub proof fn year_fixed(y1: int, m1: int, d1: int, y2: int, m2: int, d2: int)
    requires
        valid_date(y1, m1, d1),
        valid_date(y2, m2, d2),
        y1 < y2,
    ensures
        day_number(y1, m1, d1) < day_number(y2, m2, d2),
{
    date_within_year(y1, m1, d1);
    date_within_year(y2, m2, d2);
    next_year(y1);
    years_follow(y1 + 1, y2);
}

/// Each second after the start of 1970 has one date and one time of day.
pub proof fn one_date_per_second(
    secs: u64,
    t1: (i32, u32, u32, u32, u32, u32),
    t2: (i32, u32, u32, u32, u32, u32),
)
    requires
        is_utc(secs, t1),
        is_utc(secs, t2),
    ensures
        t1 == t2,
{
    let y1 = choose|y: int| #[trigger] year_of(y, t1.1, t1.2, secs) && t1.0 == y as i32;
    let y2 = choose|y: int| #[trigger] year_of(y, t2.1, t2.2, secs) && t2.0 == y as i32;
    if y1 < y2 {
        year_fixed(y1, t1.1 as int, t1.2 as int, y2, t2.1 as int, t2.2 as int);
    } else if y2 < y1 {
        year_fixed(y2, t2.1 as int, t2.2 as int, y1, t1.1 as int, t1.2 as int);
    } else {
        same_year_same_date(y1, t1.1 as int, t1.2 as int, t2.1 as int, t2.2 as int);
    }
}

/// Different seconds within the years that fit in 32 bits have different
/// dates or times of day.
pub proof fn one_second_per_date(
    s1: u64,
    s2: u64,
    t: (i32, u32, u32, u32, u32, u32),
    y: int,
)
    requires
        is_utc(s1, t),
        is_utc(s2, t),
        year_of(y, t.1, t.2, s1),
        year_of(y, t.1, t.2, s2),
    ensures
        s1 == s2,
{
}

} // verus!
