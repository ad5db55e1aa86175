//! The order of time stamps.

use crate::error_log::{is_utc, rfc3339, valid_date, year_fixed, year_of, zero_padded};
use crate::order;
use crate::text;
use vstd::prelude::*;

verus! {

/// Year, month, day, hour, minute and second.
pub type Moment = (i32, u32, u32, u32, u32, u32);

/// Ten times itself, `w` times.
spec fn top(w: nat) -> nat
    decreases w,
{
    if w == 0 {
        1
    } else {
        10 * top((w - 1) as nat)
    }
}

proof fn digits_fit(n: nat, w: nat)
    requires
        w > 0,
        n < top(w),
    ensures
        1 <= text::decimal(n).len() <= w,
    decreases w,
{
    if n >= 10 {
        assert(w > 1) by {
            reveal_with_fuel(top, 2);
        }
        digits_fit(n / 10, (w - 1) as nat);
    }
}

/// A number with zeros in front of it is its tenth part with zeros in front,
/// and its last digit.
proof fn last_digit(n: nat, w: nat)
    requires
        w > 1,
        n < top(w),
    ensures
        n / 10 < top((w - 1) as nat),
        zero_padded(n as int, w) == zero_padded((n / 10) as int, (w - 1) as nat).push(
            text::digit(n % 10),
        ),
{
    let rest = (n / 10) as nat;
    digits_fit(n, w);
    digits_fit(rest, (w - 1) as nat);
    let all = zero_padded(n as int, w);
    let front = zero_padded(rest as int, (w - 1) as nat);
    if n < 10 {
        assert(text::decimal(n) =~= seq![text::digit(n)]);
        assert(text::decimal(0) =~= seq!['0']);
        assert(front =~= text::repeat('0', (w - 1) as nat));
        assert(all =~= front.push(text::digit(n % 10)));
    } else {
        assert(text::decimal(n) == text::decimal(rest).push(text::digit(n % 10)));
        assert(all =~= front.push(text::digit(n % 10)));
    }
}

/// Numbers with zeros in front of them, up to one length, are ordered as they
/// are.
proof fn padded_order(a: nat, b: nat, w: nat)
    requires
        w > 0,
        a < b < top(w),
    ensures
        order::before(zero_padded(a as int, w), zero_padded(b as int, w)),
        zero_padded(a as int, w).len() == zero_padded(b as int, w).len(),
    decreases w,
{
    digits_fit(a, w);
    digits_fit(b, w);
    if w == 1 {
        assert(top(1) == 10) by {
            reveal_with_fuel(top, 2);
        }
        assert(zero_padded(a as int, 1) =~= seq![text::digit(a)]);
        assert(zero_padded(b as int, 1) =~= seq![text::digit(b)]);
    } else {
        last_digit(a, w);
        last_digit(b, w);
        let (p, q) = (
            zero_padded((a / 10) as int, (w - 1) as nat),
            zero_padded((b / 10) as int, (w - 1) as nat),
        );
        let (x, y) = (seq![text::digit(a % 10)], seq![text::digit(b % 10)]);
        assert(zero_padded(a as int, w) =~= p + x);
        assert(zero_padded(b as int, w) =~= q + y);
        if a / 10 < b / 10 {
            padded_order(a / 10, b / 10, (w - 1) as nat);
            order::before_decides(p, q, x, y);
        } else {
            assert(p == q);
            assert(order::before(x, y));
            order::before_behind(p, x, y);
        }
    }
}

/// A field decides the order of two texts that agree in front of it.
proof fn field_decides(
    front: Seq<char>,
    a: nat,
    b: nat,
    w: nat,
    x: Seq<char>,
    y: Seq<char>,
    s: Seq<char>,
    t: Seq<char>,
)
    requires
        w > 0,
        a < b < top(w),
        s == front + (zero_padded(a as int, w) + x),
        t == front + (zero_padded(b as int, w) + y),
    ensures
        order::before(s, t),
{
    padded_order(a, b, w);
    order::before_decides(zero_padded(a as int, w), zero_padded(b as int, w), x, y);
    order::before_behind(front, zero_padded(a as int, w) + x, zero_padded(b as int, w) + y);
}

/// A point in time comes before another one, field by field.
spec fn earlier(t1: Moment, t2: Moment) -> bool {
    if t1.0 != t2.0 {
        t1.0 < t2.0
    } else if t1.1 != t2.1 {
        t1.1 < t2.1
    } else if t1.2 != t2.2 {
        t1.2 < t2.2
    } else if t1.3 != t2.3 {
        t1.3 < t2.3
    } else if t1.4 != t2.4 {
        t1.4 < t2.4
    } else {
        t1.5 < t2.5
    }
}

/// The fields fit in their places.
spec fn fits(t: Moment) -> bool {
    0 <= t.0 < 10000 && t.1 < 100 && t.2 < 100 && t.3 < 100 && t.4 < 100 && t.5 < 100
}

#[verifier::spinoff_prover]
proof fn clock_order(s1: u64, s2: u64, t1: Moment, t2: Moment)
    requires
        s1 < s2 < 253_402_300_800,
        is_utc(s1, t1),
        is_utc(s2, t2),
    ensures
        fits(t1),
        fits(t2),
        earlier(t1, t2),
{
    let y1 = choose|y: int| #[trigger] year_of(y, t1.1, t1.2, s1) && t1.0 == y as i32;
    let y2 = choose|y: int| #[trigger] year_of(y, t2.1, t2.2, s2) && t2.0 == y as i32;
    let (m1, d1, m2, d2) = (t1.1 as int, t1.2 as int, t2.1 as int, t2.2 as int);
    assert(valid_date(1970, 1, 1) && valid_date(9999, 12, 31));
    if y1 < 1970 {
        year_fixed(y1, m1, d1, 1970, 1, 1);
    }
    if y2 > 9999 {
        year_fixed(9999, 12, 31, y2, m2, d2);
    }
    if y2 < y1 {
        year_fixed(y2, m2, d2, y1, m1, d1);
    }
}

spec fn two(n: u32) -> Seq<char> {
    zero_padded(n as int, 2)
}

spec fn to_month(t: Moment) -> Seq<char> {
    zero_padded(t.0 as int, 4) + "-"@
}

spec fn to_day(t: Moment) -> Seq<char> {
    to_month(t) + two(t.1) + "-"@
}

spec fn to_hour(t: Moment) -> Seq<char> {
    to_day(t) + two(t.2) + "T"@
}

spec fn to_minute(t: Moment) -> Seq<char> {
    to_hour(t) + two(t.3) + ":"@
}

spec fn to_second(t: Moment) -> Seq<char> {
    to_minute(t) + two(t.4) + ":"@
}

spec fn from_minute(t: Moment) -> Seq<char> {
    two(t.4) + (":"@ + (two(t.5) + "Z"@))
}

spec fn from_hour(t: Moment) -> Seq<char> {
    two(t.3) + (":"@ + from_minute(t))
}

spec fn from_day(t: Moment) -> Seq<char> {
    two(t.2) + ("T"@ + from_hour(t))
}

spec fn from_month(t: Moment) -> Seq<char> {
    two(t.1) + ("-"@ + from_day(t))
}

proof fn regroup(front: Seq<char>, field: Seq<char>, mark: Seq<char>, rest: Seq<char>)
    ensures
        front + field + mark + rest == front + (field + (mark + rest)),
{
    assert(front + field + mark + rest =~= front + (field + (mark + rest)));
}

/// A time stamp, parted in front of each of its fields.
proof fn parted(t: Moment)
    ensures
        rfc3339(t) == to_second(t) + (two(t.5) + "Z"@),
        rfc3339(t) == to_minute(t) + from_minute(t),
        rfc3339(t) == to_hour(t) + from_hour(t),
        rfc3339(t) == to_day(t) + from_day(t),
        rfc3339(t) == to_month(t) + from_month(t),
        rfc3339(t) == zero_padded(t.0 as int, 4) + ("-"@ + from_month(t)),
{
    let sec = two(t.5) + "Z"@;
    assert(rfc3339(t) =~= to_second(t) + sec) by {
        assert(to_second(t) + two(t.5) + "Z"@ =~= to_second(t) + sec);
    }
    regroup(to_minute(t), two(t.4), ":"@, sec);
    regroup(to_hour(t), two(t.3), ":"@, from_minute(t));
    regroup(to_day(t), two(t.2), "T"@, from_hour(t));
    regroup(to_month(t), two(t.1), "-"@, from_day(t));
    assert(to_month(t) + from_month(t) =~= zero_padded(t.0 as int, 4) + ("-"@ + from_month(t)));
}

/// Up to the end of the year 9999, the time stamp of a second comes before the
/// time stamps of all later ones in the order of texts.
pub proof fn stamps_follow_the_clock(s1: u64, s2: u64, t1: Moment, t2: Moment)
    requires
        s1 < s2 < 253_402_300_800,
        is_utc(s1, t1),
        is_utc(s2, t2),
    ensures
        order::before(rfc3339(t1), rfc3339(t2)),
{
    clock_order(s1, s2, t1, t2);
    parted(t1);
    parted(t2);
    assert(top(2) == 100 && top(4) == 10000) by {
        reveal_with_fuel(top, 5);
    }
    let (a, b) = (rfc3339(t1), rfc3339(t2));
    let colon = ":"@;
    if t1.0 < t2.0 {
        let none = Seq::<char>::empty();
        assert(none + a =~= a && none + b =~= b);
        let (x, y) = ("-"@ + from_month(t1), "-"@ + from_month(t2));
        field_decides(none, t1.0 as nat, t2.0 as nat, 4, x, y, a, b);
    } else if t1.1 < t2.1 {
        let (x, y) = ("-"@ + from_day(t1), "-"@ + from_day(t2));
        field_decides(to_month(t1), t1.1 as nat, t2.1 as nat, 2, x, y, a, b);
    } else if t1.2 < t2.2 {
        let (x, y) = ("T"@ + from_hour(t1), "T"@ + from_hour(t2));
        field_decides(to_day(t1), t1.2 as nat, t2.2 as nat, 2, x, y, a, b);
    } else if t1.3 < t2.3 {
        let (x, y) = (colon + from_minute(t1), colon + from_minute(t2));
        field_decides(to_hour(t1), t1.3 as nat, t2.3 as nat, 2, x, y, a, b);
    } else if t1.4 < t2.4 {
        let (x, y) = (colon + (two(t1.5) + "Z"@), colon + (two(t2.5) + "Z"@));
        field_decides(to_minute(t1), t1.4 as nat, t2.4 as nat, 2, x, y, a, b);
    } else {
        field_decides(to_second(t1), t1.5 as nat, t2.5 as nat, 2, "Z"@, "Z"@, a, b);
    }
}

} // verus!
