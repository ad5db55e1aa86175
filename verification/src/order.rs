//! The order of texts, and lists that are sorted by it.

use crate::text;
use vstd::prelude::*;

verus! {

/// `a` comes before `b`, character by character.
pub open spec fn before(a: Seq<char>, b: Seq<char>) -> bool
    decreases a.len(),
{
    if b.len() == 0 {
        false
    } else if a.len() == 0 {
        true
    } else if a[0] != b[0] {
        a[0] < b[0]
    } else {
        before(a.skip(1), b.skip(1))
    }
}

/// No text comes before itself.
pub proof fn not_before_itself(a: Seq<char>)
    ensures
        !before(a, a),
    decreases a.len(),
{
    if a.len() > 0 {
        not_before_itself(a.skip(1));
    }
}

/// What comes before a text comes before all that the text comes before.
pub proof fn before_goes_on(a: Seq<char>, b: Seq<char>, c: Seq<char>)
    requires
        before(a, b),
        before(b, c),
    ensures
        before(a, c),
    decreases a.len(),
{
    if a.len() > 0 && a[0] == b[0] && b[0] == c[0] {
        before_goes_on(a.skip(1), b.skip(1), c.skip(1));
    }
}

/// Of two texts that differ, one comes before the other.
pub proof fn one_is_before(a: Seq<char>, b: Seq<char>)
    requires
        a != b,
    ensures
        before(a, b) || before(b, a),
    decreases a.len(),
{
    if a.len() > 0 && b.len() > 0 {
        if a[0] == b[0] {
            if a.skip(1) == b.skip(1) {
                assert(a =~= seq![a[0]] + a.skip(1));
                assert(b =~= seq![b[0]] + b.skip(1));
            } else {
                one_is_before(a.skip(1), b.skip(1));
            }
        }
    } else {
        assert(a.len() == 0 && b.len() == 0 ==> a =~= b);
    }
}

/// What decides the order of two texts of one length decides it whatever
/// follows them.
pub proof fn before_decides(a: Seq<char>, b: Seq<char>, x: Seq<char>, y: Seq<char>)
    requires
        a.len() == b.len(),
        before(a, b),
    ensures
        before(a + x, b + y),
    decreases a.len(),
{
    if a[0] == b[0] {
        before_decides(a.skip(1), b.skip(1), x, y);
        assert((a + x).skip(1) =~= a.skip(1) + x);
        assert((b + y).skip(1) =~= b.skip(1) + y);
    }
}

/// What stands in front of both texts does not change their order.
pub proof fn before_behind(front: Seq<char>, a: Seq<char>, b: Seq<char>)
    requires
        before(a, b),
    ensures
        before(front + a, front + b),
    decreases front.len(),
{
    if front.len() == 0 {
        assert(front + a =~= a);
        assert(front + b =~= b);
    } else {
        before_behind(front.skip(1), a, b);
        assert((front + a).skip(1) =~= front.skip(1) + a);
        assert((front + b).skip(1) =~= front.skip(1) + b);
    }
}

/// Whether `a` comes before `b`.
pub fn is_before(a: &str, b: &str) -> (r: bool)
    ensures
        r == before(a@, b@),
{
    let v = text::to_chars(a);
    let w = text::to_chars(b);
    let mut i: usize = 0;
    assert(v@.skip(0) =~= v@);
    assert(w@.skip(0) =~= w@);
    while i < v.len() && i < w.len() && v[i] == w[i]
        invariant
            i <= v@.len(),
            i <= w@.len(),
            before(v@, w@) == before(v@.skip(i as int), w@.skip(i as int)),
        decreases v@.len() - i,
    {
        assert(v@.skip(i as int).skip(1) =~= v@.skip(i + 1));
        assert(w@.skip(i as int).skip(1) =~= w@.skip(i + 1));
        i = i + 1;
    }
    if i >= w.len() {
        false
    } else if i >= v.len() {
        true
    } else {
        v[i] < w[i]
    }
}

/// Each text of a list comes before those behind it.
pub open spec fn ascending(l: Seq<Seq<char>>) -> bool {
    forall|i: int, j: int| 0 <= i < j < l.len() ==> before(#[trigger] l[i], #[trigger] l[j])
}

/// The list holds each text of another one once, in order.
pub open spec fn is_sorted_set(l: Seq<Seq<char>>, of: Seq<Seq<char>>) -> bool {
    &&& ascending(l)
    &&& forall|x: Seq<char>| #[trigger] l.contains(x) <==> of.contains(x)
}

proof fn first_is_least(a: Seq<Seq<char>>, b: Seq<Seq<char>>)
    requires
        ascending(a),
        ascending(b),
        forall|x: Seq<char>| #[trigger] a.contains(x) <==> b.contains(x),
        a.len() > 0,
    ensures
        b.len() > 0,
        a[0] == b[0],
{
    assert(a.contains(a[0]));
    assert(b.contains(a[0]));
    let k = choose|k: int| 0 <= k < b.len() && b[k] == a[0];
    assert(b.contains(b[0]));
    assert(a.contains(b[0]));
    let m = choose|m: int| 0 <= m < a.len() && a[m] == b[0];
    if k > 0 && m > 0 {
        assert(before(b[0], b[k]));
        assert(before(a[0], a[m]));
        before_goes_on(a[0], b[0], a[0]);
        not_before_itself(a[0]);
    }
}

/// There is one list that holds each text of another one once, in order.
pub proof fn sorted_set_is_unique(a: Seq<Seq<char>>, b: Seq<Seq<char>>, of: Seq<Seq<char>>)
    requires
        is_sorted_set(a, of),
        is_sorted_set(b, of),
    ensures
        a == b,
    decreases a.len(),
{
    assert(forall|x: Seq<char>| #[trigger] a.contains(x) <==> b.contains(x));
    if a.len() == 0 {
        if b.len() > 0 {
            assert(b.contains(b[0]));
            assert(a.contains(b[0]));
        }
        assert(a =~= b);
    } else {
        first_is_least(a, b);
        let ta = a.skip(1);
        let tb = b.skip(1);
        assert forall|x: Seq<char>| #[trigger] ta.contains(x) <==> tb.contains(x) by {
            if ta.contains(x) {
                let i = choose|i: int| 0 <= i < ta.len() && ta[i] == x;
                assert(a[i + 1] == x);
                assert(a.contains(x));
                let j = choose|j: int| 0 <= j < b.len() && b[j] == x;
                assert(before(a[0], a[i + 1]));
                not_before_itself(a[0]);
                assert(j > 0);
                assert(tb[j - 1] == x);
            }
            if tb.contains(x) {
                let j = choose|j: int| 0 <= j < tb.len() && tb[j] == x;
                assert(b[j + 1] == x);
                assert(b.contains(x));
                assert(a.contains(x));
                let i = choose|i: int| 0 <= i < a.len() && a[i] == x;
                assert(before(b[0], b[j + 1]));
                not_before_itself(b[0]);
                assert(i > 0);
                assert(ta[i - 1] == x);
            }
        }
        assert(ascending(ta)) by {
            assert forall|i: int, j: int| 0 <= i < j < ta.len() implies before(
                #[trigger] ta[i],
                #[trigger] ta[j],
            ) by {
                assert(before(a[i + 1], a[j + 1]));
            }
        }
        assert(ascending(tb)) by {
            assert forall|i: int, j: int| 0 <= i < j < tb.len() implies before(
                #[trigger] tb[i],
                #[trigger] tb[j],
            ) by {
                assert(before(b[i + 1], b[j + 1]));
            }
        }
        sorted_set_is_unique(ta, tb, ta);
        assert(a =~= seq![a[0]] + ta);
        assert(b =~= seq![b[0]] + tb);
    }
}

/// Puts a text in its place in a sorted list, unless it is there already.
fn put(out: &mut Vec<String>, s: &str)
    requires
        ascending(text::views(old(out)@)),
    ensures
        ascending(text::views(final(out)@)),
        forall|x: Seq<char>| #[trigger]
            text::views(final(out)@).contains(x) <==> text::views(old(out)@).contains(x) || x
                == s@,
{
    let ghost all = text::views(out@);
    let mut p: usize = 0;
    while p < out.len() && is_before(&out[p], s)
        invariant
            p <= out@.len(),
            all == text::views(out@),
            forall|i: int| 0 <= i < p ==> before(#[trigger] all[i], s@),
        decreases out@.len() - p,
    {
        assert(all[p as int] == out@[p as int]@);
        p = p + 1;
    }
    if p < out.len() {
        assert(all[p as int] == out@[p as int]@);
        if text::same(&out[p], s) {
            assert(all.contains(s@));
            return;
        }
        proof {
            one_is_before(all[p as int], s@);
            assert(before(s@, all[p as int]));
        }
    }
    out.insert(p, s.to_owned());
    let ghost next = text::views(out@);
    proof {
        assert(next =~= all.insert(p as int, s@));
        assert forall|i: int, j: int| 0 <= i < j < next.len() implies before(
            #[trigger] next[i],
            #[trigger] next[j],
        ) by {
            if j < p {
                assert(before(all[i], all[j]));
            } else if j == p {
                assert(before(all[i], s@));
            } else if i == p {
                if j - 1 > p {
                    assert(before(all[p as int], all[j - 1]));
                    before_goes_on(s@, all[p as int], all[j - 1]);
                }
            } else if i < p {
                assert(before(all[i], all[j - 1]));
            } else {
                assert(before(all[i - 1], all[j - 1]));
            }
        }
        assert forall|x: Seq<char>| #[trigger] next.contains(x) <==> all.contains(x) || x == s@ by {
            if next.contains(x) && x != s@ {
                let k = choose|k: int| 0 <= k < next.len() && next[k] == x;
                if k < p {
                    assert(all[k] == x);
                } else {
                    assert(all[k - 1] == x);
                }
            }
            if all.contains(x) {
                let k = choose|k: int| 0 <= k < all.len() && all[k] == x;
                if k < p {
                    assert(next[k] == x);
                } else {
                    assert(next[k + 1] == x);
                }
            }
            assert(next[p as int] == s@);
        }
    }
}

/// Each text of a list once, in order.
pub fn sorted_set(l: &Vec<String>) -> (r: Vec<String>)
    ensures
        is_sorted_set(text::views(r@), text::views(l@)),
{
    let ghost all = text::views(l@);
    let mut out: Vec<String> = Vec::new();
    for i in 0..l.len()
        invariant
            all == text::views(l@),
            is_sorted_set(text::views(out@), all.take(i as int)),
    {
        let ghost old_set = text::views(out@);
        put(&mut out, &l[i]);
        proof {
            let now = all.take(i + 1);
            assert(now =~= all.take(i as int).push(l@[i as int]@));
            assert forall|x: Seq<char>| #[trigger]
                text::views(out@).contains(x) <==> now.contains(x) by {
                assert(text::views(out@).contains(x) <==> old_set.contains(x) || x
                    == l@[i as int]@);
                assert(old_set.contains(x) <==> all.take(i as int).contains(x));
                if all.take(i as int).contains(x) {
                    let k = choose|k: int| 0 <= k < i && all.take(i as int)[k] == x;
                    assert(now[k] == x);
                }
                if now.contains(x) && x != l@[i as int]@ {
                    let k = choose|k: int| 0 <= k < now.len() && now[k] == x;
                    assert(all.take(i as int)[k] == x);
                }
                assert(now[i as int] == l@[i as int]@);
            }
        }
    }
    assert(all.take(all.len() as int) =~= all);
    out
}

} // verus!
