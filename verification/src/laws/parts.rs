//! Texts that are put together of parts.

use crate::text;
use vstd::prelude::*;

verus! {

/// The texts of a list, one behind the other.
pub open spec fn concat(parts: Seq<Seq<char>>) -> Seq<char>
    decreases parts.len(),
{
    if parts.len() == 0 {
        Seq::empty()
    } else {
        parts[0] + concat(parts.skip(1))
    }
}

/// One more part stands behind all others.
pub proof fn concat_one_more(parts: Seq<Seq<char>>, last: Seq<char>)
    ensures
        concat(parts.push(last)) == concat(parts) + last,
    decreases parts.len(),
{
    let all = parts.push(last);
    if parts.len() == 0 {
        assert(all.skip(1) =~= Seq::empty());
        assert(concat(all.skip(1)) =~= Seq::empty());
        assert(concat(all) =~= last);
        assert(concat(parts) + last =~= last);
    } else {
        concat_one_more(parts.skip(1), last);
        assert(all.skip(1) =~= parts.skip(1).push(last));
        assert(concat(all) =~= concat(parts) + last);
    }
}

/// Each part of a text occurs in it.
pub proof fn joined_parts_occur(parts: Seq<Seq<char>>, sep: Seq<char>, i: int)
    requires
        0 <= i < parts.len(),
    ensures
        text::occurs(text::join(parts, sep), parts[i]),
    decreases parts.len(),
{
    let all = text::join(parts, sep);
    if parts.len() == 1 {
        assert(text::match_at(all, parts[i], 0)) by {
            assert(all.subrange(0, all.len() as int) =~= all);
        }
    } else {
        let front = text::join(parts.drop_last(), sep);
        if i == parts.len() - 1 {
            let n = (front + sep).len() as int;
            assert(all.subrange(n, n + parts[i].len()) =~= parts[i]);
            assert(text::match_at(all, parts[i], n));
        } else {
            joined_parts_occur(parts.drop_last(), sep, i);
            let k = choose|k: int| text::match_at(front, parts[i], k);
            assert(all.subrange(k, k + parts[i].len()) =~= front.subrange(k, k + parts[i].len()));
            assert(text::match_at(all, parts[i], k));
        }
    }
}

/// What occurs in a part of a text occurs in the text.
pub proof fn occurs_within(front: Seq<char>, s: Seq<char>, back: Seq<char>, pat: Seq<char>)
    requires
        text::occurs(s, pat),
    ensures
        text::occurs(front + s + back, pat),
{
    let k = choose|k: int| text::match_at(s, pat, k);
    let all = front + s + back;
    let n = front.len() + k;
    assert(all.subrange(n, n + pat.len()) =~= s.subrange(k, k + pat.len()));
    assert(text::match_at(all, pat, n));
}

/// A text occurs in another where it stands there.
pub proof fn stands_at(s: Seq<char>, pat: Seq<char>, at: int)
    requires
        0 <= at <= at + pat.len() <= s.len(),
        s.subrange(at, at + pat.len()) == pat,
    ensures
        text::occurs(s, pat),
{
    assert(text::match_at(s, pat, at));
}

} // verus!
