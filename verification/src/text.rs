//! Text primitives.
//!
//! A text is modelled by the sequence of its characters. Each executable
//! function here is stated over such sequences, and every other module builds
//! its own statements from the same vocabulary.

use vstd::prelude::*;
use vstd::utf8::encode_utf8;

verus! {

/// `String::push` appends one character to the end of the string.
pub assume_specification[ String::push ](s: &mut String, c: char)
    ensures
        final(s)@ == old(s)@.push(c),
;

/// The characters with the Unicode `White_Space` property.
pub open spec fn is_space(c: char) -> bool {
    let n = c as u32;
    ||| 0x09 <= n <= 0x0d
    ||| n == 0x20
    ||| n == 0x85
    ||| n == 0xa0
    ||| n == 0x1680
    ||| 0x2000 <= n <= 0x200a
    ||| n == 0x2028
    ||| n == 0x2029
    ||| n == 0x202f
    ||| n == 0x205f
    ||| n == 0x3000
}

/// Whether a character is white space.
pub fn space(c: char) -> (b: bool)
    ensures
        b == is_space(c),
{
    let n: u32 = c as u32;
    (0x09 <= n && n <= 0x0d) || n == 0x20 || n == 0x85 || n == 0xa0 || n == 0x1680 || (0x2000 <= n
        && n <= 0x200a) || n == 0x2028 || n == 0x2029 || n == 0x202f || n == 0x205f || n == 0x3000
}

/// The texts held by a list of strings.
pub open spec fn views(v: Seq<String>) -> Seq<Seq<char>> {
    v.map_values(|s: String| s@)
}

pub broadcast proof fn views_push(v: Seq<String>, s: String)
    ensures
        #[trigger] views(v.push(s)) == views(v).push(s@),
{
    assert(views(v.push(s)) =~= views(v).push(s@));
}

/// The characters of a string, as a list.
pub fn to_chars(s: &str) -> (r: Vec<char>)
    ensures
        r@ == s@,
{
    let mut v: Vec<char> = Vec::new();
    for c in it: s.chars()
        invariant
            v@ == it.seq().take(it.index() as int),
            it.seq() == s@,
    {
        v.push(c);
    }
    v
}

/// The string made of the characters `from..to` of a list.
pub fn from_range(v: &Vec<char>, from: usize, to: usize) -> (r: String)
    requires
        from <= to <= v@.len(),
    ensures
        r@ == v@.subrange(from as int, to as int),
{
    let mut s = String::new();
    for i in from..to
        invariant
            from <= to <= v@.len(),
            s@ == v@.subrange(from as int, i as int),
    {
        s.push(v[i]);
    }
    s
}

/// The string made of all the characters of a list.
pub fn from_chars(v: &Vec<char>) -> (r: String)
    ensures
        r@ == v@,
{
    from_range(v, 0, v.len())
}

/// Whether two strings hold the same text.
pub fn same(a: &str, b: &str) -> (r: bool)
    ensures
        r == (a@ == b@),
{
    let x = a.as_bytes();
    let y = b.as_bytes();
    proof {
        vstd::utf8::encode_utf8_decode_utf8(a@);
        vstd::utf8::encode_utf8_decode_utf8(b@);
    }
    if x.len() != y.len() {
        return false;
    }
    for i in 0..x.len()
        invariant
            x@ == encode_utf8(a@),
            y@ == encode_utf8(b@),
            x@.len() == y@.len(),
            forall|j: int| 0 <= j < i ==> x@[j] == y@[j],
    {
        if x[i] != y[i] {
            return false;
        }
    }
    assert(x@ =~= y@);
    true
}

/// The number of bytes of a text in UTF-8.
pub open spec fn byte_count(s: Seq<char>) -> nat {
    encode_utf8(s).len()
}

/// The number of bytes that a string takes up.
pub fn byte_len(s: &str) -> (n: usize)
    ensures
        n == byte_count(s@),
{
    s.as_bytes().len()
}

/// The number of characters of a string.
pub fn char_len(s: &str) -> (n: usize)
    ensures
        n == s@.len(),
{
    to_chars(s).len()
}

// ---------------------------------------------------------------------------
// ASCII case
// ---------------------------------------------------------------------------

/// One character with an ASCII capital turned into the small letter.
pub open spec fn lower_char(c: char) -> char {
    if 'A' <= c <= 'Z' {
        (c as u8 + 32) as char
    } else {
        c
    }
}

/// A text with its ASCII capitals turned into small letters.
pub open spec fn lower(s: Seq<char>) -> Seq<char> {
    s.map_values(|c: char| lower_char(c))
}

/// `s` with its ASCII capitals turned into small letters.
pub fn to_lower(s: &str) -> (r: String)
    ensures
        r@ == lower(s@),
{
    let v = to_chars(s);
    let mut out = String::new();
    for i in 0..v.len()
        invariant
            out@ == lower(v@.take(i as int)),
    {
        let c = v[i];
        let d = if 'A' <= c && c <= 'Z' {
            (c as u8 + 32) as char
        } else {
            c
        };
        out.push(d);
        assert(lower(v@.take(i + 1)) =~= lower(v@.take(i as int)).push(d));
    }
    assert(v@.take(v@.len() as int) =~= v@);
    out
}

/// Whether two strings differ at most in ASCII case.
pub fn same_ignoring_case(a: &str, b: &str) -> (r: bool)
    ensures
        r == (lower(a@) == lower(b@)),
{
    same(&to_lower(a), &to_lower(b))
}

// ---------------------------------------------------------------------------
// Searching
// ---------------------------------------------------------------------------

/// `pat` stands in `s` at position `i`.
pub open spec fn match_at(s: Seq<char>, pat: Seq<char>, i: int) -> bool {
    &&& 0 <= i
    &&& i + pat.len() <= s.len()
    &&& s.subrange(i, i + pat.len()) == pat
}

/// `pat` stands somewhere in `s`.
pub open spec fn occurs(s: Seq<char>, pat: Seq<char>) -> bool {
    exists|i: int| match_at(s, pat, i)
}

/// `s` begins with `pat`.
pub open spec fn begins(s: Seq<char>, pat: Seq<char>) -> bool {
    match_at(s, pat, 0)
}

/// `s` ends with `pat`.
pub open spec fn ends(s: Seq<char>, pat: Seq<char>) -> bool {
    match_at(s, pat, s.len() - pat.len())
}

/// Whether `p` stands in `v` at position `i`.
fn chars_match_at(v: &Vec<char>, p: &Vec<char>, i: usize) -> (r: bool)
    requires
        i <= v@.len(),
    ensures
        r == match_at(v@, p@, i as int),
{
    if p.len() > v.len() - i {
        return false;
    }
    for k in 0..p.len()
        invariant
            i + p.len() <= v.len(),
            forall|j: int| 0 <= j < k ==> v@[i + j] == p@[j],
    {
        if v[i + k] != p[k] {
            assert(v@.subrange(i as int, i + p@.len())[k as int] != p@[k as int]);
            return false;
        }
    }
    assert(v@.subrange(i as int, i + p@.len()) =~= p@);
    true
}

/// What a search for the first place of a pattern gives.
pub open spec fn is_first_match(s: Seq<char>, pat: Seq<char>, r: Option<usize>) -> bool {
    match r {
        Some(i) => match_at(s, pat, i as int) && forall|j: int|
            0 <= j < i ==> !match_at(s, pat, j),
        None => forall|j: int| !match_at(s, pat, j),
    }
}

/// The first place of `pat` in `v`, in characters.
pub fn find_chars(v: &Vec<char>, pat: &str) -> (r: Option<usize>)
    ensures
        is_first_match(v@, pat@, r),
{
    let p = to_chars(pat);
    let mut i: usize = 0;
    while i < v.len()
        invariant
            i <= v@.len(),
            p@ == pat@,
            forall|j: int| 0 <= j < i ==> !match_at(v@, pat@, j),
        decreases v@.len() - i,
    {
        if chars_match_at(v, &p, i) {
            return Some(i);
        }
        i = i + 1;
    }
    if chars_match_at(v, &p, i) {
        return Some(i);
    }
    None
}

/// The last place of `pat` in `v`, in characters.
pub fn rfind_chars(v: &Vec<char>, pat: &str) -> (r: Option<usize>)
    ensures
        match r {
            Some(i) => match_at(v@, pat@, i as int) && forall|j: int|
                i < j ==> !match_at(v@, pat@, j),
            None => forall|j: int| !match_at(v@, pat@, j),
        },
{
    let p = to_chars(pat);
    let mut i: usize = v.len();
    loop
        invariant
            i <= v@.len(),
            p@ == pat@,
            forall|j: int| i < j ==> !match_at(v@, pat@, j),
        decreases i,
    {
        if chars_match_at(v, &p, i) {
            return Some(i);
        }
        if i == 0 {
            return None;
        }
        i = i - 1;
    }
}

/// Whether `pat` stands somewhere in `s`.
pub fn contains(s: &str, pat: &str) -> (r: bool)
    ensures
        r == occurs(s@, pat@),
{
    find_chars(&to_chars(s), pat).is_some()
}

/// Whether `s` begins with `pat`.
pub fn starts_with(s: &str, pat: &str) -> (r: bool)
    ensures
        r == begins(s@, pat@),
{
    chars_match_at(&to_chars(s), &to_chars(pat), 0)
}

/// Whether `s` ends with `pat`.
pub fn ends_with(s: &str, pat: &str) -> (r: bool)
    ensures
        r == ends(s@, pat@),
{
    let v = to_chars(s);
    let p = to_chars(pat);
    if p.len() > v.len() {
        return false;
    }
    let at: usize = v.len() - p.len();
    chars_match_at(&v, &p, at)
}

/// What is left of `s` after the prefix `pat`, if it begins with it.
pub fn strip_prefix(s: &str, pat: &str) -> (r: Option<String>)
    ensures
        r is Some <==> begins(s@, pat@),
        r matches Some(rest) ==> rest@ == s@.skip(pat@.len() as int),
{
    let v = to_chars(s);
    let p = to_chars(pat);
    if chars_match_at(&v, &p, 0) {
        let rest = from_range(&v, p.len(), v.len());
        assert(rest@ =~= s@.skip(pat@.len() as int));
        Some(rest)
    } else {
        None
    }
}

/// Some text of a list stands somewhere in `s`.
pub open spec fn occurs_any(s: Seq<char>, pats: Seq<Seq<char>>) -> bool {
    exists|k: int| 0 <= k < pats.len() && occurs(s, #[trigger] pats[k])
}

/// `s` begins with some text of a list.
pub open spec fn begins_any(s: Seq<char>, pats: Seq<Seq<char>>) -> bool {
    exists|k: int| 0 <= k < pats.len() && begins(s, #[trigger] pats[k])
}

/// The texts held by a list of string slices.
pub open spec fn slice_views(v: Seq<&str>) -> Seq<Seq<char>> {
    v.map_values(|s: &str| s@)
}

/// Whether some string of `pats` stands in `s`.
pub fn contains_any(s: &str, pats: &[&str]) -> (r: bool)
    ensures
        r == occurs_any(s@, slice_views(pats@)),
{
    for k in 0..pats.len()
        invariant
            forall|j: int| 0 <= j < k ==> !occurs(s@, #[trigger] slice_views(pats@)[j]),
    {
        if contains(s, pats[k]) {
            assert(occurs(s@, slice_views(pats@)[k as int]));
            return true;
        }
    }
    false
}

/// Whether `s` begins with some string of `pats`.
pub fn starts_with_any(s: &str, pats: &[&str]) -> (r: bool)
    ensures
        r == begins_any(s@, slice_views(pats@)),
{
    for k in 0..pats.len()
        invariant
            forall|j: int| 0 <= j < k ==> !begins(s@, #[trigger] slice_views(pats@)[j]),
    {
        if starts_with(s, pats[k]) {
            assert(begins(s@, slice_views(pats@)[k as int]));
            return true;
        }
    }
    false
}

/// Whether `s` is one of the strings of `words`.
pub fn one_of(s: &str, words: &[&str]) -> (r: bool)
    ensures
        r == slice_views(words@).contains(s@),
{
    for k in 0..words.len()
        invariant
            forall|j: int| 0 <= j < k ==> s@ != #[trigger] slice_views(words@)[j],
    {
        if same(s, words[k]) {
            assert(slice_views(words@)[k as int] == s@);
            return true;
        }
    }
    false
}

/// Whether `s` is one of the strings of a list.
pub fn holds(list: &Vec<String>, s: &str) -> (r: bool)
    ensures
        r == views(list@).contains(s@),
{
    for k in 0..list.len()
        invariant
            forall|j: int| 0 <= j < k ==> s@ != #[trigger] views(list@)[j],
    {
        if same(s, &list[k]) {
            assert(views(list@)[k as int] == s@);
            return true;
        }
    }
    false
}

// ---------------------------------------------------------------------------
// Trimming
// ---------------------------------------------------------------------------

/// `s` without the white space that it begins with.
pub open spec fn trim_start(s: Seq<char>) -> Seq<char>
    decreases s.len(),
{
    if s.len() > 0 && is_space(s[0]) {
        trim_start(s.skip(1))
    } else {
        s
    }
}

/// `s` without the white space that it ends with.
pub open spec fn trim_end(s: Seq<char>) -> Seq<char>
    decreases s.len(),
{
    if s.len() > 0 && is_space(s.last()) {
        trim_end(s.drop_last())
    } else {
        s
    }
}

/// `s` without the white space at both its ends.
pub open spec fn trim(s: Seq<char>) -> Seq<char> {
    trim_end(trim_start(s))
}

/// `s` holds nothing but white space.
pub open spec fn blank(s: Seq<char>) -> bool {
    trim(s).len() == 0
}

/// The position of the first character of `v` from `i` on that is no white space.
fn skip_space(v: &Vec<char>, from: usize) -> (r: usize)
    requires
        from <= v@.len(),
    ensures
        from <= r <= v@.len(),
        trim_start(v@.skip(from as int)) == v@.skip(r as int),
        r < v@.len() ==> !is_space(v@[r as int]),
{
    let mut i: usize = from;
    while i < v.len() && space(v[i])
        invariant
            from <= i <= v@.len(),
            trim_start(v@.skip(from as int)) == trim_start(v@.skip(i as int)),
        decreases v@.len() - i,
    {
        assert(v@.skip(i as int).skip(1) =~= v@.skip(i + 1));
        i = i + 1;
    }
    i
}

/// The end of `v[from..]` without the white space that it ends with.
fn back_over_space(v: &Vec<char>, from: usize) -> (r: usize)
    requires
        from <= v@.len(),
    ensures
        from <= r <= v@.len(),
        trim_end(v@.skip(from as int)) == v@.subrange(from as int, r as int),
{
    let mut j: usize = v.len();
    assert(v@.skip(from as int) =~= v@.subrange(from as int, j as int));
    while j > from && space(v[j - 1])
        invariant
            from <= j <= v@.len(),
            trim_end(v@.skip(from as int)) == trim_end(v@.subrange(from as int, j as int)),
        decreases j,
    {
        assert(v@.subrange(from as int, j as int).drop_last() =~= v@.subrange(
            from as int,
            j - 1,
        ));
        j = j - 1;
    }
    j
}

/// `s` without the white space at both its ends.
pub fn trimmed(s: &str) -> (r: String)
    ensures
        r@ == trim(s@),
{
    let v = to_chars(s);
    assert(v@.skip(0) =~= v@);
    let i = skip_space(&v, 0);
    let j = back_over_space(&v, i);
    from_range(&v, i, j)
}

/// Whether `s` holds nothing but white space.
pub fn is_blank(s: &str) -> (r: bool)
    ensures
        r == blank(s@),
{
    trimmed(s).as_str().is_empty()
}

/// `s` without the characters `c` that it ends with.
pub open spec fn strip_end(s: Seq<char>, c: char) -> Seq<char>
    decreases s.len(),
{
    if s.len() > 0 && s.last() == c {
        strip_end(s.drop_last(), c)
    } else {
        s
    }
}

/// `s` without the characters `c` that it begins with.
pub open spec fn strip_start(s: Seq<char>, c: char) -> Seq<char>
    decreases s.len(),
{
    if s.len() > 0 && s[0] == c {
        strip_start(s.skip(1), c)
    } else {
        s
    }
}

/// `s` without the characters `c` that it ends with.
pub fn stripped_end(s: &str, c: char) -> (r: String)
    ensures
        r@ == strip_end(s@, c),
{
    let v = to_chars(s);
    let mut j: usize = v.len();
    assert(v@.take(j as int) =~= v@);
    while j > 0 && v[j - 1] == c
        invariant
            j <= v@.len(),
            strip_end(v@, c) == strip_end(v@.take(j as int), c),
        decreases j,
    {
        assert(v@.take(j as int).drop_last() =~= v@.take(j - 1));
        j = j - 1;
    }
    let r = from_range(&v, 0, j);
    assert(r@ =~= v@.take(j as int));
    r
}

/// `s` without the characters `c` that it begins with.
pub fn stripped_start(s: &str, c: char) -> (r: String)
    ensures
        r@ == strip_start(s@, c),
{
    let v = to_chars(s);
    let mut i: usize = 0;
    assert(v@.skip(0) =~= v@);
    while i < v.len() && v[i] == c
        invariant
            i <= v@.len(),
            strip_start(v@, c) == strip_start(v@.skip(i as int), c),
        decreases v@.len() - i,
    {
        assert(v@.skip(i as int).skip(1) =~= v@.skip(i + 1));
        i = i + 1;
    }
    let r = from_range(&v, i, v.len());
    assert(r@ =~= v@.skip(i as int));
    r
}

/// Some character of `s` is no white space.
pub open spec fn inked(s: Seq<char>) -> bool {
    exists|i: int| 0 <= i < s.len() && !is_space(#[trigger] s[i])
}

/// Trimming leaves something exactly where there is more than white space.
pub proof fn trim_keeps_ink(s: Seq<char>)
    ensures
        blank(s) <==> !inked(s),
        inked(trim(s)) <==> inked(s),
        trim(s).len() <= s.len(),
{
    trim_start_ink(s);
    trim_end_ink(trim_start(s));
}

proof fn trim_start_ink(s: Seq<char>)
    ensures
        inked(trim_start(s)) <==> inked(s),
        trim_start(s).len() > 0 ==> inked(s),
        trim_start(s).len() <= s.len(),
    decreases s.len(),
{
    if s.len() > 0 && is_space(s[0]) {
        let t = s.skip(1);
        trim_start_ink(t);
        if inked(s) {
            let i = choose|i: int| 0 <= i < s.len() && !is_space(#[trigger] s[i]);
            assert(t[i - 1] == s[i]);
        }
        if inked(t) {
            let i = choose|i: int| 0 <= i < t.len() && !is_space(#[trigger] t[i]);
            assert(s[i + 1] == t[i]);
        }
    } else if s.len() > 0 {
        assert(!is_space(s[0]));
    }
}

proof fn trim_end_ink(s: Seq<char>)
    ensures
        inked(trim_end(s)) <==> inked(s),
        trim_end(s).len() > 0 <==> inked(s),
        trim_end(s).len() <= s.len(),
    decreases s.len(),
{
    if s.len() > 0 && is_space(s.last()) {
        let t = s.drop_last();
        trim_end_ink(t);
        if inked(s) {
            let i = choose|i: int| 0 <= i < s.len() && !is_space(#[trigger] s[i]);
            assert(t[i] == s[i]);
        }
        if inked(t) {
            let i = choose|i: int| 0 <= i < t.len() && !is_space(#[trigger] t[i]);
            assert(s[i] == t[i]);
        }
    } else if s.len() > 0 {
        assert(!is_space(s[s.len() - 1]));
    }
}

// ---------------------------------------------------------------------------
// Cutting
// ---------------------------------------------------------------------------

/// The first `n` characters of `s`, or all of it.
pub open spec fn head(s: Seq<char>, n: nat) -> Seq<char> {
    if s.len() <= n {
        s
    } else {
        s.take(n as int)
    }
}

/// The last `n` characters of `s`, or all of it.
pub open spec fn tail(s: Seq<char>, n: nat) -> Seq<char> {
    if s.len() <= n {
        s
    } else {
        s.skip(s.len() - n)
    }
}

/// The first `n` characters of `s`, or all of it.
pub fn take_chars(s: &str, n: usize) -> (r: String)
    ensures
        r@ == head(s@, n as nat),
{
    let v = to_chars(s);
    if v.len() <= n {
        from_chars(&v)
    } else {
        let r = from_range(&v, 0, n);
        assert(r@ =~= s@.take(n as int));
        r
    }
}

/// The last `n` characters of `s`, or all of it.
pub fn last_chars(s: &str, n: usize) -> (r: String)
    ensures
        r@ == tail(s@, n as nat),
{
    let v = to_chars(s);
    if v.len() <= n {
        from_chars(&v)
    } else {
        let r = from_range(&v, v.len() - n, v.len());
        assert(r@ =~= s@.skip(s@.len() - n));
        r
    }
}

/// How many bytes a character takes up in UTF-8.
pub open spec fn char_bytes(c: char) -> nat {
    let n = c as u32;
    if n <= 0x7f {
        1
    } else if n <= 0x7ff {
        2
    } else if n <= 0xffff {
        3
    } else {
        4
    }
}

fn char_byte_len(c: char) -> (r: usize)
    ensures
        r == char_bytes(c),
{
    let n: u32 = c as u32;
    if n <= 0x7f {
        1
    } else if n <= 0x7ff {
        2
    } else if n <= 0xffff {
        3
    } else {
        4
    }
}

pub proof fn byte_count_front(s: Seq<char>)
    requires
        s.len() > 0,
    ensures
        byte_count(s) == char_bytes(s[0]) + byte_count(s.skip(1)),
{
    vstd::utf8::char_is_scalar(s[0]);
    assert(s.drop_first() =~= s.skip(1));
}

/// The start of a text that takes up `n` bytes, if `n` does not fall inside a
/// character or behind the end.
pub open spec fn byte_cut(s: Seq<char>, n: int) -> Option<Seq<char>>
    decreases s.len(),
{
    if n == 0 {
        Some(Seq::empty())
    } else if n < 0 || s.len() == 0 {
        None
    } else {
        match byte_cut(s.skip(1), n - char_bytes(s[0])) {
            Some(t) => Some(seq![s[0]] + t),
            None => None,
        }
    }
}

/// The bytes of a text are those of its parts.
pub proof fn byte_count_sum(a: Seq<char>, b: Seq<char>)
    ensures
        byte_count(a + b) == byte_count(a) + byte_count(b),
    decreases a.len(),
{
    if a.len() == 0 {
        assert(a + b =~= b);
    } else {
        byte_count_front(a);
        byte_count_front(a + b);
        byte_count_sum(a.skip(1), b);
        assert((a + b).skip(1) =~= a.skip(1) + b);
    }
}

/// A character takes up at most four bytes.
pub proof fn byte_count_most(s: Seq<char>)
    ensures
        byte_count(s) <= 4 * s.len(),
    decreases s.len(),
{
    if s.len() > 0 {
        byte_count_front(s);
        byte_count_most(s.skip(1));
    }
}

/// The start of a text that takes up `n` bytes is that start and takes up
/// `n` bytes.
pub proof fn byte_cut_is_prefix(s: Seq<char>, n: int)
    ensures
        byte_cut(s, n) matches Some(t) ==> t.len() <= s.len() && t == s.take(t.len() as int)
            && byte_count(t) == n,
    decreases s.len(),
{
    if n != 0 && n > 0 && s.len() > 0 {
        byte_cut_is_prefix(s.skip(1), n - char_bytes(s[0]));
        if let Some(t) = byte_cut(s.skip(1), n - char_bytes(s[0])) {
            let w = seq![s[0]] + t;
            byte_count_front(w);
            assert(w.skip(1) =~= t);
            assert(w =~= s.take(w.len() as int));
        }
    } else if n == 0 {
        assert(s.take(0) =~= Seq::empty());
    }
}

/// The start of `s` that takes up `n` bytes, if there is one.
pub fn cut_at_byte(s: &str, n: usize) -> (r: Option<String>)
    ensures
        match r {
            Some(t) => byte_cut(s@, n as int) == Some(t@),
            None => byte_cut(s@, n as int) is None,
        },
{
    let v = to_chars(s);
    let mut i: usize = 0;
    let mut left: usize = n;
    assert(v@.skip(0) =~= v@);
    assert(byte_cut(v@, n as int) matches Some(w) ==> v@.take(0) + w =~= w);
    while i < v.len() && left > 0
        invariant
            i <= v@.len(),
            left <= n,
            v@ == s@,
            match byte_cut(v@.skip(i as int), left as int) {
                Some(t) => byte_cut(v@, n as int) == Some(v@.take(i as int) + t),
                None => byte_cut(v@, n as int) is None,
            },
        decreases v@.len() - i,
    {
        let k: usize = char_byte_len(v[i]);
        let ghost rest = v@.skip(i as int);
        assert(rest.skip(1) =~= v@.skip(i + 1));
        if k > left {
            return None;
        }
        proof {
            if let Some(t) = byte_cut(rest.skip(1), left - k) {
                assert(v@.take(i as int) + (seq![rest[0]] + t) =~= v@.take(i + 1) + t);
            }
        }
        left = left - k;
        i = i + 1;
    }
    if left > 0 {
        return None;
    }
    let r = from_range(&v, 0, i);
    assert(r@ =~= v@.take(i as int) + Seq::<char>::empty());
    Some(r)
}

/// The longest start of a text that takes up at most `n` bytes.
pub open spec fn byte_head(s: Seq<char>, n: nat) -> Seq<char>
    decreases s.len(),
{
    if s.len() == 0 || byte_count(s) <= n {
        s
    } else {
        byte_head(s.drop_last(), n)
    }
}

proof fn byte_head_at(s: Seq<char>, n: nat, i: int)
    requires
        0 <= i <= s.len(),
        byte_count(s.take(i)) <= n,
        i < s.len() ==> byte_count(s.take(i + 1)) > n,
    ensures
        byte_head(s, n) == s.take(i),
    decreases s.len(),
{
    if i == s.len() {
        assert(s.take(i) =~= s);
    } else {
        assert(s.take(i + 1) + s.skip(i + 1) =~= s);
        byte_count_sum(s.take(i + 1), s.skip(i + 1));
        let front = s.drop_last();
        assert(front.take(i) =~= s.take(i));
        if i < front.len() {
            assert(front.take(i + 1) =~= s.take(i + 1));
        }
        byte_head_at(front, n, i);
    }
}

/// The longest start of a text within some bytes is a start of it and within
/// them, no longer start is, and a text within them is left whole.
pub proof fn byte_head_is_longest(s: Seq<char>, n: nat)
    ensures
        byte_head(s, n).is_prefix_of(s),
        byte_count(byte_head(s, n)) <= n,
        forall|i: int|
            byte_head(s, n).len() < i <= s.len() ==> byte_count(#[trigger] s.take(i)) > n,
        byte_count(s) <= n ==> byte_head(s, n) == s,
    decreases s.len(),
{
    if s.len() == 0 {
        assert(s =~= Seq::empty());
        byte_count_most(s);
    } else if byte_count(s) > n {
        let front = s.drop_last();
        byte_head_is_longest(front, n);
        assert forall|i: int| byte_head(s, n).len() < i <= s.len() implies byte_count(
            #[trigger] s.take(i),
        ) > n by {
            if i == s.len() {
                assert(s.take(i) =~= s);
            } else {
                assert(s.take(i) =~= front.take(i));
            }
        }
    }
}

/// The longest start of `s` that takes up at most `n` bytes.
pub fn take_bytes(s: &str, n: usize) -> (r: String)
    ensures
        r@ == byte_head(s@, n as nat),
{
    let v = to_chars(s);
    let mut i: usize = 0;
    let mut used: usize = 0;
    proof {
        assert(v@.take(0) =~= Seq::empty());
        byte_count_most(v@.take(0));
    }
    while i < v.len()
        invariant
            i <= v@.len(),
            v@ == s@,
            used == byte_count(v@.take(i as int)),
            used <= n,
        decreases v@.len() - i,
    {
        let k: usize = char_byte_len(v[i]);
        proof {
            let one = seq![v@[i as int]];
            assert(v@.take(i + 1) =~= v@.take(i as int) + one);
            byte_count_sum(v@.take(i as int), one);
            byte_count_front(one);
            byte_count_most(one.skip(1));
        }
        if k > n - used {
            proof {
                byte_head_at(s@, n as nat, i as int);
            }
            let r = from_range(&v, 0, i);
            assert(r@ =~= s@.take(i as int));
            return r;
        }
        used = used + k;
        i = i + 1;
    }
    proof {
        byte_head_at(s@, n as nat, i as int);
        assert(s@.take(i as int) =~= s@);
    }
    from_chars(&v)
}

// ---------------------------------------------------------------------------
// Taking apart
// ---------------------------------------------------------------------------

/// The place of the first `c` in `s`, or the length of `s`.
pub open spec fn index_of(s: Seq<char>, c: char) -> nat
    decreases s.len(),
{
    if s.len() == 0 || s[0] == c {
        0
    } else {
        1 + index_of(s.skip(1), c)
    }
}

pub proof fn index_of_bounds(s: Seq<char>, c: char)
    ensures
        index_of(s, c) <= s.len(),
        index_of(s, c) < s.len() ==> s[index_of(s, c) as int] == c,
        forall|j: int| 0 <= j < index_of(s, c) ==> s[j] != c,
    decreases s.len(),
{
    if s.len() > 0 && s[0] != c {
        index_of_bounds(s.skip(1), c);
        assert forall|j: int| 0 <= j < index_of(s, c) implies s[j] != c by {
            if j > 0 {
                assert(s[j] == s.skip(1)[j - 1]);
            }
        }
        if index_of(s, c) < s.len() {
            assert(s[index_of(s, c) as int] == s.skip(1)[index_of(s, c) - 1]);
        }
    }
}

/// The place of the first `c` in `v` from `from` on, or the end of `v`.
pub fn find_char(v: &Vec<char>, from: usize, c: char) -> (r: usize)
    requires
        from <= v@.len(),
    ensures
        from <= r <= v@.len(),
        r == from + index_of(v@.skip(from as int), c),
        r < v@.len() ==> v@[r as int] == c,
{
    let mut i: usize = from;
    while i < v.len() && v[i] != c
        invariant
            from <= i <= v@.len(),
            from + index_of(v@.skip(from as int), c) == i + index_of(v@.skip(i as int), c),
        decreases v@.len() - i,
    {
        assert(v@.skip(i as int).skip(1) =~= v@.skip(i + 1));
        i = i + 1;
    }
    i
}

/// A line without the carriage return that it ends with.
pub open spec fn strip_cr(s: Seq<char>) -> Seq<char> {
    if s.len() > 0 && s.last() == '\r' {
        s.drop_last()
    } else {
        s
    }
}

/// The lines of a text. A line ends in a line feed or in a carriage return
/// and a line feed; the last one may end with the text.
pub open spec fn lines(s: Seq<char>) -> Seq<Seq<char>>
    decreases s.len(),
{
    let n = index_of(s, '\n') as int;
    if s.len() == 0 {
        Seq::empty()
    } else if n >= s.len() {
        seq![s]
    } else {
        seq![strip_cr(s.take(n))] + lines(s.skip(n + 1))
    }
}

/// The lines of `s`.
pub fn split_lines(s: &str) -> (r: Vec<String>)
    ensures
        views(r@) == lines(s@),
{
    broadcast use views_push;

    let v = to_chars(s);
    let mut out: Vec<String> = Vec::new();
    let mut i: usize = 0;
    assert(v@.skip(0) =~= v@);
    assert(views(out@) + lines(v@) =~= lines(v@));
    while i < v.len()
        invariant
            i <= v@.len(),
            lines(v@) == views(out@) + lines(v@.skip(i as int)),
        decreases v@.len() - i,
    {
        let n = find_char(&v, i, '\n');
        let ghost rest = v@.skip(i as int);
        if n < v.len() {
            let mut end: usize = n;
            if end > i && v[end - 1] == '\r' {
                end = end - 1;
            }
            let line = from_range(&v, i, end);
            proof {
                assert(rest.take(n - i) =~= v@.subrange(i as int, n as int));
                assert(line@ =~= strip_cr(rest.take(n - i)));
                assert(rest.skip(n - i + 1) =~= v@.skip(n + 1));
                assert(views(out@) + (seq![line@] + lines(v@.skip(n + 1))) =~= views(out@).push(
                    line@,
                ) + lines(v@.skip(n + 1)));
            }
            out.push(line);
            i = n + 1;
        } else {
            let line = from_range(&v, i, n);
            proof {
                assert(line@ =~= rest);
                assert(v@.skip(n as int) =~= Seq::empty());
                assert(views(out@) + seq![line@] =~= views(out@).push(line@) + lines(
                    v@.skip(n as int),
                ));
            }
            out.push(line);
            i = n;
        }
    }
    assert(v@.skip(i as int) =~= Seq::empty());
    assert(views(out@) + lines(v@.skip(i as int)) =~= views(out@));
    out
}

/// The pieces of `s` between the separators `c`; one more than there are separators.
pub open spec fn pieces(s: Seq<char>, c: char) -> Seq<Seq<char>>
    decreases s.len(),
{
    let n = index_of(s, c) as int;
    if n >= s.len() {
        seq![s]
    } else {
        seq![s.take(n)] + pieces(s.skip(n + 1), c)
    }
}

/// The pieces of `s` between the separators `c`.
pub fn split_on(s: &str, c: char) -> (r: Vec<String>)
    ensures
        views(r@) == pieces(s@, c),
        r@.len() > 0,
{
    broadcast use views_push;

    let v = to_chars(s);
    let mut out: Vec<String> = Vec::new();
    let mut i: usize = 0;
    assert(v@.skip(0) =~= v@);
    assert(views(out@) + pieces(v@, c) =~= pieces(v@, c));
    loop
        invariant
            i <= v@.len(),
            v@ == s@,
            pieces(v@, c) == views(out@) + pieces(v@.skip(i as int), c),
        decreases v@.len() - i,
    {
        let n = find_char(&v, i, c);
        let ghost rest = v@.skip(i as int);
        let piece = from_range(&v, i, n);
        if n < v.len() {
            proof {
                assert(piece@ =~= rest.take(n - i));
                assert(rest.skip(n - i + 1) =~= v@.skip(n + 1));
                assert(views(out@) + (seq![piece@] + pieces(v@.skip(n + 1), c)) =~= views(
                    out@,
                ).push(piece@) + pieces(v@.skip(n + 1), c));
            }
            out.push(piece);
            i = n + 1;
        } else {
            proof {
                assert(piece@ =~= rest);
                assert(views(out@) + seq![piece@] =~= views(out@).push(piece@));
            }
            out.push(piece);
            return out;
        }
    }
}

/// How many characters `s` begins with that are no white space.
pub open spec fn word_len(s: Seq<char>) -> nat
    decreases s.len(),
{
    if s.len() == 0 || is_space(s[0]) {
        0
    } else {
        1 + word_len(s.skip(1))
    }
}

pub proof fn word_len_bounds(s: Seq<char>)
    ensures
        word_len(s) <= s.len(),
    decreases s.len(),
{
    if s.len() > 0 && !is_space(s[0]) {
        word_len_bounds(s.skip(1));
    }
}

pub proof fn trim_start_len(s: Seq<char>)
    ensures
        trim_start(s).len() <= s.len(),
        trim_start(s).len() > 0 ==> !is_space(trim_start(s)[0]),
    decreases s.len(),
{
    if s.len() > 0 && is_space(s[0]) {
        trim_start_len(s.skip(1));
    }
}

/// The words of a text: its longest stretches without white space.
pub open spec fn words(s: Seq<char>) -> Seq<Seq<char>>
    decreases s.len(),
{
    let t = trim_start(s);
    let n = word_len(t) as int;
    proof {
        trim_start_len(s);
        word_len_bounds(t);
    }
    if t.len() == 0 {
        Seq::empty()
    } else {
        seq![t.take(n)] + words(t.skip(n))
    }
}

/// The end of the word that stands in `v` at `from`.
fn word_end(v: &Vec<char>, from: usize) -> (r: usize)
    requires
        from <= v@.len(),
    ensures
        from <= r <= v@.len(),
        r == from + word_len(v@.skip(from as int)),
{
    let mut i: usize = from;
    while i < v.len() && !space(v[i])
        invariant
            from <= i <= v@.len(),
            from + word_len(v@.skip(from as int)) == i + word_len(v@.skip(i as int)),
        decreases v@.len() - i,
    {
        assert(v@.skip(i as int).skip(1) =~= v@.skip(i + 1));
        i = i + 1;
    }
    i
}

/// The words of `s`.
pub fn split_words(s: &str) -> (r: Vec<String>)
    ensures
        views(r@) == words(s@),
{
    broadcast use views_push;

    let v = to_chars(s);
    let mut out: Vec<String> = Vec::new();
    let mut i: usize = 0;
    assert(v@.skip(0) =~= v@);
    assert(views(out@) + words(v@) =~= words(v@));
    loop
        invariant
            i <= v@.len(),
            v@ == s@,
            words(v@) == views(out@) + words(v@.skip(i as int)),
        decreases v@.len() - i,
    {
        let b = skip_space(&v, i);
        if b == v.len() {
            assert(views(out@) + Seq::<Seq<char>>::empty() =~= views(out@));
            return out;
        }
        let e = word_end(&v, b);
        let word = from_range(&v, b, e);
        proof {
            let t = v@.skip(b as int);
            assert(word@ =~= t.take(e - b));
            assert(t.skip(e - b) =~= v@.skip(e as int));
            assert(views(out@) + (seq![word@] + words(v@.skip(e as int))) =~= views(out@).push(
                word@,
            ) + words(v@.skip(e as int)));
        }
        out.push(word);
        i = e;
    }
}

/// A text cut behind each of its white space characters.
pub open spec fn cuts(s: Seq<char>) -> Seq<Seq<char>>
    decreases s.len(),
{
    let n = word_len(s) as int;
    proof {
        word_len_bounds(s);
    }
    if s.len() == 0 {
        Seq::empty()
    } else if n >= s.len() {
        seq![s]
    } else {
        seq![s.take(n + 1)] + cuts(s.skip(n + 1))
    }
}

/// `s` cut behind each of its white space characters.
pub fn cut_behind_space(s: &str) -> (r: Vec<String>)
    ensures
        views(r@) == cuts(s@),
{
    broadcast use views_push;

    let v = to_chars(s);
    let mut out: Vec<String> = Vec::new();
    let mut i: usize = 0;
    assert(v@.skip(0) =~= v@);
    assert(views(out@) + cuts(v@) =~= cuts(v@));
    while i < v.len()
        invariant
            i <= v@.len(),
            cuts(v@) == views(out@) + cuts(v@.skip(i as int)),
        decreases v@.len() - i,
    {
        let e = word_end(&v, i);
        let end: usize = if e < v.len() {
            e + 1
        } else {
            e
        };
        let piece = from_range(&v, i, end);
        proof {
            let rest = v@.skip(i as int);
            if e < v@.len() {
                assert(piece@ =~= rest.take(e - i + 1));
                assert(rest.skip(e - i + 1) =~= v@.skip(end as int));
            } else {
                assert(piece@ =~= rest);
                assert(v@.skip(end as int) =~= Seq::empty());
                assert(cuts(rest) =~= seq![piece@] + cuts(v@.skip(end as int)));
            }
            assert(views(out@) + (seq![piece@] + cuts(v@.skip(end as int))) =~= views(out@).push(
                piece@,
            ) + cuts(v@.skip(end as int)));
        }
        out.push(piece);
        i = end;
    }
    assert(v@.skip(i as int) =~= Seq::empty());
    assert(views(out@) + cuts(v@.skip(i as int)) =~= views(out@));
    out
}

// ---------------------------------------------------------------------------
// Putting together
// ---------------------------------------------------------------------------

/// The texts of a list, one after the other, with `sep` between them.
pub open spec fn join(parts: Seq<Seq<char>>, sep: Seq<char>) -> Seq<char>
    decreases parts.len(),
{
    if parts.len() == 0 {
        Seq::empty()
    } else if parts.len() == 1 {
        parts[0]
    } else {
        join(parts.drop_last(), sep) + sep + parts.last()
    }
}

/// The strings of a list, one after the other, with `sep` between them.
pub fn joined(parts: &Vec<String>, sep: &str) -> (r: String)
    ensures
        r@ == join(views(parts@), sep@),
{
    let mut out = String::new();
    for i in 0..parts.len()
        invariant
            out@ == join(views(parts@.take(i as int)), sep@),
    {
        if i > 0 {
            out.append(sep);
        }
        out.append(parts[i].as_str());
        proof {
            let w = views(parts@.take(i + 1));
            assert(w.drop_last() =~= views(parts@.take(i as int)));
            assert(w.last() == parts@[i as int]@);
        }
    }
    assert(parts@.take(parts@.len() as int) =~= parts@);
    out
}

/// `s` with each place of `pat`, found from the front, replaced by `to`.
pub open spec fn replace(s: Seq<char>, pat: Seq<char>, to: Seq<char>) -> Seq<char>
    decreases s.len(),
{
    if s.len() == 0 || pat.len() == 0 {
        s
    } else if begins(s, pat) {
        to + replace(s.skip(pat.len() as int), pat, to)
    } else {
        seq![s[0]] + replace(s.skip(1), pat, to)
    }
}

/// `s` with each place of `pat` replaced by `to`.
pub fn replaced(s: &str, pat: &str, to: &str) -> (r: String)
    requires
        pat@.len() > 0,
    ensures
        r@ == replace(s@, pat@, to@),
{
    let v = to_chars(s);
    let p = to_chars(pat);
    let mut out = String::new();
    let mut i: usize = 0;
    assert(v@.skip(0) =~= v@);
    while i < v.len()
        invariant
            i <= v@.len(),
            p@ == pat@,
            p@.len() > 0,
            replace(v@, pat@, to@) == out@ + replace(v@.skip(i as int), pat@, to@),
        decreases v@.len() - i,
    {
        let ghost rest = v@.skip(i as int);
        let hit = chars_match_at(&v, &p, i);
        proof {
            if i + p@.len() <= v@.len() {
                assert(rest.subrange(0, p@.len() as int) =~= v@.subrange(i as int, i + p@.len()));
            }
            assert(hit == begins(rest, pat@));
        }
        if hit {
            assert(rest.skip(p@.len() as int) =~= v@.skip(i + p@.len()));
            out.append(to);
            i = i + p.len();
        } else {
            assert(rest.skip(1) =~= v@.skip(i + 1));
            out.push(v[i]);
            i = i + 1;
        }
    }
    assert(v@.skip(i as int) =~= Seq::empty());
    out
}

/// `s` with the first place of `pat` replaced by `to`.
pub open spec fn is_replaced_once(
    s: Seq<char>,
    pat: Seq<char>,
    to: Seq<char>,
    r: Seq<char>,
) -> bool {
    if occurs(s, pat) {
        exists|i: int|
            #[trigger] match_at(s, pat, i) && (forall|j: int|
                0 <= j < i ==> !match_at(s, pat, j)) && r == s.take(i) + to + s.skip(i + pat.len())
    } else {
        r == s
    }
}

/// `s` with the first place of `pat` replaced by `to`.
pub fn replaced_once(s: &str, pat: &str, to: &str) -> (r: String)
    ensures
        is_replaced_once(s@, pat@, to@, r@),
{
    let v = to_chars(s);
    match find_chars(&v, pat) {
        Some(i) => {
            let n: usize = char_len(pat);
            let mut out = from_range(&v, 0, i);
            out.append(to);
            let end: usize = v.len();
            let rest = from_range(&v, i + n, end);
            out.append(rest.as_str());
            assert(out@ =~= s@.take(i as int) + to@ + s@.skip(i + pat@.len()));
            out
        },
        None => from_chars(&v),
    }
}

/// The digit for a number below ten.
pub open spec fn digit(n: nat) -> char {
    (48 + n) as char
}

/// A number in decimal notation.
pub open spec fn decimal(n: nat) -> Seq<char>
    decreases n,
{
    if n < 10 {
        seq![digit(n)]
    } else {
        decimal(n / 10).push(digit(n % 10))
    }
}

/// `n` in decimal notation.
pub fn number(n: u64) -> (r: String)
    ensures
        r@ == decimal(n as nat),
    decreases n,
{
    let d = (48 + (n % 10) as u8) as char;
    let mut out = if n < 10 {
        String::new()
    } else {
        number(n / 10)
    };
    out.push(d);
    assert(n < 10 ==> out@ =~= seq![digit(n as nat)]);
    out
}

/// `n` in decimal notation.
pub fn large_number(n: u128) -> (r: String)
    ensures
        r@ == decimal(n as nat),
    decreases n,
{
    let d = (48 + (n % 10) as u8) as char;
    let mut out = if n < 10 {
        String::new()
    } else {
        large_number(n / 10)
    };
    out.push(d);
    assert(n < 10 ==> out@ =~= seq![digit(n as nat)]);
    out
}

/// The digits that a notation of a number from zero up has after its sign.
pub open spec fn digits_of(s: Seq<char>) -> Seq<char> {
    if s.len() > 0 && s[0] == '+' {
        s.skip(1)
    } else {
        s
    }
}

/// All characters of `s` are decimal digits.
pub open spec fn all_digits(s: Seq<char>) -> bool {
    forall|i: int| 0 <= i < s.len() ==> '0' <= #[trigger] s[i] <= '9'
}

/// The number that a sequence of decimal digits denotes.
pub open spec fn digits_value(s: Seq<char>) -> nat
    decreases s.len(),
{
    if s.len() == 0 {
        0
    } else {
        digits_value(s.drop_last()) * 10 + (s.last() as nat - 48) as nat
    }
}

/// The number that `s` denotes: an optional plus sign and at least one
/// decimal digit, with a value of at most `max`.
pub open spec fn unsigned_value(s: Seq<char>, max: nat) -> Option<nat> {
    let d = digits_of(s);
    if d.len() > 0 && all_digits(d) && digits_value(d) <= max {
        Some(digits_value(d))
    } else {
        None
    }
}

proof fn digits_value_grows(s: Seq<char>, n: int)
    requires
        0 <= n <= s.len(),
    ensures
        digits_value(s.take(n)) <= digits_value(s),
    decreases s.len(),
{
    if n == s.len() {
        assert(s.take(n) =~= s);
    } else {
        assert(s.drop_last().take(n) =~= s.take(n));
        digits_value_grows(s.drop_last(), n);
    }
}

/// The number that `s` denotes, if it denotes one of at most `max`.
pub fn parse_unsigned(s: &str, max: u64) -> (r: Option<u64>)
    ensures
        match r {
            Some(n) => unsigned_value(s@, max as nat) == Some(n as nat),
            None => unsigned_value(s@, max as nat) is None,
        },
{
    let v = to_chars(s);
    let from: usize = if v.len() > 0 && v[0] == '+' {
        1
    } else {
        0
    };
    let ghost d = digits_of(s@);
    assert(d =~= v@.skip(from as int));
    if from == v.len() {
        return None;
    }
    let mut n: u64 = 0;
    assert(d.take(0) =~= Seq::empty());
    for i in from..v.len()
        invariant
            d == v@.skip(from as int),
            d == digits_of(s@),
            from <= i,
            all_digits(d.take(i - from)),
            n <= max,
            n == digits_value(d.take(i - from)),
    {
        let c = v[i];
        assert(d[i - from] == c);
        if c < '0' || c > '9' {
            return None;
        }
        let k: u64 = (c as u32 - 48) as u64;
        let t: u128 = (n as u128) * 10 + k as u128;
        proof {
            assert(d.take(i + 1 - from).drop_last() =~= d.take(i - from));
            digits_value_grows(d, i + 1 - from);
            assert(digits_value(d.take(i + 1 - from)) == t);
        }
        if t > max as u128 {
            return None;
        }
        n = t as u64;
    }
    assert(d.take(d.len() as int) =~= d);
    Some(n)
}

/// An integer in decimal notation, with a sign in front of a negative one.
pub open spec fn signed(n: int) -> Seq<char> {
    if n < 0 {
        seq!['-'] + decimal((-n) as nat)
    } else {
        decimal(n as nat)
    }
}

/// `n` in decimal notation.
pub fn signed_number(n: i64) -> (r: String)
    ensures
        r@ == signed(n as int),
{
    if n < 0 {
        let m: u64 = (-(n as i128)) as u64;
        let mut out = String::new();
        out.push('-');
        out.append(number(m).as_str());
        assert(out@ =~= signed(n as int));
        out
    } else {
        number(n as u64)
    }
}

/// `n` times the character `c`.
pub open spec fn repeat(c: char, n: nat) -> Seq<char> {
    Seq::new(n, |i: int| c)
}

/// `s` with characters `c` in front of it, up to `width` characters.
pub open spec fn pad_left(s: Seq<char>, width: nat, c: char) -> Seq<char> {
    if s.len() >= width {
        s
    } else {
        repeat(c, (width - s.len()) as nat) + s
    }
}

/// `s` with characters `c` in front of it, up to `width` characters.
pub fn padded_left(s: &str, width: usize, c: char) -> (r: String)
    ensures
        r@ == pad_left(s@, width as nat, c),
{
    let n: usize = char_len(s);
    let mut out = String::new();
    let mut k: usize = n;
    while k < width
        invariant
            n == s@.len(),
            n <= k,
            k <= width || k == n,
            out@ == repeat(c, (k - n) as nat),
        decreases width - k,
    {
        out.push(c);
        k = k + 1;
        assert(out@ =~= repeat(c, (k - n) as nat));
    }
    out.append(s);
    assert(out@ =~= pad_left(s@, width as nat, c));
    out
}

/// The hexadecimal digit for a number below sixteen.
pub open spec fn hex_digit(n: int) -> char {
    if n < 10 {
        (48 + n) as char
    } else {
        (87 + n) as char
    }
}

/// A sequence of bytes in hexadecimal notation, two small digits for each.
pub open spec fn hex(bytes: Seq<u8>) -> Seq<char>
    decreases bytes.len(),
{
    if bytes.len() == 0 {
        Seq::empty()
    } else {
        hex(bytes.drop_last()).push(hex_digit(bytes.last() as int / 16)).push(
            hex_digit(bytes.last() as int % 16),
        )
    }
}

fn to_hex_digit(n: u8) -> (r: char)
    requires
        n < 16,
    ensures
        r == hex_digit(n as int),
{
    if n < 10 {
        (48 + n) as char
    } else {
        (87 + n) as char
    }
}

/// The first `n` bytes of a list in hexadecimal notation.
pub fn to_hex(bytes: &Vec<u8>, n: usize) -> (r: String)
    requires
        n <= bytes@.len(),
    ensures
        r@ == hex(bytes@.take(n as int)),
{
    let mut out = String::new();
    for i in 0..n
        invariant
            n <= bytes@.len(),
            out@ == hex(bytes@.take(i as int)),
    {
        let b = bytes[i];
        out.push(to_hex_digit(b / 16));
        out.push(to_hex_digit(b % 16));
        assert(bytes@.take(i + 1).drop_last() =~= bytes@.take(i as int));
    }
    out
}

// ---------------------------------------------------------------------------
// What survives
// ---------------------------------------------------------------------------

pub proof fn ink_of_sum(a: Seq<char>, b: Seq<char>)
    ensures
        inked(a + b) <==> inked(a) || inked(b),
{
    let s = a + b;
    if inked(a) {
        let i = choose|i: int| 0 <= i < a.len() && !is_space(#[trigger] a[i]);
        assert(s[i] == a[i]);
    }
    if inked(b) {
        let i = choose|i: int| 0 <= i < b.len() && !is_space(#[trigger] b[i]);
        assert(s[a.len() + i] == b[i]);
    }
    if inked(s) {
        let i = choose|i: int| 0 <= i < s.len() && !is_space(#[trigger] s[i]);
        if i < a.len() {
            assert(a[i] == s[i]);
        } else {
            assert(b[i - a.len()] == s[i]);
        }
    }
}

/// Replacing white space by white space keeps a text blank, or not blank.
pub proof fn replace_keeps_ink(s: Seq<char>, pat: Seq<char>, to: Seq<char>)
    requires
        !inked(pat),
        !inked(to),
    ensures
        inked(replace(s, pat, to)) <==> inked(s),
    decreases s.len(),
{
    if s.len() > 0 && pat.len() > 0 {
        if begins(s, pat) {
            let rest = s.skip(pat.len() as int);
            replace_keeps_ink(rest, pat, to);
            ink_of_sum(to, replace(rest, pat, to));
            assert(s =~= pat + rest);
            ink_of_sum(pat, rest);
        } else {
            let first = seq![s[0]];
            let rest = s.skip(1);
            replace_keeps_ink(rest, pat, to);
            ink_of_sum(first, replace(rest, pat, to));
            assert(s =~= first + rest);
            ink_of_sum(first, rest);
        }
    }
}

/// A text that is not blank has a line that is not blank.
pub proof fn lines_keep_ink(s: Seq<char>)
    requires
        inked(s),
    ensures
        exists|k: int| 0 <= k < lines(s).len() && inked(#[trigger] lines(s)[k]),
    decreases s.len(),
{
    let n = index_of(s, '\n') as int;
    index_of_bounds(s, '\n');
    if n >= s.len() {
        assert(lines(s)[0] == s);
    } else {
        let line = s.take(n);
        let rest = s.skip(n + 1);
        assert(s =~= line + (seq![s[n]] + rest));
        ink_of_sum(line, seq![s[n]] + rest);
        ink_of_sum(seq![s[n]], rest);
        assert(!inked(seq![s[n]]));
        if inked(line) {
            if line.last() == '\r' {
                assert(line =~= strip_cr(line) + seq![line.last()]);
                ink_of_sum(strip_cr(line), seq![line.last()]);
                assert(!inked(seq![line.last()]));
            }
            assert(lines(s)[0] == strip_cr(line));
        } else {
            lines_keep_ink(rest);
            let k = choose|k: int| 0 <= k < lines(rest).len() && inked(#[trigger] lines(rest)[k]);
            assert(lines(s)[k + 1] == lines(rest)[k]);
        }
    }
}

/// A joined list is not blank where one of its parts is not.
pub proof fn join_keeps_ink(parts: Seq<Seq<char>>, sep: Seq<char>)
    requires
        exists|k: int| 0 <= k < parts.len() && inked(#[trigger] parts[k]),
    ensures
        inked(join(parts, sep)),
    decreases parts.len(),
{
    let k = choose|k: int| 0 <= k < parts.len() && inked(#[trigger] parts[k]);
    if parts.len() > 1 {
        let front = parts.drop_last();
        ink_of_sum(join(front, sep) + sep, parts.last());
        ink_of_sum(join(front, sep), sep);
        if k < parts.len() - 1 {
            assert(front[k] == parts[k]);
            join_keeps_ink(front, sep);
        }
    }
}

/// A text that is not blank has words, and the first of them is not blank.
pub proof fn words_keep_ink(s: Seq<char>)
    ensures
        words(s).len() > 0 <==> inked(s),
        words(s).len() > 0 ==> inked(words(s)[0]),
{
    trim_start_ink(s);
    trim_start_len(s);
    let t = trim_start(s);
    word_len_bounds(t);
    if t.len() > 0 {
        assert(word_len(t) > 0);
        assert(words(s)[0][0] == t[0]);
    } else {
        assert(!inked(t));
    }
}

/// The room that a list of words takes up with one space behind each.
pub open spec fn spaced_len(parts: Seq<Seq<char>>) -> nat
    decreases parts.len(),
{
    if parts.len() == 0 {
        0
    } else {
        parts[0].len() + 1 + spaced_len(parts.skip(1))
    }
}

proof fn spaced_len_back(parts: Seq<Seq<char>>)
    requires
        parts.len() > 0,
    ensures
        spaced_len(parts) == spaced_len(parts.drop_last()) + parts.last().len() + 1,
    decreases parts.len(),
{
    if parts.len() > 1 {
        spaced_len_back(parts.skip(1));
        assert(parts.skip(1).drop_last() =~= parts.drop_last().skip(1));
    } else {
        assert(parts.skip(1) =~= Seq::empty());
        assert(parts.drop_last() =~= Seq::empty());
    }
}

proof fn spaced_len_take(parts: Seq<Seq<char>>, n: int)
    requires
        0 <= n <= parts.len(),
    ensures
        spaced_len(parts.take(n)) <= spaced_len(parts),
    decreases parts.len(),
{
    if n == parts.len() {
        assert(parts.take(n) =~= parts);
    } else {
        spaced_len_back(parts);
        assert(parts.drop_last().take(n) =~= parts.take(n));
        spaced_len_take(parts.drop_last(), n);
    }
}

proof fn join_len(parts: Seq<Seq<char>>, sep: Seq<char>)
    requires
        sep.len() == 1,
    ensures
        join(parts, sep).len() <= spaced_len(parts),
        parts.len() > 0 ==> join(parts, sep).len() + 1 <= spaced_len(parts),
    decreases parts.len(),
{
    if parts.len() > 0 {
        spaced_len_back(parts);
        if parts.len() > 1 {
            join_len(parts.drop_last(), sep);
        }
    }
}

proof fn words_fit(s: Seq<char>)
    ensures
        spaced_len(words(s)) <= s.len() + 1,
    decreases s.len(),
{
    let t = trim_start(s);
    trim_start_len(s);
    word_len_bounds(t);
    if t.len() > 0 {
        let n = word_len(t) as int;
        let rest = t.skip(n);
        assert(n > 0);
        assert(words(s) == seq![t.take(n)] + words(rest));
        assert(words(s)[0] == t.take(n));
        assert(words(s).skip(1) =~= words(rest));
        assert(spaced_len(words(s)) == n + 1 + spaced_len(words(rest)));
        word_len_stops(t);
        if rest.len() > 0 {
            assert(is_space(rest[0]));
            assert(trim_start(rest) == trim_start(rest.skip(1)));
            assert(words(rest) == words(rest.skip(1)));
            words_fit(rest.skip(1));
        } else {
            assert(trim_start(rest) == rest);
            assert(words(rest) =~= Seq::empty());
        }
    }
}

proof fn word_len_stops(s: Seq<char>)
    ensures
        word_len(s) <= s.len(),
        word_len(s) < s.len() ==> is_space(s[word_len(s) as int]),
    decreases s.len(),
{
    if s.len() > 0 && !is_space(s[0]) {
        word_len_stops(s.skip(1));
    }
}

/// The first words of a text with single characters between them are no
/// longer than the text.
pub proof fn first_words_fit(s: Seq<char>, n: int, sep: Seq<char>)
    requires
        0 <= n <= words(s).len(),
        sep.len() == 1,
    ensures
        join(words(s).take(n), sep).len() <= s.len(),
{
    words_fit(s);
    spaced_len_take(words(s), n);
    join_len(words(s).take(n), sep);
}

} // verus!
