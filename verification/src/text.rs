//! Character-sequence algorithms used by the message parsers: searching,
//! splitting, replacing and trimming, each stated over `Seq<char>` and
//! implemented over `Vec<char>`.
use vstd::prelude::*;

verus! {

// ------------------------------------------------------------------
// Specifications
// ------------------------------------------------------------------

/// `p` occurs in `s` starting at position `i`.
pub open spec fn matches_at(s: Seq<char>, p: Seq<char>, i: int) -> bool {
    0 <= i && i + p.len() <= s.len() && s.subrange(i, i + p.len()) == p
}

/// The first position at or after `start` at which `p` occurs in `s`.
pub open spec fn find_from(s: Seq<char>, p: Seq<char>, start: int) -> Option<int>
    decreases s.len() - start,
{
    if start < 0 || start + p.len() > s.len() {
        None
    } else if p.len() == 0 || matches_at(s, p, start) {
        Some(start)
    } else {
        find_from(s, p, start + 1)
    }
}

/// The first position at which `p` occurs in `s`.
pub open spec fn find(s: Seq<char>, p: Seq<char>) -> Option<int> {
    find_from(s, p, 0)
}

/// `s` contains `p` as a contiguous subsequence.
pub open spec fn contains(s: Seq<char>, p: Seq<char>) -> bool {
    find(s, p) is Some
}

/// What precedes and what follows the first occurrence of `p` in `s`.
pub open spec fn split_once(s: Seq<char>, p: Seq<char>) -> Option<(Seq<char>, Seq<char>)> {
    match find(s, p) {
        Some(i) => Some((s.subrange(0, i), s.subrange(i + p.len(), s.len() as int))),
        None => None,
    }
}

/// The last position before `end` that holds `c`.
pub open spec fn rfind_char_before(s: Seq<char>, c: char, end: int) -> Option<int>
    decreases end,
{
    if end <= 0 || end > s.len() {
        None
    } else if s[end - 1] == c {
        Some(end - 1)
    } else {
        rfind_char_before(s, c, end - 1)
    }
}

/// What precedes and what follows the last occurrence of `c` in `s`.
pub open spec fn rsplit_once_char(s: Seq<char>, c: char) -> Option<(Seq<char>, Seq<char>)> {
    match rfind_char_before(s, c, s.len() as int) {
        Some(i) => Some((s.subrange(0, i), s.subrange(i + 1, s.len() as int))),
        None => None,
    }
}

/// The pieces of `s[start..]` between the occurrences of a non-empty `p`,
/// left to right, occurrences not overlapping.
pub open spec fn split_from(s: Seq<char>, p: Seq<char>, start: int) -> Seq<Seq<char>>
    decreases s.len() - start,
{
    if p.len() == 0 || start < 0 || start > s.len() {
        seq![s.subrange(start, s.len() as int)]
    } else {
        match find_from(s, p, start) {
            None => seq![s.subrange(start, s.len() as int)],
            Some(i) => {
                proof {
                    lemma_find_from_bounds(s, p, start);
                }
                seq![s.subrange(start, i)] + split_from(s, p, i + p.len())
            },
        }
    }
}

/// The pieces of `s` between the occurrences of a non-empty `p`.
pub open spec fn split(s: Seq<char>, p: Seq<char>) -> Seq<Seq<char>> {
    split_from(s, p, 0)
}

/// `s[start..]` with every occurrence of a non-empty `p` replaced by `r`.
pub open spec fn replace_from(s: Seq<char>, p: Seq<char>, r: Seq<char>, start: int) -> Seq<char>
    decreases s.len() - start,
{
    if p.len() == 0 || start < 0 || start > s.len() {
        s.subrange(start, s.len() as int)
    } else {
        match find_from(s, p, start) {
            None => s.subrange(start, s.len() as int),
            Some(i) => {
                proof {
                    lemma_find_from_bounds(s, p, start);
                }
                s.subrange(start, i) + r + replace_from(s, p, r, i + p.len())
            },
        }
    }
}

/// `r` placed before every character of `s[k..]` and once more at the end:
/// what replacing the empty pattern gives.
pub open spec fn interleave_from(s: Seq<char>, r: Seq<char>, k: int) -> Seq<char>
    decreases s.len() - k,
{
    if k < 0 || k >= s.len() {
        r
    } else {
        r + seq![s[k]] + interleave_from(s, r, k + 1)
    }
}

/// `s` with every match of `p` replaced by `r`; the empty pattern matches
/// at every character boundary.
pub open spec fn replace(s: Seq<char>, p: Seq<char>, r: Seq<char>) -> Seq<char> {
    if p.len() == 0 {
        interleave_from(s, r, 0)
    } else {
        replace_from(s, p, r, 0)
    }
}

/// `s` without any occurrence of `c`.
pub open spec fn remove_char(s: Seq<char>, c: char) -> Seq<char>
    decreases s.len(),
{
    if s.len() == 0 {
        s
    } else if s.last() == c {
        remove_char(s.drop_last(), c)
    } else {
        remove_char(s.drop_last(), c).push(s.last())
    }
}

/// Characters with the Unicode `White_Space` property.
pub open spec fn is_whitespace(c: char) -> bool {
    let u = c as u32;
    ||| 0x9 <= u <= 0xD
    ||| u == 0x20
    ||| u == 0x85
    ||| u == 0xA0
    ||| u == 0x1680
    ||| 0x2000 <= u <= 0x200A
    ||| u == 0x2028
    ||| u == 0x2029
    ||| u == 0x202F
    ||| u == 0x205F
    ||| u == 0x3000
}

/// `s` without its trailing whitespace.
pub open spec fn trim_end(s: Seq<char>) -> Seq<char>
    decreases s.len(),
{
    if s.len() > 0 && is_whitespace(s.last()) {
        trim_end(s.drop_last())
    } else {
        s
    }
}

/// The decimal digit for `d < 10`.
pub open spec fn digit(d: nat) -> char {
    if d == 0 {
        '0'
    } else if d == 1 {
        '1'
    } else if d == 2 {
        '2'
    } else if d == 3 {
        '3'
    } else if d == 4 {
        '4'
    } else if d == 5 {
        '5'
    } else if d == 6 {
        '6'
    } else if d == 7 {
        '7'
    } else if d == 8 {
        '8'
    } else {
        '9'
    }
}

/// The decimal representation of `n`, without leading zeros.
pub open spec fn decimal(n: nat) -> Seq<char>
    decreases n,
{
    if n < 10 {
        seq![digit(n)]
    } else {
        decimal(n / 10).push(digit(n % 10))
    }
}

// ------------------------------------------------------------------
// Lemmas
// ------------------------------------------------------------------

/// What `find_from` returns is a match at or after `start`, and no match
/// lies between `start` and it.
pub proof fn lemma_find_from_bounds(s: Seq<char>, p: Seq<char>, start: int)
    requires
        0 <= start,
    ensures
        match find_from(s, p, start) {
            Some(i) => start <= i && i + p.len() <= s.len() && matches_at(s, p, i) && (forall|j: int|
                start <= j < i ==> !#[trigger] matches_at(s, p, j)),
            None => forall|j: int| start <= j ==> !#[trigger] matches_at(s, p, j),
        },
    decreases s.len() - start,
{
    if start + p.len() > s.len() {
    } else if p.len() == 0 || matches_at(s, p, start) {
        if p.len() == 0 {
            assert(s.subrange(start, start + p.len()) =~= p);
        }
    } else {
        lemma_find_from_bounds(s, p, start + 1);
    }
}


/// What `rfind_char_before` returns holds `c` and lies before `end`, and
/// nothing between it and `end` holds `c`.
pub proof fn lemma_rfind_char_bounds(s: Seq<char>, c: char, end: int)
    ensures
        match rfind_char_before(s, c, end) {
            Some(i) => 0 <= i < end && end <= s.len() && s[i] == c && forall|j: int|
                i < j < end ==> #[trigger] s[j] != c,
            None => end <= 0 || end > s.len() || forall|j: int| 0 <= j < end ==> #[trigger] s[j] != c,
        },
    decreases end,
{
    if end <= 0 || end > s.len() {
    } else if s[end - 1] == c {
    } else {
        lemma_rfind_char_bounds(s, c, end - 1);
    }
}

// ------------------------------------------------------------------
// Executable operations
// ------------------------------------------------------------------

/// How many bytes the UTF-8 encoding of `c` takes.
pub open spec fn utf8_width(c: char) -> nat {
    if (c as u32) <= 0x7F {
        1
    } else if (c as u32) <= 0x7FF {
        2
    } else if (c as u32) <= 0xFFFF {
        3
    } else {
        4
    }
}

/// The encoding of a concatenation is the concatenation of the encodings.
pub proof fn lemma_encode_utf8_concat(a: Seq<char>, b: Seq<char>)
    ensures
        vstd::utf8::encode_utf8(a + b) == vstd::utf8::encode_utf8(a) + vstd::utf8::encode_utf8(b),
    decreases a.len(),
{
    if a.len() == 0 {
        assert(a + b =~= b);
        assert(vstd::utf8::encode_utf8(a) =~= Seq::<u8>::empty());
        assert(Seq::<u8>::empty() + vstd::utf8::encode_utf8(b) =~= vstd::utf8::encode_utf8(b));
    } else {
        assert((a + b).drop_first() =~= a.drop_first() + b);
        assert((a + b)[0] == a[0]);
        lemma_encode_utf8_concat(a.drop_first(), b);
        let e = vstd::utf8::encode_scalar(a[0] as u32);
        assert(e + (vstd::utf8::encode_utf8(a.drop_first()) + vstd::utf8::encode_utf8(b)) =~= (e
            + vstd::utf8::encode_utf8(a.drop_first())) + vstd::utf8::encode_utf8(b));
    }
}

/// The encoding of one character takes [`utf8_width`] bytes.
pub proof fn lemma_encode_char_width(c: char)
    ensures
        vstd::utf8::encode_utf8(seq![c]).len() == utf8_width(c),
{
    broadcast use vstd::utf8::char_is_scalar;
    assert(seq![c].drop_first() =~= Seq::<char>::empty());
    assert(vstd::utf8::encode_utf8(Seq::<char>::empty()) =~= Seq::<u8>::empty());
    assert(vstd::utf8::is_scalar(c as u32));
}

/// The UTF-8 length of the first `k + 1` characters is that of the first
/// `k` plus the width of character `k`.
pub proof fn lemma_encode_utf8_prefix_step(s: Seq<char>, k: int)
    requires
        0 <= k < s.len(),
    ensures
        vstd::utf8::encode_utf8(s.take(k + 1)).len() == vstd::utf8::encode_utf8(s.take(k)).len()
            + utf8_width(s[k]),
{
    assert(s.take(k + 1) =~= s.take(k) + seq![s[k]]);
    lemma_encode_utf8_concat(s.take(k), seq![s[k]]);
    lemma_encode_char_width(s[k]);
}

/// The UTF-8 length of a prefix is at most that of the whole.
pub proof fn lemma_encode_utf8_prefix_len(s: Seq<char>, k: int)
    requires
        0 <= k <= s.len(),
    ensures
        vstd::utf8::encode_utf8(s.take(k)).len() <= vstd::utf8::encode_utf8(s).len(),
{
    assert(s =~= s.take(k) + s.skip(k));
    lemma_encode_utf8_concat(s.take(k), s.skip(k));
}

/// How many bytes the UTF-8 encoding of `c` takes.
pub fn utf8_width_exec(c: char) -> (w: usize)
    ensures
        w == utf8_width(c),
{
    let v = c as u32;
    if v <= 0x7F {
        1
    } else if v <= 0x7FF {
        2
    } else if v <= 0xFFFF {
        3
    } else {
        4
    }
}

/// The characters of a string slice, in order.
pub fn chars_of(s: &str) -> (v: Vec<char>)
    ensures
        v@ == s@,
{
    let mut v: Vec<char> = Vec::new();
    for c in it: s.chars()
        invariant
            v@ == it.seq().take(it.index() as int),
            it.seq() == s@,
    {
        v.push(c);
    }
    v
}

/// Builds a `String` holding exactly the given characters.
///
/// Calls std's `FromIterator<&char>` for `String`, which appends the
/// characters in order; nothing else is claimed of it.
#[verifier::external_body]
pub(crate) fn string_of(v: &Vec<char>) -> (s: String)
    ensures
        s@ == v@,
{
    String::from_iter(v.iter())
}

/// Appends `s[a..b]` to `out`.
pub fn push_range(out: &mut Vec<char>, s: &Vec<char>, a: usize, b: usize)
    requires
        a <= b <= s.len(),
    ensures
        final(out)@ == old(out)@ + s@.subrange(a as int, b as int),
{
    let ghost start = out@;
    let mut k = a;
    while k < b
        invariant
            a <= k <= b,
            b <= s.len(),
            out@ == start + s@.subrange(a as int, k as int),
        decreases b - k,
    {
        out.push(s[k]);
        proof {
            assert(s@.subrange(a as int, k + 1) =~= s@.subrange(a as int, k as int).push(s@[k as int]));
        }
        k += 1;
    }
}

/// Appends all of `src` to `out`.
pub fn push_all(out: &mut Vec<char>, src: &Vec<char>)
    ensures
        final(out)@ == old(out)@ + src@,
{
    push_range(out, src, 0, src.len());
    proof {
        assert(src@.subrange(0, src@.len() as int) =~= src@);
    }
}

/// `s[a..b]` as a new vector.
pub fn slice_of(s: &Vec<char>, a: usize, b: usize) -> (v: Vec<char>)
    requires
        a <= b <= s.len(),
    ensures
        v@ == s@.subrange(a as int, b as int),
{
    let mut v: Vec<char> = Vec::new();
    push_range(&mut v, s, a, b);
    proof {
        assert(Seq::<char>::empty() + s@.subrange(a as int, b as int) =~= s@.subrange(a as int, b as int));
    }
    v
}

/// Whether `p` occurs in `s` at position `i`.
pub fn matches_at_exec(s: &Vec<char>, p: &Vec<char>, i: usize) -> (b: bool)
    ensures
        b == matches_at(s@, p@, i as int),
{
    if i > s.len() || p.len() > s.len() - i {
        return false;
    }
    let mut k: usize = 0;
    while k < p.len()
        invariant
            k <= p.len(),
            i + p.len() <= s.len(),
            forall|j: int| 0 <= j < k ==> s@[i + j] == p@[j],
        decreases p.len() - k,
    {
        if s[i + k] != p[k] {
            proof {
                assert(s@.subrange(i as int, i + p.len())[k as int] != p@[k as int]);
            }
            return false;
        }
        k += 1;
    }
    proof {
        assert(s@.subrange(i as int, i + p.len()) =~= p@);
    }
    true
}

/// The first position at or after `start` at which `p` occurs in `s`.
pub fn find_from_exec(s: &Vec<char>, p: &Vec<char>, start: usize) -> (r: Option<usize>)
    ensures
        match r {
            Some(i) => find_from(s@, p@, start as int) == Some(i as int),
            None => find_from(s@, p@, start as int) is None,
        },
{
    if start > s.len() {
        return None;
    }
    let mut i = start;
    loop
        invariant
            start <= i <= s.len(),
            find_from(s@, p@, i as int) == find_from(s@, p@, start as int),
        decreases s.len() - i,
    {
        if p.len() > s.len() - i {
            return None;
        }
        if p.len() == 0 {
            return Some(i);
        }
        if matches_at_exec(s, p, i) {
            return Some(i);
        }
        i += 1;
    }
}

/// What precedes and what follows the first occurrence of `p` in `s`.
pub fn split_once_exec(s: &Vec<char>, p: &Vec<char>) -> (r: Option<(Vec<char>, Vec<char>)>)
    ensures
        match r {
            Some((a, b)) => split_once(s@, p@) == Some((a@, b@)),
            None => split_once(s@, p@) is None,
        },
{
    match find_from_exec(s, p, 0) {
        None => None,
        Some(i) => {
            proof {
                lemma_find_from_bounds(s@, p@, 0);
                assert(find_from(s@, p@, 0) == Some(i as int));
            }
            assert(i + p.len() <= s.len());
            let a = slice_of(s, 0, i);
            let b = slice_of(s, i + p.len(), s.len());
            Some((a, b))
        },
    }
}

/// Whether `p` occurs in `s`.
pub fn contains_exec(s: &Vec<char>, p: &Vec<char>) -> (b: bool)
    ensures
        b == contains(s@, p@),
{
    find_from_exec(s, p, 0).is_some()
}

/// The first position of `c` in `s`.
pub fn find_char_exec(s: &Vec<char>, c: char) -> (r: Option<usize>)
    ensures
        match r {
            Some(i) => find(s@, seq![c]) == Some(i as int),
            None => find(s@, seq![c]) is None,
        },
{
    let p = vec![c];
    proof {
        assert(p@ =~= seq![c]);
    }
    find_from_exec(s, &p, 0)
}

/// What precedes and what follows the last occurrence of `c` in `s`.
pub fn rsplit_once_char_exec(s: &Vec<char>, c: char) -> (r: Option<(Vec<char>, Vec<char>)>)
    ensures
        match r {
            Some((a, b)) => rsplit_once_char(s@, c) == Some((a@, b@)),
            None => rsplit_once_char(s@, c) is None,
        },
{
    let mut end = s.len();
    while end > 0
        invariant
            end <= s.len(),
            rfind_char_before(s@, c, end as int) == rfind_char_before(s@, c, s.len() as int),
        decreases end,
    {
        if s[end - 1] == c {
            let a = slice_of(s, 0, end - 1);
            let b = slice_of(s, end, s.len());
            return Some((a, b));
        }
        end -= 1;
    }
    None
}

/// The pieces of `s` between the occurrences of a non-empty `p`.
pub fn split_exec(s: &Vec<char>, p: &Vec<char>) -> (v: Vec<Vec<char>>)
    requires
        p.len() > 0,
    ensures
        v.len() == split(s@, p@).len(),
        forall|k: int| 0 <= k < v.len() ==> #[trigger] v[k]@ == split(s@, p@)[k],
{
    let mut v: Vec<Vec<char>> = Vec::new();
    let mut pos: usize = 0;
    let ghost total = split(s@, p@);
    loop
        invariant
            pos <= s.len(),
            p.len() > 0,
            total == split(s@, p@),
            total.len() == v.len() + split_from(s@, p@, pos as int).len(),
            forall|k: int| 0 <= k < v.len() ==> #[trigger] v[k]@ == total[k],
            forall|k: int|
                0 <= k < split_from(s@, p@, pos as int).len() ==> #[trigger] split_from(
                    s@,
                    p@,
                    pos as int,
                )[k] == total[v.len() + k],
        decreases s.len() - pos,
    {
        match find_from_exec(s, p, pos) {
            None => {
                let piece = slice_of(s, pos, s.len());
                proof {
                    assert(split_from(s@, p@, pos as int)[0] == total[v.len() as int]);
                }
                v.push(piece);
                return v;
            },
            Some(i) => {
                proof {
                    lemma_find_from_bounds(s@, p@, pos as int);
                    let rest = split_from(s@, p@, i + p.len());
                    assert(split_from(s@, p@, pos as int) == seq![s@.subrange(pos as int, i as int)]
                        + rest);
                    assert(split_from(s@, p@, pos as int)[0] == total[v.len() as int]);
                    assert forall|k: int| 0 <= k < rest.len() implies #[trigger] rest[k] == total[v.len() + 1 + k] by {
                        assert(split_from(s@, p@, pos as int)[k + 1] == rest[k]);
                    }
                }
                let piece = slice_of(s, pos, i);
                v.push(piece);
                pos = i + p.len();
            },
        }
    }
}

/// `s` with every occurrence of `p` replaced by `r`; an empty `p` matches
/// at every character boundary.
pub fn replace_exec(s: &Vec<char>, p: &Vec<char>, r: &Vec<char>) -> (out: Vec<char>)
    ensures
        out@ == replace(s@, p@, r@),
{
    let mut out: Vec<char> = Vec::new();
    if p.len() == 0 {
        let mut k: usize = 0;
        while k < s.len()
            invariant
                k <= s.len(),
                out@ + interleave_from(s@, r@, k as int) == interleave_from(s@, r@, 0),
            decreases s.len() - k,
        {
            proof {
                assert(out@ + interleave_from(s@, r@, k as int) =~= out@ + r@ + seq![s@[k as int]]
                    + interleave_from(s@, r@, k + 1));
            }
            push_all(&mut out, r);
            out.push(s[k]);
            k += 1;
        }
        push_all(&mut out, r);
        return out;
    }
    let mut pos: usize = 0;
    loop
        invariant
            pos <= s.len(),
            p.len() > 0,
            out@ + replace_from(s@, p@, r@, pos as int) == replace_from(s@, p@, r@, 0),
        decreases s.len() - pos,
    {
        match find_from_exec(s, p, pos) {
            None => {
                push_range(&mut out, s, pos, s.len());
                return out;
            },
            Some(i) => {
                proof {
                    lemma_find_from_bounds(s@, p@, pos as int);
                    assert(out@ + replace_from(s@, p@, r@, pos as int) =~= out@ + s@.subrange(
                        pos as int,
                        i as int,
                    ) + r@ + replace_from(s@, p@, r@, i + p.len()));
                }
                push_range(&mut out, s, pos, i);
                push_all(&mut out, r);
                pos = i + p.len();
            },
        }
    }
}

/// `s` without any occurrence of `c`.
pub fn remove_char_exec(s: &Vec<char>, c: char) -> (out: Vec<char>)
    ensures
        out@ == remove_char(s@, c),
{
    let mut out: Vec<char> = Vec::new();
    let mut k: usize = 0;
    while k < s.len()
        invariant
            k <= s.len(),
            out@ == remove_char(s@.subrange(0, k as int), c),
        decreases s.len() - k,
    {
        proof {
            assert(s@.subrange(0, k + 1).drop_last() =~= s@.subrange(0, k as int));
        }
        if s[k] != c {
            out.push(s[k]);
        }
        k += 1;
    }
    proof {
        assert(s@.subrange(0, s.len() as int) =~= s@);
    }
    out
}

/// Whether `c` has the Unicode `White_Space` property.
pub fn is_whitespace_exec(c: char) -> (b: bool)
    ensures
        b == is_whitespace(c),
{
    let u = c as u32;
    (0x9 <= u && u <= 0xD) || u == 0x20 || u == 0x85 || u == 0xA0 || u == 0x1680 || (0x2000 <= u
        && u <= 0x200A) || u == 0x2028 || u == 0x2029 || u == 0x202F || u == 0x205F || u == 0x3000
}

/// `s` without its trailing whitespace.
pub fn trim_end_exec(s: &Vec<char>) -> (out: Vec<char>)
    ensures
        out@ == trim_end(s@),
{
    let mut end = s.len();
    proof {
        assert(s@.subrange(0, s.len() as int) =~= s@);
    }
    while end > 0 && is_whitespace_exec(s[end - 1])
        invariant
            end <= s.len(),
            trim_end(s@.subrange(0, end as int)) == trim_end(s@),
        decreases end,
    {
        proof {
            assert(s@.subrange(0, end as int).drop_last() =~= s@.subrange(0, end - 1));
        }
        end -= 1;
    }
    proof {
        assert(s@.subrange(0, s.len() as int) =~= s@);
    }
    slice_of(s, 0, end)
}

/// The decimal digit character for `d < 10`.
pub fn digit_exec(d: usize) -> (c: char)
    requires
        d < 10,
    ensures
        c == digit(d as nat),
{
    if d == 0 {
        '0'
    } else if d == 1 {
        '1'
    } else if d == 2 {
        '2'
    } else if d == 3 {
        '3'
    } else if d == 4 {
        '4'
    } else if d == 5 {
        '5'
    } else if d == 6 {
        '6'
    } else if d == 7 {
        '7'
    } else if d == 8 {
        '8'
    } else {
        '9'
    }
}


/// Whether two character vectors hold the same characters.
pub fn chars_eq(a: &Vec<char>, b: &Vec<char>) -> (r: bool)
    ensures
        r == (a@ == b@),
{
    if a.len() != b.len() {
        return false;
    }
    let mut k: usize = 0;
    while k < a.len()
        invariant
            k <= a.len(),
            a.len() == b.len(),
            forall|j: int| 0 <= j < k ==> a@[j] == b@[j],
        decreases a.len() - k,
    {
        if a[k] != b[k] {
            return false;
        }
        k += 1;
    }
    proof {
        assert(a@ =~= b@);
    }
    true
}

/// Appends the decimal representation of `n` to `out`.
pub fn push_decimal(out: &mut Vec<char>, n: usize)
    ensures
        final(out)@ == old(out)@ + decimal(n as nat),
    decreases n,
{
    if n >= 10 {
        push_decimal(out, n / 10);
    }
    out.push(digit_exec(n % 10));
    proof {
        if n >= 10 {
            assert(old(out)@ + decimal(n as nat) =~= old(out)@ + decimal((n / 10) as nat) + seq![
                digit((n % 10) as nat)]);
        } else {
            assert(n % 10 == n);
        }
    }
}

} // verus!
