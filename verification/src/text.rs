//! Character-level string utilities with exact specifications.

use vstd::prelude::*;
use vstd::utf8::{encode_scalar, encode_utf8};

verus! {

/// `String::push` appends one character.
pub assume_specification[ String::push ](s: &mut String, ch: char)
    ensures
        final(s)@ == old(s)@.push(ch),
;

/// The characters of `s`, in order.
pub fn chars_of(s: &str) -> (v: Vec<char>)
    ensures
        v@ == s@,
{
    let mut v: Vec<char> = Vec::new();
    for c in it: s.chars()
        invariant
            v@ == it.seq().take(it.index() as int),
            it.seq() == s@,
    {
        v.push(c);
    }
    v
}

/// The string made of the characters `cs[lo..hi]`.
pub fn from_char_range(cs: &[char], lo: usize, hi: usize) -> (s: String)
    requires
        lo <= hi <= cs@.len(),
    ensures
        s@ == cs@.subrange(lo as int, hi as int),
{
    let mut s = String::new();
    let mut i: usize = lo;
    while i < hi
        invariant
            lo <= i <= hi <= cs@.len(),
            s@ == cs@.subrange(lo as int, i as int),
        decreases hi - i,
    {
        s.push(cs[i]);
        i = i + 1;
        assert(cs@.subrange(lo as int, i as int) == cs@.subrange(lo as int, i - 1).push(cs@[i - 1]));
    }
    s
}

/// The string made of the given characters.
pub fn from_chars(cs: &[char]) -> (s: String)
    ensures
        s@ == cs@,
{
    let s = from_char_range(cs, 0, cs.len());
    assert(cs@.subrange(0, cs@.len() as int) == cs@);
    s
}

/// An owned copy of `s`.
pub fn to_owned(s: &str) -> (r: String)
    ensures
        r@ == s@,
{
    let v = chars_of(s);
    from_chars(v.as_slice())
}

/// Appends `t` to `s`.
pub fn push_str(s: &mut String, t: &str)
    ensures
        final(s)@ == old(s)@ + t@,
{
    let v = chars_of(t);
    let ghost s0 = s@;
    let mut i: usize = 0;
    while i < v.len()
        invariant
            i <= v@.len(),
            v@ == t@,
            s@ == s0 + v@.take(i as int),
        decreases v.len() - i,
    {
        s.push(v[i]);
        i = i + 1;
        assert(v@.take(i as int) == v@.take(i - 1).push(v@[i - 1]));
    }
    assert(v@.take(v@.len() as int) == v@);
}

/// Character-wise equality of two strings.
pub fn str_eq(a: &str, b: &str) -> (r: bool)
    ensures
        r == (a@ == b@),
{
    let va = chars_of(a);
    let vb = chars_of(b);
    if va.len() != vb.len() {
        return false;
    }
    let mut i: usize = 0;
    while i < va.len()
        invariant
            i <= va@.len(),
            va@.len() == vb@.len(),
            va@ == a@,
            vb@ == b@,
            forall|k: int| 0 <= k < i ==> va@[k] == vb@[k],
        decreases va.len() - i,
    {
        if va[i] != vb[i] {
            return false;
        }
        i = i + 1;
    }
    assert(va@ =~= vb@);
    true
}

// ---------------------------------------------------------------------------
// Whitespace and trimming
// ---------------------------------------------------------------------------

/// Unicode `White_Space`: the characters that `char::is_whitespace` accepts.
pub open spec fn is_ws(c: char) -> bool {
    let u = c as u32;
    ||| 0x9 <= u <= 0xD
    ||| u == 0x20
    ||| u == 0x85
    ||| u == 0xA0
    ||| u == 0x1680
    ||| 0x2000 <= u <= 0x200A
    ||| u == 0x2028
    ||| u == 0x2029
    ||| u == 0x202F
    ||| u == 0x205F
    ||| u == 0x3000
}

pub fn is_whitespace(c: char) -> (r: bool)
    ensures
        r == is_ws(c),
{
    let u = c as u32;
    (0x9 <= u && u <= 0xD) || u == 0x20 || u == 0x85 || u == 0xA0 || u == 0x1680 || (0x2000 <= u
        && u <= 0x200A) || u == 0x2028 || u == 0x2029 || u == 0x202F || u == 0x205F || u == 0x3000
}

/// `s` without its leading whitespace.
pub open spec fn trim_start_spec(s: Seq<char>) -> Seq<char>
    decreases s.len(),
{
    if s.len() > 0 && is_ws(s[0]) {
        trim_start_spec(s.drop_first())
    } else {
        s
    }
}

/// `s` without its trailing whitespace.
pub open spec fn trim_end_spec(s: Seq<char>) -> Seq<char>
    decreases s.len(),
{
    if s.len() > 0 && is_ws(s.last()) {
        trim_end_spec(s.drop_last())
    } else {
        s
    }
}

/// `s` without leading and trailing whitespace (what `str::trim` gives).
pub open spec fn trim_spec(s: Seq<char>) -> Seq<char> {
    trim_end_spec(trim_start_spec(s))
}

/// Removes leading and trailing whitespace.
pub fn trim(s: &str) -> (r: String)
    ensures
        r@ == trim_spec(s@),
{
    let v = chars_of(s);
    let n = v.len();
    let mut i: usize = 0;
    assert(v@.subrange(0, n as int) == v@);
    while i < n && is_whitespace(v[i])
        invariant
            i <= n,
            n == v@.len(),
            v@ == s@,
            trim_start_spec(v@) == trim_start_spec(v@.subrange(i as int, n as int)),
        decreases n - i,
    {
        assert(v@.subrange(i as int, n as int).drop_first() == v@.subrange(i + 1, n as int));
        i = i + 1;
    }
    assert(trim_start_spec(v@) == v@.subrange(i as int, n as int));
    let mut j: usize = n;
    while j > i && is_whitespace(v[j - 1])
        invariant
            i <= j <= n,
            n == v@.len(),
            trim_end_spec(v@.subrange(i as int, n as int)) == trim_end_spec(
                v@.subrange(i as int, j as int),
            ),
        decreases j - i,
    {
        assert(v@.subrange(i as int, j as int).drop_last() == v@.subrange(i as int, j - 1));
        j = j - 1;
    }
    assert(trim_end_spec(v@.subrange(i as int, j as int)) == v@.subrange(i as int, j as int));
    from_char_range(v.as_slice(), i, j)
}

/// Removes leading whitespace.
pub fn trim_start(s: &str) -> (r: String)
    ensures
        r@ == trim_start_spec(s@),
{
    let v = chars_of(s);
    let n = v.len();
    let mut i: usize = 0;
    assert(v@.subrange(0, n as int) == v@);
    while i < n && is_whitespace(v[i])
        invariant
            i <= n,
            n == v@.len(),
            v@ == s@,
            trim_start_spec(v@) == trim_start_spec(v@.subrange(i as int, n as int)),
        decreases n - i,
    {
        assert(v@.subrange(i as int, n as int).drop_first() == v@.subrange(i + 1, n as int));
        i = i + 1;
    }
    from_char_range(v.as_slice(), i, n)
}

// ---------------------------------------------------------------------------
// Prefixes and substrings
// ---------------------------------------------------------------------------

/// Whether `s` begins with `p`.
pub fn starts_with(s: &str, p: &str) -> (r: bool)
    ensures
        r == p@.is_prefix_of(s@),
{
    let vs = chars_of(s);
    let vp = chars_of(p);
    if vp.len() > vs.len() {
        return false;
    }
    let mut i: usize = 0;
    while i < vp.len()
        invariant
            i <= vp@.len() <= vs@.len(),
            vs@ == s@,
            vp@ == p@,
            forall|k: int| 0 <= k < i ==> vp@[k] == vs@[k],
        decreases vp.len() - i,
    {
        if vp[i] != vs[i] {
            return false;
        }
        i = i + 1;
    }
    true
}

/// `s` without the prefix `p`, when `s` begins with `p`.
pub fn strip_prefix(s: &str, p: &str) -> (r: Option<String>)
    ensures
        match r {
            Some(t) => p@.is_prefix_of(s@) && t@ == s@.skip(p@.len() as int),
            None => !p@.is_prefix_of(s@),
        },
{
    if starts_with(s, p) {
        let vs = chars_of(s);
        let vp = chars_of(p);
        let t = from_char_range(vs.as_slice(), vp.len(), vs.len());
        assert(t@ =~= s@.skip(p@.len() as int));
        Some(t)
    } else {
        None
    }
}

/// `p` occurs in `s` at position `i`.
pub open spec fn occurs_at(s: Seq<char>, p: Seq<char>, i: int) -> bool {
    0 <= i && i + p.len() <= s.len() && s.subrange(i, i + p.len()) == p
}

/// Whether `p` occurs somewhere in `s` (what `str::contains` gives).
pub fn contains(s: &str, p: &str) -> (r: bool)
    ensures
        r == exists|i: int| occurs_at(s@, p@, i),
{
    let vs = chars_of(s);
    let vp = chars_of(p);
    let n = vs.len();
    let m = vp.len();
    if m > n {
        assert forall|i: int| !occurs_at(s@, p@, i) by {}
        return false;
    }
    let mut i: usize = 0;
    while i <= n - m
        invariant
            m <= n,
            n == vs@.len(),
            m == vp@.len(),
            vs@ == s@,
            vp@ == p@,
            forall|k: int| 0 <= k < i ==> !occurs_at(s@, p@, k),
        decreases n - m + 1 - i,
    {
        let mut j: usize = 0;
        let mut same = true;
        while j < m
            invariant
                j <= m,
                i + m <= n,
                n == vs@.len(),
                m == vp@.len(),
                same == (forall|k: int| 0 <= k < j ==> vs@[i + k] == vp@[k]),
            decreases m - j,
        {
            if vs[i + j] != vp[j] {
                same = false;
            }
            j = j + 1;
        }
        if same {
            assert(vs@.subrange(i as int, i + m) =~= vp@);
            assert(occurs_at(s@, p@, i as int));
            return true;
        }
        assert(!occurs_at(s@, p@, i as int)) by {
            if vs@.subrange(i as int, i + m) == vp@ {
                assert(forall|k: int|
                    0 <= k < m ==> #[trigger] vp@[k] == vs@.subrange(i as int, i + m)[k]);
            }
        }
        i = i + 1;
    }
    assert forall|k: int| !occurs_at(s@, p@, k) by {
        if occurs_at(s@, p@, k) {
            assert(k <= n - m);
        }
    }
    false
}


// ---------------------------------------------------------------------------
// Splitting and joining
// ---------------------------------------------------------------------------

/// The pieces of `s` between occurrences of `sep`, empty pieces included
/// (what `str::split` with a `char` pattern yields).
pub open spec fn split_spec(s: Seq<char>, sep: char) -> Seq<Seq<char>>
    decreases s.len(),
{
    if s.len() == 0 {
        seq![Seq::<char>::empty()]
    } else {
        let prev = split_spec(s.drop_last(), sep);
        if s.last() == sep {
            prev.push(Seq::<char>::empty())
        } else {
            prev.update(prev.len() - 1, prev.last().push(s.last()))
        }
    }
}

pub proof fn lemma_split_nonempty(s: Seq<char>, sep: char)
    ensures
        split_spec(s, sep).len() >= 1,
    decreases s.len(),
{
    if s.len() > 0 {
        lemma_split_nonempty(s.drop_last(), sep);
    }
}

/// The views of a sequence of strings.
pub open spec fn views(v: Seq<String>) -> Seq<Seq<char>> {
    v.map_values(|x: String| x@)
}

/// Splits `s` at every `sep`.
pub fn split(s: &str, sep: char) -> (r: Vec<String>)
    ensures
        views(r@) == split_spec(s@, sep),
{
    let v = chars_of(s);
    let mut pieces: Vec<String> = Vec::new();
    let mut cur: Vec<char> = Vec::new();
    let mut i: usize = 0;
    assert(v@.take(0) =~= Seq::<char>::empty());
    assert(views(pieces@).push(cur@) =~= split_spec(v@.take(0), sep));
    while i < v.len()
        invariant
            i <= v@.len(),
            v@ == s@,
            views(pieces@).push(cur@) == split_spec(v@.take(i as int), sep),
        decreases v.len() - i,
    {
        let c = v[i];
        let ghost prev = split_spec(v@.take(i as int), sep);
        assert(v@.take(i + 1).drop_last() =~= v@.take(i as int));
        if c == sep {
            let piece = from_chars(cur.as_slice());
            pieces.push(piece);
            cur = Vec::new();
            assert(views(pieces@).push(cur@) =~= prev.push(Seq::<char>::empty()));
        } else {
            cur.push(c);
            assert(views(pieces@).push(cur@) =~= prev.update(prev.len() - 1, prev.last().push(c)));
        }
        i = i + 1;
    }
    let last = from_chars(cur.as_slice());
    pieces.push(last);
    assert(v@.take(v@.len() as int) =~= v@);
    assert(views(pieces@) =~= split_spec(v@, sep));
    pieces
}

/// `parts` joined with `sep` between neighbours.
pub open spec fn join_spec(parts: Seq<Seq<char>>, sep: Seq<char>) -> Seq<char>
    decreases parts.len(),
{
    if parts.len() == 0 {
        Seq::<char>::empty()
    } else if parts.len() == 1 {
        parts[0]
    } else {
        join_spec(parts.drop_last(), sep) + sep + parts.last()
    }
}

/// Joins `parts` with `sep` (what `[String]::join` gives).
pub fn join(parts: &[String], sep: &str) -> (r: String)
    ensures
        r@ == join_spec(views(parts@), sep@),
{
    let mut r = String::new();
    let mut i: usize = 0;
    while i < parts.len()
        invariant
            i <= parts@.len(),
            r@ == join_spec(views(parts@.take(i as int)), sep@),
        decreases parts.len() - i,
    {
        assert(views(parts@.take(i + 1)).drop_last() =~= views(parts@.take(i as int)));
        if i > 0 {
            push_str(&mut r, sep);
        }
        push_str(&mut r, parts[i].as_str());
        i = i + 1;
    }
    assert(parts@.take(parts@.len() as int) =~= parts@);
    r
}


// ---------------------------------------------------------------------------
// Concatenation over a sequence
// ---------------------------------------------------------------------------

/// The texts `f` gives for each element of `xs`, one after the other.
pub open spec fn concat_map<A>(xs: Seq<A>, f: spec_fn(A) -> Seq<char>) -> Seq<char>
    decreases xs.len(),
{
    if xs.len() == 0 {
        Seq::<char>::empty()
    } else {
        concat_map(xs.drop_last(), f) + f(xs.last())
    }
}

pub proof fn lemma_concat_map_step<A>(xs: Seq<A>, i: int, f: spec_fn(A) -> Seq<char>)
    requires
        0 <= i < xs.len(),
    ensures
        concat_map(xs.take(i + 1), f) == concat_map(xs.take(i), f) + f(xs[i]),
{
    assert(xs.take(i + 1).drop_last() =~= xs.take(i));
    assert(xs.take(i + 1).last() == xs[i]);
}

pub proof fn lemma_concat_map_all<A>(xs: Seq<A>, f: spec_fn(A) -> Seq<char>)
    ensures
        concat_map(xs.take(xs.len() as int), f) == concat_map(xs, f),
        concat_map(xs.take(0), f) == Seq::<char>::empty(),
{
    assert(xs.take(xs.len() as int) =~= xs);
    assert(xs.take(0).len() == 0);
}

// ---------------------------------------------------------------------------
// UTF-8 length
// ---------------------------------------------------------------------------

/// The UTF-8 encoding of a concatenation is the concatenation of encodings.
pub proof fn lemma_encode_utf8_concat(a: Seq<char>, b: Seq<char>)
    ensures
        encode_utf8(a + b) == encode_utf8(a) + encode_utf8(b),
    decreases a.len(),
{
    if a.len() > 0 {
        assert((a + b).drop_first() =~= a.drop_first() + b);
        lemma_encode_utf8_concat(a.drop_first(), b);
        assert((a + b)[0] == a[0]);
        assert(encode_utf8(a + b) =~= encode_scalar(a[0] as u32) + encode_utf8(a.drop_first() + b));
    } else {
        assert(a + b =~= b);
        assert(encode_utf8(a) =~= Seq::<u8>::empty());
    }
}

pub proof fn lemma_encode_utf8_push(a: Seq<char>, c: char)
    ensures
        encode_utf8(a.push(c)).len() == encode_utf8(a).len() + encode_scalar(c as u32).len(),
{
    lemma_encode_utf8_concat(a, seq![c]);
    assert(a.push(c) =~= a + seq![c]);
    assert(seq![c].drop_first() =~= Seq::<char>::empty());
    assert(encode_utf8(seq![c]) =~= encode_scalar(c as u32) + encode_utf8(Seq::<char>::empty()));
}

/// The number of bytes `c` takes in UTF-8.
pub fn utf8_width(c: char) -> (w: u64)
    ensures
        w == encode_scalar(c as u32).len(),
        1 <= w <= 4,
{
    let u = c as u32;
    proof {
        vstd::utf8::char_is_scalar(c);
    }
    if u <= 0x7F {
        1
    } else if u <= 0x7FF {
        2
    } else if u <= 0xFFFF {
        3
    } else {
        4
    }
}

/// Whether the UTF-8 encoding of `s` is longer than `limit` bytes
/// (`s.len() > limit`).
pub fn utf8_len_exceeds(s: &str, limit: u64) -> (r: bool)
    requires
        limit <= u64::MAX - 4,
    ensures
        r == (encode_utf8(s@).len() > limit),
{
    let v = chars_of(s);
    let mut acc: u64 = 0;
    let mut i: usize = 0;
    assert(v@.take(0) =~= Seq::<char>::empty());
    while i < v.len()
        invariant
            i <= v@.len(),
            v@ == s@,
            acc as int == encode_utf8(v@.take(i as int)).len(),
            acc <= limit,
            limit <= u64::MAX - 4,
        decreases v.len() - i,
    {
        let w = utf8_width(v[i]);
        proof {
            lemma_encode_utf8_push(v@.take(i as int), v@[i as int]);
            assert(v@.take(i + 1) =~= v@.take(i as int).push(v@[i as int]));
        }
        acc = acc + w;
        i = i + 1;
        if acc > limit {
            proof {
                lemma_encode_utf8_concat(v@.take(i as int), v@.skip(i as int));
                assert(v@ =~= v@.take(i as int) + v@.skip(i as int));
            }
            return true;
        }
    }
    assert(v@.take(v@.len() as int) =~= v@);
    false
}

/// The leading characters of `s` whose UTF-8 encoding is exactly `n` bytes
/// long; `None` when byte `n` falls inside a character or past the end.
pub fn utf8_prefix(s: &str, n: u64) -> (r: Option<String>)
    requires
        n <= u64::MAX - 4,
    ensures
        match r {
            Some(p) => p@.is_prefix_of(s@) && encode_utf8(p@).len() == n,
            None => forall|k: int| 0 <= k <= s@.len() ==> encode_utf8(#[trigger] s@.take(k)).len() != n,
        },
{
    let v = chars_of(s);
    let mut acc: u64 = 0;
    let mut i: usize = 0;
    assert(v@.take(0) =~= Seq::<char>::empty());
    while i < v.len() && acc < n
        invariant
            i <= v@.len(),
            v@ == s@,
            acc as int == encode_utf8(v@.take(i as int)).len(),
            acc <= n + 4,
            n <= u64::MAX - 4,
            forall|k: int| 0 <= k < i ==> encode_utf8(#[trigger] v@.take(k)).len() < n,
        decreases v.len() - i,
    {
        let w = utf8_width(v[i]);
        proof {
            lemma_encode_utf8_push(v@.take(i as int), v@[i as int]);
            assert(v@.take(i + 1) =~= v@.take(i as int).push(v@[i as int]));
        }
        acc = acc + w;
        i = i + 1;
    }
    if acc == n {
        let p = from_char_range(v.as_slice(), 0, i);
        assert(p@ =~= v@.take(i as int));
        Some(p)
    } else {
        proof {
            assert forall|k: int| 0 <= k <= s@.len() implies encode_utf8(#[trigger] s@.take(k)).len()
                != n by {
                if k > i {
                    lemma_encode_utf8_concat(v@.take(i as int), v@.subrange(i as int, k));
                    assert(v@.take(k) =~= v@.take(i as int) + v@.subrange(i as int, k));
                    if acc < n {
                        assert(i == v@.len());
                    }
                }
            }
        }
        None
    }
}

} // verus!
