//! Text helpers shared by the modules: comparisons, character vectors,
//! whitespace trimming, splitting, substitution and decimal rendering.

use vstd::prelude::*;

verus! {

broadcast use vstd::seq_lib::group_seq_properties, vstd::seq::group_seq_axioms;

/// Whether an owned string holds the same characters as a slice.
pub fn eq_str(a: &String, b: &str) -> (r: bool)
    ensures
        r == (a@ == b@),
{
    let t = b.to_owned();
    *a == t
}

/// The characters of a string slice.
pub(crate) fn chars_of(s: &str) -> (r: Vec<char>)
    ensures
        r@ == s@,
{
    let mut out: Vec<char> = Vec::new();
    for c in it: s.chars()
        invariant
            out@.len() == it.index(),
            forall|i: int| 0 <= i < out@.len() ==> out@[i] == it.seq()[i],
            it.seq() == s@,
    {
        out.push(c);
    }
    proof {
        assert(out@ =~= s@);
    }
    out
}

/// Appends a character, through `String::push`.
#[verifier::external_body]
fn push_char(s: &mut String, c: char)
    ensures
        final(s)@ == old(s)@.push(c),
{
    s.push(c);
}

/// The string made of the given characters.
pub(crate) fn string_of(v: &Vec<char>) -> (r: String)
    ensures
        r@ == v@,
{
    let mut out = String::new();
    let mut i: usize = 0;
    while i < v.len()
        invariant
            i <= v@.len(),
            out@ == v@.take(i as int),
        decreases v@.len() - i,
    {
        push_char(&mut out, v[i]);
        proof {
            assert(v@.take(i + 1) == v@.take(i as int).push(v@[i as int]));
        }
        i += 1;
    }
    proof {
        assert(v@.take(i as int) == v@);
    }
    out
}

/// Unicode `White_Space`, as `char::is_whitespace` documents it.
pub open spec fn is_ws(c: char) -> bool {
    let u = c as u32;
    ||| u == 0x20
    ||| (0x09 <= u && u <= 0x0d)
    ||| u == 0x85
    ||| u == 0xa0
    ||| u == 0x1680
    ||| (0x2000 <= u && u <= 0x200a)
    ||| u == 0x2028
    ||| u == 0x2029
    ||| u == 0x202f
    ||| u == 0x205f
    ||| u == 0x3000
}

pub fn is_whitespace(c: char) -> (r: bool)
    ensures
        r == is_ws(c),
{
    let u = c as u32;
    u == 0x20 || (0x09 <= u && u <= 0x0d) || u == 0x85 || u == 0xa0 || u == 0x1680 || (0x2000 <= u
        && u <= 0x200a) || u == 0x2028 || u == 0x2029 || u == 0x202f || u == 0x205f || u == 0x3000
}

/// `s` without its leading whitespace.
pub open spec fn trim_start(s: Seq<char>) -> Seq<char>
    decreases s.len(),
{
    if s.len() > 0 && is_ws(s[0]) {
        trim_start(s.skip(1))
    } else {
        s
    }
}

/// `s` without its trailing whitespace.
pub open spec fn trim_end(s: Seq<char>) -> Seq<char>
    decreases s.len(),
{
    if s.len() > 0 && is_ws(s.last()) {
        trim_end(s.drop_last())
    } else {
        s
    }
}

/// `s` without leading and trailing whitespace, as `str::trim` returns it.
pub open spec fn trim(s: Seq<char>) -> Seq<char> {
    trim_end(trim_start(s))
}

/// Trims whitespace on both ends.
pub fn trim_chars(v: &Vec<char>) -> (r: Vec<char>)
    ensures
        r@ == trim(v@),
{
    let ghost s = v@;
    let n = v.len();
    let mut a: usize = 0;
    while a < n && is_whitespace(v[a])
        invariant
            a <= n,
            n == s.len(),
            s == v@,
            trim_start(s) == trim_start(s.skip(a as int)),
        decreases n - a,
    {
        proof {
            assert(s.skip(a as int).skip(1) == s.skip(a + 1));
        }
        a += 1;
    }
    let ghost t = s.skip(a as int);
    assert(trim_start(t) == t);
    let mut b: usize = n;
    while b > a && is_whitespace(v[b - 1])
        invariant
            a <= b <= n,
            n == s.len(),
            s == v@,
            t == s.skip(a as int),
            trim_end(t) == trim_end(s.subrange(a as int, b as int)),
        decreases b,
    {
        proof {
            assert(s.subrange(a as int, b as int).drop_last() == s.subrange(a as int, b - 1));
        }
        b -= 1;
    }
    let mut out: Vec<char> = Vec::new();
    let mut k: usize = a;
    while k < b
        invariant
            a <= k <= b,
            b <= n,
            n == s.len(),
            s == v@,
            out@ == s.subrange(a as int, k as int),
        decreases b - k,
    {
        out.push(v[k]);
        k += 1;
    }
    proof {
        assert(t == s.subrange(a as int, n as int));
    }
    out
}

/// Trims whitespace on both ends of a string slice.
pub fn trim_str(s: &str) -> (r: String)
    ensures
        r@ == trim(s@),
{
    let v = chars_of(s);
    let t = trim_chars(&v);
    string_of(&t)
}

/// The pieces of `s` cut at every `sep`, the current piece having begun as `cur`.
pub open spec fn split_from(s: Seq<char>, sep: char, cur: Seq<char>) -> Seq<Seq<char>>
    decreases s.len(),
{
    if s.len() == 0 {
        seq![cur]
    } else if s[0] == sep {
        seq![cur] + split_from(s.skip(1), sep, Seq::empty())
    } else {
        split_from(s.skip(1), sep, cur.push(s[0]))
    }
}

/// The pieces of `s` cut at every `sep`, as `str::split` yields them.
pub open spec fn split_on(s: Seq<char>, sep: char) -> Seq<Seq<char>> {
    split_from(s, sep, Seq::empty())
}

/// Whether the vectors in `r` hold, one for one, the pieces in `t`.
pub open spec fn pieces_match(r: Seq<Vec<char>>, t: Seq<Seq<char>>) -> bool {
    r.len() == t.len() && forall|k: int| 0 <= k < r.len() ==> #[trigger] r[k]@ == t[k]
}

/// Cuts `v` at every `sep`.
pub fn split_chars(v: &Vec<char>, sep: char) -> (r: Vec<Vec<char>>)
    ensures
        pieces_match(r@, split_on(v@, sep)),
{
    let ghost s = v@;
    let n = v.len();
    let mut out: Vec<Vec<char>> = Vec::new();
    let mut cur: Vec<char> = Vec::new();
    let ghost mut pieces: Seq<Seq<char>> = Seq::empty();
    let mut i: usize = 0;
    while i < n
        invariant
            i <= n,
            n == s.len(),
            s == v@,
            pieces_match(out@, pieces),
            pieces + split_from(s.skip(i as int), sep, cur@) == split_on(s, sep),
        decreases n - i,
    {
        proof {
            assert(s.skip(i as int).skip(1) == s.skip(i + 1));
        }
        if v[i] == sep {
            proof {
                let tail = split_from(s.skip(i + 1), sep, Seq::empty());
                assert(pieces + (seq![cur@] + tail) == pieces.push(cur@) + tail);
                pieces = pieces.push(cur@);
            }
            out.push(cur);
            cur = Vec::new();
        } else {
            cur.push(v[i]);
        }
        i += 1;
    }
    proof {
        assert(pieces + seq![cur@] == pieces.push(cur@));
        pieces = pieces.push(cur@);
    }
    out.push(cur);
    out
}

/// The character sequences of a sequence of strings.
pub open spec fn views_of(v: Seq<String>) -> Seq<Seq<char>> {
    v.map_values(|x: String| x@)
}

/// Cuts a string slice at every `sep`, as `str::split` does.
pub fn split_str(s: &str, sep: char) -> (r: Vec<String>)
    ensures
        views_of(r@) == split_on(s@, sep),
{
    let v = chars_of(s);
    let parts = split_chars(&v, sep);
    let ghost t = split_on(s@, sep);
    let mut out: Vec<String> = Vec::new();
    let mut i: usize = 0;
    while i < parts.len()
        invariant
            i <= parts@.len(),
            pieces_match(parts@, t),
            views_of(out@) == t.take(i as int),
        decreases parts@.len() - i,
    {
        let piece = string_of(&parts[i]);
        let ghost before = out@;
        proof {
            assert(parts@[i as int]@ == t[i as int]);
        }
        out.push(piece);
        proof {
            assert(views_of(out@) == views_of(before).push(piece@));
            assert(t.take(i + 1) == t.take(i as int).push(t[i as int]));
        }
        i += 1;
    }
    proof {
        assert(t.take(i as int) == t);
    }
    out
}

/// Whether a piece of text is non-empty.
pub open spec fn is_nonempty() -> spec_fn(Seq<char>) -> bool {
    |p: Seq<char>| p.len() > 0
}

/// Each piece trimmed, and the pieces left empty dropped.
pub open spec fn kept_trimmed(pieces: Seq<Seq<char>>) -> Seq<Seq<char>> {
    pieces.map_values(|p: Seq<char>| trim(p)).filter(is_nonempty())
}

/// Trims every string and keeps those that are not empty afterwards.
pub fn trim_nonempty(pieces: &Vec<String>) -> (r: Vec<String>)
    ensures
        views_of(r@) == kept_trimmed(views_of(pieces@)),
{
    let ghost t = views_of(pieces@);
    let ghost f = |p: Seq<char>| trim(p);
    let mut out: Vec<String> = Vec::new();
    let mut i: usize = 0;
    while i < pieces.len()
        invariant
            i <= pieces@.len(),
            t == views_of(pieces@),
            f == (|p: Seq<char>| trim(p)),
            views_of(out@) == t.take(i as int).map_values(f).filter(is_nonempty()),
        decreases pieces@.len() - i,
    {
        let piece = trim_str(pieces[i].as_str());
        proof {
            assert(t.take(i + 1).map_values(f) == t.take(i as int).map_values(f).push(trim(t[i as int])));
            t.take(i as int).map_values(f).lemma_filter_push(trim(t[i as int]), is_nonempty());
        }
        if piece.as_str().is_empty() {
        } else {
            let ghost before = out@;
            out.push(piece);
            proof {
                assert(views_of(out@) == views_of(before).push(piece@));
            }
        }
        i += 1;
    }
    proof {
        assert(t.take(i as int) == t);
    }
    out
}

/// The first position of `c` in `s`.
pub open spec fn index_of(s: Seq<char>, c: char) -> Option<int>
    decreases s.len(),
{
    if s.len() == 0 {
        None
    } else if s[0] == c {
        Some(0)
    } else {
        match index_of(s.skip(1), c) {
            Some(i) => Some(i + 1),
            None => None,
        }
    }
}

pub fn find_char(v: &Vec<char>, c: char) -> (r: Option<usize>)
    ensures
        match r {
            Some(i) => index_of(v@, c) == Some(i as int) && i < v@.len(),
            None => index_of(v@, c) is None,
        },
{
    let ghost s = v@;
    let mut i: usize = 0;
    while i < v.len()
        invariant
            i <= s.len(),
            s == v@,
            forall|j: int| 0 <= j < i ==> s[j] != c,
            index_of(s, c) == match index_of(s.skip(i as int), c) {
                Some(k) => Some(k + i),
                None => None,
            },
        decreases s.len() - i,
    {
        proof {
            assert(s.skip(i as int).skip(1) == s.skip(i + 1));
        }
        if v[i] == c {
            return Some(i);
        }
        i += 1;
    }
    None
}

/// Whether `p` occurs in `s` at position `i`.
pub open spec fn occurs_at(s: Seq<char>, p: Seq<char>, i: int) -> bool {
    0 <= i && i + p.len() <= s.len() && s.subrange(i, i + p.len()) == p
}

fn matches_at(s: &Vec<char>, p: &Vec<char>, i: usize) -> (r: bool)
    requires
        i <= s@.len(),
    ensures
        r == occurs_at(s@, p@, i as int),
{
    if p.len() > s.len() - i {
        return false;
    }
    let mut j: usize = 0;
    while j < p.len()
        invariant
            j <= p.len(),
            i + p.len() <= s.len(),
            forall|k: int| 0 <= k < j ==> s@[i + k] == p@[k],
        decreases p@.len() - j,
    {
        if s[i + j] != p[j] {
            proof {
                assert(s@.subrange(i as int, i + p@.len())[j as int] != p@[j as int]);
            }
            return false;
        }
        j += 1;
    }
    proof {
        assert(s@.subrange(i as int, i + p@.len()) =~= p@);
    }
    true
}

/// `s` with every occurrence of `p` replaced by `r`, scanning left to right
/// and never overlapping, as `str::replace` does for a non-empty pattern.
pub open spec fn replace_all(s: Seq<char>, p: Seq<char>, r: Seq<char>) -> Seq<char>
    decreases s.len(),
{
    if s.len() == 0 {
        Seq::empty()
    } else if p.len() > 0 && occurs_at(s, p, 0) {
        r + replace_all(s.skip(p.len() as int), p, r)
    } else {
        seq![s[0]] + replace_all(s.skip(1), p, r)
    }
}

/// Replaces every occurrence of the non-empty pattern `p` by `r`.
pub fn replace_chars(s: &Vec<char>, p: &Vec<char>, r: &Vec<char>) -> (out: Vec<char>)
    requires
        p@.len() > 0,
    ensures
        out@ == replace_all(s@, p@, r@),
{
    let ghost sv = s@;
    let n = s.len();
    let mut out: Vec<char> = Vec::new();
    let mut i: usize = 0;
    while i < n
        invariant
            i <= n,
            n == sv.len(),
            sv == s@,
            p@.len() > 0,
            out@ + replace_all(sv.skip(i as int), p@, r@) == replace_all(sv, p@, r@),
        decreases n - i,
    {
        let ghost rest = sv.skip(i as int);
        if matches_at(s, p, i) {
            proof {
                assert(rest.subrange(0, p@.len() as int) == sv.subrange(i as int, i + p@.len()));
                assert(occurs_at(rest, p@, 0));
                assert(rest.skip(p@.len() as int) == sv.skip(i + p@.len()));
            }
            let ghost before = out@;
            let mut k: usize = 0;
            while k < r.len()
                invariant
                    k <= r@.len(),
                    out@ == before + r@.take(k as int),
                decreases r@.len() - k,
            {
                out.push(r[k]);
                proof {
                    assert(r@.take(k + 1) == r@.take(k as int).push(r@[k as int]));
                }
                k += 1;
            }
            proof {
                assert(r@.take(r@.len() as int) == r@);
            }
            i += p.len();
        } else {
            proof {
                if occurs_at(rest, p@, 0) {
                    assert(rest.subrange(0, p@.len() as int) == sv.subrange(i as int, i + p@.len()));
                }
                assert(rest.skip(1) == sv.skip(i + 1));
            }
            out.push(s[i]);
            i += 1;
        }
    }
    out
}

/// Replaces every occurrence of the non-empty `pattern` in `s` by `replacement`.
pub fn replace_str(s: &Vec<char>, pattern: &str, replacement: &str) -> (out: Vec<char>)
    requires
        pattern@.len() > 0,
    ensures
        out@ == replace_all(s@, pattern@, replacement@),
{
    let p = chars_of(pattern);
    let r = chars_of(replacement);
    replace_chars(s, &p, &r)
}

/// Once `s` holds no `{`, replacing a pattern that starts with `{` changes nothing.
pub proof fn lemma_replace_without_brace(s: Seq<char>, p: Seq<char>, r: Seq<char>)
    requires
        p.len() > 0,
        p[0] == '{',
        forall|i: int| 0 <= i < s.len() ==> s[i] != '{',
    ensures
        replace_all(s, p, r) == s,
    decreases s.len(),
{
    if s.len() > 0 {
        if occurs_at(s, p, 0) {
            assert(s.subrange(0, p.len() as int)[0] == s[0]);
        }
        lemma_replace_without_brace(s.skip(1), p, r);
        assert(seq![s[0]] + s.skip(1) == s);
    }
}

/// Whether `s` holds no `{`.
pub open spec fn brace_free(s: Seq<char>) -> bool {
    forall|i: int| 0 <= i < s.len() ==> s[i] != '{'
}

/// Whether `p` is a placeholder: `{`, then characters other than braces,
/// then `}`.
pub open spec fn is_placeholder(p: Seq<char>) -> bool {
    &&& p.len() >= 2
    &&& p[0] == '{'
    &&& p[p.len() - 1] == '}'
    &&& forall|i: int| 0 < i < p.len() - 1 ==> p[i] != '{' && p[i] != '}'
}

/// Text without `{` in front of the rest is passed over by a replacement
/// of a pattern that starts with `{`.
pub proof fn lemma_replace_skips_brace_free(a: Seq<char>, x: Seq<char>, p: Seq<char>, r: Seq<char>)
    requires
        p.len() > 0,
        p[0] == '{',
        brace_free(a),
    ensures
        replace_all(a + x, p, r) == a + replace_all(x, p, r),
    decreases a.len(),
{
    if a.len() > 0 {
        let s = a + x;
        if occurs_at(s, p, 0) {
            assert(s.subrange(0, p.len() as int)[0] == s[0]);
        }
        assert(s.skip(1) =~= a.skip(1) + x);
        lemma_replace_skips_brace_free(a.skip(1), x, p, r);
        assert(seq![a[0]] + (a.skip(1) + replace_all(x, p, r)) =~= a + replace_all(x, p, r));
    }
}

/// The pattern itself, in front of the rest, is replaced.
pub proof fn lemma_replace_at_front(p: Seq<char>, b: Seq<char>, r: Seq<char>)
    requires
        p.len() > 0,
    ensures
        replace_all(p + b, p, r) == r + replace_all(b, p, r),
{
    let s = p + b;
    assert(s.subrange(0, p.len() as int) =~= p);
    assert(s.skip(p.len() as int) =~= b);
}

/// One placeholder, followed by text without `{`, is left alone by the
/// replacement of another placeholder.
pub proof fn lemma_other_placeholder_stays(p: Seq<char>, q: Seq<char>, b: Seq<char>, r: Seq<char>)
    requires
        is_placeholder(p),
        is_placeholder(q),
        p != q,
        brace_free(b),
    ensures
        replace_all(p + b, q, r) == p + b,
{
    let s = p + b;
    if occurs_at(s, q, 0) {
        let w = s.subrange(0, q.len() as int);
        if q.len() < p.len() {
            assert(w[q.len() - 1] == p[q.len() - 1]);
        } else if q.len() > p.len() {
            assert(w[p.len() - 1] == p[p.len() - 1]);
        } else {
            assert forall|i: int| 0 <= i < p.len() implies p[i] == q[i] by {
                assert(w[i] == s[i]);
            }
            assert(p =~= q);
        }
    }
    assert(s[0] == '{');
    let rest = p.skip(1);
    assert forall|i: int| 0 <= i < rest.len() implies rest[i] != '{' by {
        assert(rest[i] == p[i + 1]);
    }
    assert(s.skip(1) =~= rest + b);
    lemma_replace_skips_brace_free(rest, b, q, r);
    lemma_replace_without_brace(b, q, r);
    assert(seq![p[0]] + (rest + b) =~= p + b);
}

/// Decimal digits hold no `{`.
pub proof fn lemma_decimal_digits_brace_free(n: nat)
    ensures
        brace_free(decimal_digits(n)),
    decreases n,
{
    if n >= 10 {
        lemma_decimal_digits_brace_free(n / 10);
    }
}

/// Decimal text holds no `{`.
pub proof fn lemma_decimal_text_brace_free(n: int)
    ensures
        brace_free(decimal_text(n)),
{
    if n < 0 {
        lemma_decimal_digits_brace_free((-n) as nat);
        let d = decimal_digits((-n) as nat);
        assert forall|i: int| 0 <= i < decimal_text(n).len() implies decimal_text(n)[i] != '{' by {
            if i > 0 {
                assert(decimal_text(n)[i] == d[i - 1]);
            }
        }
    } else {
        lemma_decimal_digits_brace_free(n as nat);
    }
}

/// The decimal digit `d`.
pub open spec fn digit_char(d: nat) -> char {
    if d == 0 {
        '0'
    } else if d == 1 {
        '1'
    } else if d == 2 {
        '2'
    } else if d == 3 {
        '3'
    } else if d == 4 {
        '4'
    } else if d == 5 {
        '5'
    } else if d == 6 {
        '6'
    } else if d == 7 {
        '7'
    } else if d == 8 {
        '8'
    } else {
        '9'
    }
}

fn digit(d: u64) -> (r: char)
    requires
        d < 10,
    ensures
        r == digit_char(d as nat),
{
    if d == 0 {
        '0'
    } else if d == 1 {
        '1'
    } else if d == 2 {
        '2'
    } else if d == 3 {
        '3'
    } else if d == 4 {
        '4'
    } else if d == 5 {
        '5'
    } else if d == 6 {
        '6'
    } else if d == 7 {
        '7'
    } else if d == 8 {
        '8'
    } else {
        '9'
    }
}

/// The decimal digits of `n`, without leading zeros.
pub open spec fn decimal_digits(n: nat) -> Seq<char>
    decreases n,
{
    if n < 10 {
        seq![digit_char(n)]
    } else {
        decimal_digits(n / 10).push(digit_char(n % 10))
    }
}

/// The decimal text of an integer, with a leading `-` when negative, as
/// the `Display` of the integer types writes it.
pub open spec fn decimal_text(n: int) -> Seq<char> {
    if n < 0 {
        seq!['-'] + decimal_digits((-n) as nat)
    } else {
        decimal_digits(n as nat)
    }
}

fn push_digits(m: u64, out: &mut Vec<char>)
    ensures
        final(out)@ == old(out)@ + decimal_digits(m as nat),
    decreases m,
{
    if m >= 10 {
        push_digits(m / 10, out);
    }
    out.push(digit(m % 10));
}

/// The decimal text of `n`.
pub fn i64_to_decimal(n: i64) -> (r: Vec<char>)
    ensures
        r@ == decimal_text(n as int),
{
    let mut out: Vec<char> = Vec::new();
    if n < 0 {
        out.push('-');
        let wide: i128 = n as i128;
        let mag: u64 = (0 - wide) as u64;
        push_digits(mag, &mut out);
    } else {
        push_digits(n as u64, &mut out);
    }
    out
}

} // verus!
