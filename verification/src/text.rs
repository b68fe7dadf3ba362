use vstd::prelude::*;
use vstd::string::StrSliceExecFns;
use vstd::string::StringExecFns;

verus! {

/// The decimal digit that stands for `d`, for `d` below ten.
pub open spec fn digit_char(d: nat) -> char {
    if d == 0 {
        '0'
    } else if d == 1 {
        '1'
    } else if d == 2 {
        '2'
    } else if d == 3 {
        '3'
    } else if d == 4 {
        '4'
    } else if d == 5 {
        '5'
    } else if d == 6 {
        '6'
    } else if d == 7 {
        '7'
    } else if d == 8 {
        '8'
    } else {
        '9'
    }
}

/// The decimal numeral of `n`, most significant digit first, without leading
/// zeros (the numeral of zero is `"0"`).
pub open spec fn decimal(n: nat) -> Seq<char>
    decreases n,
{
    if n < 10 {
        seq![digit_char(n)]
    } else {
        decimal(n / 10).push(digit_char(n % 10))
    }
}

fn digit_str(d: u64) -> (s: &'static str)
    requires
        d < 10,
    ensures
        s@ == seq![digit_char(d as nat)],
{
    proof {
        reveal_strlit("0");
        reveal_strlit("1");
        reveal_strlit("2");
        reveal_strlit("3");
        reveal_strlit("4");
        reveal_strlit("5");
        reveal_strlit("6");
        reveal_strlit("7");
        reveal_strlit("8");
        reveal_strlit("9");
    }
    if d == 0 {
        "0"
    } else if d == 1 {
        "1"
    } else if d == 2 {
        "2"
    } else if d == 3 {
        "3"
    } else if d == 4 {
        "4"
    } else if d == 5 {
        "5"
    } else if d == 6 {
        "6"
    } else if d == 7 {
        "7"
    } else if d == 8 {
        "8"
    } else {
        "9"
    }
}

/// Writes `n` as a decimal numeral.
pub fn u64_to_string(n: u64) -> (s: String)
    ensures
        s@ == decimal(n as nat),
    decreases n,
{
    if n < 10 {
        String::from_str(digit_str(n))
    } else {
        let mut s = u64_to_string(n / 10);
        s.append(digit_str(n % 10));
        s
    }
}

/// The characters of `s`, in order.
pub fn to_chars(s: &str) -> (v: Vec<char>)
    ensures
        v@ == s@,
{
    let mut v: Vec<char> = Vec::new();
    for c in it: s.chars()
        invariant
            it.seq() == s@,
            v@ == it.seq().take(it.index() as int),
    {
        v.push(c);
    }
    v
}


/// Whether `c` is white space: the code points that carry the Unicode
/// property White_Space.
pub open spec fn is_space(c: char) -> bool {
    let u = c as u32;
    ||| 0x09 <= u <= 0x0d
    ||| u == 0x20
    ||| u == 0x85
    ||| u == 0xa0
    ||| u == 0x1680
    ||| 0x2000 <= u <= 0x200a
    ||| u == 0x2028
    ||| u == 0x2029
    ||| u == 0x202f
    ||| u == 0x205f
    ||| u == 0x3000
}

/// Decides [`is_space`].
pub fn is_whitespace(c: char) -> (b: bool)
    ensures
        b == is_space(c),
{
    let u: u32 = c as u32;
    (0x09 <= u && u <= 0x0d) || u == 0x20 || u == 0x85 || u == 0xa0 || u == 0x1680 || (0x2000 <= u
        && u <= 0x200a) || u == 0x2028 || u == 0x2029 || u == 0x202f || u == 0x205f || u == 0x3000
}

/// `s` without the white space at its front.
pub open spec fn trim_start(s: Seq<char>) -> Seq<char>
    decreases s.len(),
{
    if s.len() > 0 && is_space(s[0]) {
        trim_start(s.drop_first())
    } else {
        s
    }
}

/// `s` without the white space at its end.
pub open spec fn trim_end(s: Seq<char>) -> Seq<char>
    decreases s.len(),
{
    if s.len() > 0 && is_space(s.last()) {
        trim_end(s.drop_last())
    } else {
        s
    }
}

/// `s` without the white space at either end.
pub open spec fn trimmed(s: Seq<char>) -> Seq<char> {
    trim_end(trim_start(s))
}

/// A half-open range of positions in a text.
#[derive(Clone, Copy, Debug, PartialEq, Eq)]
pub struct Span {
    pub lo: usize,
    pub hi: usize,
}

impl Span {
    /// Whether the span lies inside a text of `len` characters.
    pub open spec fn within(self, len: nat) -> bool {
        self.lo <= self.hi <= len
    }

    /// The part of `s` that the span covers.
    pub open spec fn of(self, s: Seq<char>) -> Seq<char> {
        s.subrange(self.lo as int, self.hi as int)
    }
}

/// Narrows `span` until no white space is left at either end of it.
pub fn trim_span(v: &Vec<char>, span: Span) -> (r: Span)
    requires
        span.within(v@.len()),
    ensures
        r.within(v@.len()),
        span.lo <= r.lo,
        r.hi <= span.hi,
        r.of(v@) == trimmed(span.of(v@)),
{
    let mut lo: usize = span.lo;
    while lo < span.hi && is_whitespace(v[lo])
        invariant
            span.within(v@.len()),
            span.lo <= lo <= span.hi,
            trim_start(span.of(v@)) == trim_start(v@.subrange(lo as int, span.hi as int)),
        decreases span.hi - lo,
    {
        proof {
            let cur = v@.subrange(lo as int, span.hi as int);
            assert(cur.drop_first() =~= v@.subrange(lo + 1, span.hi as int));
        }
        lo = lo + 1;
    }
    let mut hi: usize = span.hi;
    while lo < hi && is_whitespace(v[hi - 1])
        invariant
            span.within(v@.len()),
            span.lo <= lo <= hi <= span.hi,
            trim_start(span.of(v@)) == v@.subrange(lo as int, span.hi as int),
            trimmed(span.of(v@)) == trim_end(v@.subrange(lo as int, hi as int)),
        decreases hi - lo,
    {
        proof {
            let cur = v@.subrange(lo as int, hi as int);
            assert(cur.drop_last() =~= v@.subrange(lo as int, hi - 1));
        }
        hi = hi - 1;
    }
    Span { lo, hi }
}

/// Whether `d` stands in `s` at position `i`.
pub open spec fn occurs_at(s: Seq<char>, d: Seq<char>, i: int) -> bool {
    &&& 0 <= i
    &&& i + d.len() <= s.len()
    &&& s.subrange(i, i + d.len()) == d
}

/// The pieces of `s` from position `start` on, cut at each occurrence of the
/// delimiter `d` found scanning from position `p` to the right; occurrences do
/// not overlap, and the leftmost one wins.
pub open spec fn split_from(s: Seq<char>, d: Seq<char>, start: int, p: int) -> Seq<Seq<char>>
    decreases s.len() - p,
{
    if d.len() == 0 || p < 0 || p + d.len() > s.len() {
        seq![s.subrange(start, s.len() as int)]
    } else if occurs_at(s, d, p) {
        seq![s.subrange(start, p)] + split_from(s, d, p + d.len(), p + d.len())
    } else {
        split_from(s, d, start, p + 1)
    }
}

/// The pieces that `s` falls into when it is cut at each occurrence of the
/// delimiter `d`: one more piece than there are occurrences.
pub open spec fn split(s: Seq<char>, d: Seq<char>) -> Seq<Seq<char>> {
    split_from(s, d, 0, 0)
}

/// The parts of `s` that the spans cover, in order.
pub open spec fn spans_of(spans: Seq<Span>, s: Seq<char>) -> Seq<Seq<char>> {
    Seq::new(spans.len(), |i: int| spans[i].of(s))
}

/// Whether the delimiter `d` stands in `v` at position `p`.
fn matches_at(v: &Vec<char>, d: &Vec<char>, p: usize, hi: usize) -> (b: bool)
    requires
        hi <= v@.len(),
        p + d@.len() <= hi,
    ensures
        b == (v@.subrange(p as int, p + d@.len()) == d@),
{
    let mut k: usize = 0;
    while k < d.len()
        invariant
            hi <= v@.len(),
            p + d@.len() <= hi,
            k <= d@.len(),
            v@.subrange(p as int, p + k) == d@.take(k as int),
        decreases d@.len() - k,
    {
        if v[p + k] != d[k] {
            proof {
                let whole = v@.subrange(p as int, p + d@.len());
                assert(whole[k as int] != d@[k as int]);
            }
            return false;
        }
        proof {
            assert(v@.subrange(p as int, p + k + 1) =~= v@.subrange(p as int, p + k).push(
                v@[p + k],
            ));
            assert(d@.take(k + 1) =~= d@.take(k as int).push(d@[k as int]));
        }
        k = k + 1;
    }
    proof {
        assert(d@.take(d@.len() as int) =~= d@);
    }
    true
}

/// Cuts `span` at each occurrence of the delimiter `d`.
pub fn split_span(v: &Vec<char>, span: Span, d: &Vec<char>) -> (r: Vec<Span>)
    requires
        span.within(v@.len()),
        d@.len() > 0,
    ensures
        spans_of(r@, v@) == split(span.of(v@), d@),
        forall|i: int| 0 <= i < r@.len() ==> (#[trigger] r@[i]).within(v@.len()),
        forall|i: int| 0 <= i < r@.len() ==> span.lo <= (#[trigger] r@[i]).lo && r@[i].hi <= span.hi,
{
    let ghost s = span.of(v@);
    let mut r: Vec<Span> = Vec::new();
    let mut start: usize = span.lo;
    let mut p: usize = span.lo;
    while d.len() <= span.hi - p
        invariant
            span.within(v@.len()),
            d@.len() > 0,
            s == span.of(v@),
            span.lo <= start <= p <= span.hi,
            split(s, d@) == spans_of(r@, v@) + split_from(s, d@, start - span.lo, p - span.lo),
            forall|i: int| 0 <= i < r@.len() ==> (#[trigger] r@[i]).within(v@.len()),
            forall|i: int|
                0 <= i < r@.len() ==> span.lo <= (#[trigger] r@[i]).lo && r@[i].hi <= span.hi,
        decreases span.hi - p,
    {
        let hit = matches_at(v, d, p, span.hi);
        proof {
            assert(s.subrange(p - span.lo, p - span.lo + d@.len()) =~= v@.subrange(
                p as int,
                p + d@.len(),
            ));
            assert(hit == occurs_at(s, d@, p - span.lo));
        }
        if hit {
            let ghost before = r@;
            r.push(Span { lo: start, hi: p });
            proof {
                assert(s.subrange(start - span.lo, p - span.lo) =~= v@.subrange(
                    start as int,
                    p as int,
                ));
                assert(spans_of(r@, v@) =~= spans_of(before, v@) + seq![
                    s.subrange(start - span.lo, p - span.lo),
                ]);
            }
            p = p + d.len();
            start = p;
        } else {
            p = p + 1;
        }
    }
    let ghost before = r@;
    r.push(Span { lo: start, hi: span.hi });
    proof {
        assert(s.subrange(start - span.lo, s.len() as int) =~= v@.subrange(
            start as int,
            span.hi as int,
        ));
        assert(spans_of(r@, v@) =~= spans_of(before, v@) + seq![
            s.subrange(start - span.lo, s.len() as int),
        ]);
    }
    r
}

/// The text that `span` covers, as a string of its own.
pub fn span_text(content: &str, span: Span) -> (r: String)
    requires
        span.within(content@.len()),
    ensures
        r@ == span.of(content@),
{
    String::from_str(content.substring_char(span.lo, span.hi))
}

/// The text `s` as the `Debug` formatting of `str` writes it: between double
/// quotes, with what cannot stand there as it is written as an escape.
pub uninterp spec fn quoted(s: Seq<char>) -> Seq<char>;

/// Formats a `str` with `{:?}`, which writes it between double quotes and
/// escapes what cannot stand there as it is; the outcome depends on the text
/// alone.
#[verifier::external_body]
pub(crate) fn debug_format(s: &str) -> (r: String)
    ensures
        r@ == quoted(s@),
{
    format!("{:?}", s)
}

} // verus!
