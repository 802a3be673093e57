use vstd::prelude::*;
use vstd::string::StrSliceExecFns;

verus! {

/// Unicode `White_Space`: the characters that `char::is_whitespace` accepts.
pub open spec fn is_ws(c: char) -> bool {
    let n = c as u32;
    ||| 0x9 <= n <= 0xd
    ||| n == 0x20
    ||| n == 0x85
    ||| n == 0xa0
    ||| n == 0x1680
    ||| 0x2000 <= n <= 0x200a
    ||| n == 0x2028
    ||| n == 0x2029
    ||| n == 0x202f
    ||| n == 0x205f
    ||| n == 0x3000
}

/// `s` without its leading white space.
pub open spec fn trim_start(s: Seq<char>) -> Seq<char>
    decreases s.len(),
{
    if s.len() > 0 && is_ws(s[0]) {
        trim_start(s.drop_first())
    } else {
        s
    }
}

/// `s` without its trailing white space.
pub open spec fn trim_end(s: Seq<char>) -> Seq<char>
    decreases s.len(),
{
    if s.len() > 0 && is_ws(s.last()) {
        trim_end(s.drop_last())
    } else {
        s
    }
}

/// `s` without leading and trailing white space (what `str::trim` returns).
pub open spec fn trim(s: Seq<char>) -> Seq<char> {
    trim_end(trim_start(s))
}

/// `s` holds nothing but white space.
pub open spec fn is_blank(s: Seq<char>) -> bool {
    trim(s).len() == 0
}

/// Each white-space character that does not follow another becomes one space;
/// the others are dropped. Applied to a trimmed text, this joins its words with
/// single spaces.
pub open spec fn squeeze(s: Seq<char>) -> Seq<char>
    decreases s.len(),
{
    if s.len() == 0 {
        s
    } else if !is_ws(s.last()) {
        squeeze(s.drop_last()).push(s.last())
    } else if s.len() >= 2 && is_ws(s[s.len() - 2]) {
        squeeze(s.drop_last())
    } else {
        squeeze(s.drop_last()).push(' ')
    }
}

/// The words of `s` joined by single spaces (`split_whitespace` joined by `" "`).
pub open spec fn collapse_ws(s: Seq<char>) -> Seq<char> {
    squeeze(trim(s))
}

/// Number of characters of `s` before its first line feed (all of them if it has none).
pub open spec fn line_len(s: Seq<char>) -> nat
    decreases s.len(),
{
    if s.len() == 0 || s[0] == '\n' {
        0
    } else {
        1 + line_len(s.drop_first())
    }
}

proof fn lemma_trim_start_front(s: Seq<char>)
    ensures
        trim_start(s).len() == 0 || !is_ws(trim_start(s)[0]),
    decreases s.len(),
{
    if s.len() > 0 && is_ws(s[0]) {
        lemma_trim_start_front(s.drop_first());
    }
}

proof fn lemma_trim_end_back(s: Seq<char>)
    ensures
        trim_end(s).len() == 0 || !is_ws(trim_end(s).last()),
    decreases s.len(),
{
    if s.len() > 0 && is_ws(s.last()) {
        lemma_trim_end_back(s.drop_last());
    }
}

proof fn lemma_trim_end_prefix(s: Seq<char>)
    ensures
        trim_end(s).len() <= s.len(),
        trim_end(s) == s.take(trim_end(s).len() as int),
    decreases s.len(),
{
    if s.len() > 0 && is_ws(s.last()) {
        lemma_trim_end_prefix(s.drop_last());
        let k = trim_end(s).len() as int;
        assert(s.drop_last().take(k) == s.take(k));
    } else {
        assert(s.take(s.len() as int) == s);
    }
}

/// Trimming a trimmed text changes nothing.
pub proof fn lemma_trim_idempotent(s: Seq<char>)
    ensures
        trim(trim(s)) == trim(s),
{
    let t = trim_start(s);
    let u = trim_end(t);
    lemma_trim_start_front(s);
    lemma_trim_end_prefix(t);
    lemma_trim_end_back(t);
    if u.len() > 0 {
        assert(u[0] == t[0]);
    }
    assert(trim_start(u) == u);
    assert(trim_end(u) == u);
}

/// Every character of `x` is a space or not white space, and no two white-space characters
/// are next to each other.
pub open spec fn single_spaced(x: Seq<char>) -> bool {
    &&& forall|i: int| 0 <= i < x.len() ==> #[trigger] x[i] == ' ' || !is_ws(x[i])
    &&& forall|i: int, j: int| 0 <= i && j == i + 1 && j < x.len() ==> !(is_ws(#[trigger] x[i]) && is_ws(#[trigger] x[j]))
}

/// `x` is text whose words are joined by single spaces, with no white space around it.
pub open spec fn is_clean(x: Seq<char>) -> bool {
    &&& x.len() > 0
    &&& !is_ws(x[0])
    &&& !is_ws(x.last())
    &&& single_spaced(x)
}

proof fn lemma_squeeze_shape(x: Seq<char>)
    ensures
        single_spaced(squeeze(x)),
        x.len() > 0 ==> squeeze(x).len() > 0 && is_ws(squeeze(x).last()) == is_ws(x.last()),
        x.len() > 0 && !is_ws(x[0]) ==> squeeze(x)[0] == x[0],
        squeeze(x).len() <= x.len(),
    decreases x.len(),
{
    if x.len() > 0 {
        let p = x.drop_last();
        lemma_squeeze_shape(p);
        let q = squeeze(p);
        if x.len() >= 2 {
            assert(p.last() == x[x.len() - 2]);
            assert(p[0] == x[0]);
        }
        if !is_ws(x.last()) {
            let r = q.push(x.last());
            assert forall|i: int| 0 <= i < r.len() implies #[trigger] r[i] == ' ' || !is_ws(r[i]) by {
                if i < q.len() {
                    assert(r[i] == q[i]);
                }
            }
            assert forall|i: int, j: int| 0 <= i && j == i + 1 && j < r.len() implies !(is_ws(#[trigger] r[i]) && is_ws(#[trigger] r[j])) by {
                if j < q.len() {
                    assert(r[i] == q[i] && r[j] == q[j]);
                }
            }
        } else if x.len() >= 2 && is_ws(x[x.len() - 2]) {
        } else {
            let r = q.push(' ');
            assert forall|i: int| 0 <= i < r.len() implies #[trigger] r[i] == ' ' || !is_ws(r[i]) by {
                if i < q.len() {
                    assert(r[i] == q[i]);
                }
            }
            assert forall|i: int, j: int| 0 <= i && j == i + 1 && j < r.len() implies !(is_ws(#[trigger] r[i]) && is_ws(#[trigger] r[j])) by {
                if j < q.len() {
                    assert(r[i] == q[i] && r[j] == q[j]);
                } else {
                    assert(r[i] == q.last());
                }
            }
        }
    }
}

proof fn lemma_squeeze_fixed(x: Seq<char>)
    requires
        single_spaced(x),
        x.len() == 0 || !is_ws(x[0]),
    ensures
        squeeze(x) == x,
    decreases x.len(),
{
    if x.len() > 0 {
        let p = x.drop_last();
        assert forall|i: int| 0 <= i < p.len() implies #[trigger] p[i] == ' ' || !is_ws(p[i]) by {
            assert(p[i] == x[i]);
        }
        assert forall|i: int, j: int| 0 <= i && j == i + 1 && j < p.len() implies !(is_ws(#[trigger] p[i]) && is_ws(#[trigger] p[j])) by {
            assert(p[i] == x[i] && p[j] == x[j]);
        }
        if p.len() > 0 {
            assert(p[0] == x[0]);
        }
        lemma_squeeze_fixed(p);
        let n = x.len() as int;
        assert(x[n - 1] == ' ' || !is_ws(x[n - 1]));
        if is_ws(x.last()) {
            assert(n >= 2);
            assert(!(is_ws(x[n - 2]) && is_ws(x[n - 1])));
        }
        assert(p.push(x.last()) == x);
    }
}

proof fn lemma_trim_nonblank(s: Seq<char>)
    requires
        !is_blank(s),
    ensures
        trim_start(s).len() > 0,
        !is_ws(trim_start(s)[0]),
        !is_ws(trim(s)[0]),
        !is_ws(trim(s).last()),
{
    let t = trim_start(s);
    lemma_trim_start_front(s);
    lemma_trim_end_prefix(t);
    lemma_trim_end_back(t);
    assert(t.len() > 0);
    assert(trim(s)[0] == t[0]);
}

proof fn lemma_line_len_bound(s: Seq<char>)
    ensures
        line_len(s) <= s.len(),
        forall|k: int| 0 <= k < line_len(s) ==> #[trigger] s[k] != '\n',
    decreases s.len(),
{
    if s.len() > 0 && s[0] != '\n' {
        let t = s.drop_first();
        lemma_line_len_bound(t);
        assert forall|k: int| 0 <= k < line_len(s) implies #[trigger] s[k] != '\n' by {
            if k > 0 {
                assert(s[k] == t[k - 1]);
            }
        }
    }
}

/// The words of the first text-holding line of a text that is not blank, joined by single
/// spaces, form clean text; a clean text is its own first line and is left as it is by
/// collapsing its white space.
pub proof fn lemma_first_line_clean(s: Seq<char>)
    requires
        !is_blank(s),
    ensures
        is_clean(collapse_ws(trim_start(s).take(line_len(trim_start(s)) as int))),
{
    let rest = trim_start(s);
    lemma_trim_nonblank(s);
    lemma_line_len_bound(rest);
    assert(rest[0] != '\n');
    assert(line_len(rest) >= 1);
    let line = rest.take(line_len(rest) as int);
    assert(line[0] == rest[0]);
    assert(!is_blank(line)) by {
        lemma_trim_start_skip(line, 0);
        assert(line.subrange(0, line.len() as int) == line);
        assert(trim_start(line) == line);
        lemma_trim_end_back(line);
        lemma_trim_end_prefix(line);
        if trim_end(line).len() == 0 {
            lemma_trim_end_cut_all(line);
        }
    }
    lemma_trim_nonblank(line);
    let z = trim(line);
    lemma_squeeze_shape(z);
}

proof fn lemma_trim_end_cut_all(s: Seq<char>)
    requires
        s.len() > 0,
        !is_ws(s[0]),
    ensures
        trim_end(s).len() > 0,
    decreases s.len(),
{
    if is_ws(s.last()) {
        let p = s.drop_last();
        assert(p.len() > 0);
        assert(p[0] == s[0]);
        lemma_trim_end_cut_all(p);
    }
}

/// Clean text is its own first line, and collapsing its white space leaves it as it is.
pub proof fn lemma_clean_is_own_first_line(x: Seq<char>)
    requires
        is_clean(x),
    ensures
        trim_start(x) == x,
        line_len(x) == x.len(),
        collapse_ws(x.take(x.len() as int)) == x,
        !is_blank(x),
{
    assert(trim_start(x) == x);
    assert(trim_end(x) == x);
    assert forall|k: int| 0 <= k < x.len() implies #[trigger] x[k] != '\n' by {
        assert(x[k] == ' ' || !is_ws(x[k]));
    }
    lemma_line_len(x, x.len() as int);
    assert(x.take(x.len() as int) == x);
    lemma_squeeze_fixed(x);
}

/// `char::is_whitespace`.
pub fn is_whitespace(c: char) -> (b: bool)
    ensures
        b == is_ws(c),
{
    let n = c as u32;
    (0x9 <= n && n <= 0xd) || n == 0x20 || n == 0x85 || n == 0xa0 || n == 0x1680 || (0x2000 <= n
        && n <= 0x200a) || n == 0x2028 || n == 0x2029 || n == 0x202f || n == 0x205f || n == 0x3000
}

/// The characters of `s`, in order.
pub fn chars_of(s: &str) -> (v: Vec<char>)
    ensures
        v@ == s@,
{
    let mut v: Vec<char> = Vec::new();
    for c in it: s.chars()
        invariant
            v@ == it.seq().take(it.index()),
    {
        v.push(c);
    }
    v
}

/// `String::push`.
#[verifier::external_body]
pub(crate) fn push_char(s: &mut String, c: char)
    ensures
        final(s)@ == old(s)@.push(c),
{
    s.push(c);
}

/// A string of the characters `v[lo..hi]`.
pub fn string_of(v: &Vec<char>, lo: usize, hi: usize) -> (s: String)
    requires
        lo <= hi <= v.len(),
    ensures
        s@ == v@.subrange(lo as int, hi as int),
{
    let mut s = String::new();
    let mut i = lo;
    while i < hi
        invariant
            lo <= i <= hi <= v.len(),
            s@ == v@.subrange(lo as int, i as int),
        decreases hi - i,
    {
        push_char(&mut s, v[i]);
        assert(v@.subrange(lo as int, i + 1) == v@.subrange(lo as int, i as int).push(v@[i as int]));
        i += 1;
    }
    s
}

proof fn lemma_trim_start_skip(s: Seq<char>, i: int)
    requires
        0 <= i <= s.len(),
        forall|k: int| 0 <= k < i ==> is_ws(#[trigger] s[k]),
    ensures
        trim_start(s) == trim_start(s.subrange(i, s.len() as int)),
    decreases i,
{
    if i > 0 {
        assert(is_ws(s[0]));
        let t = s.drop_first();
        assert forall|k: int| 0 <= k < i - 1 implies is_ws(#[trigger] t[k]) by {
            assert(t[k] == s[k + 1]);
        }
        lemma_trim_start_skip(t, i - 1);
        assert(t.subrange(i - 1, t.len() as int) == s.subrange(i, s.len() as int));
    } else {
        assert(s.subrange(0, s.len() as int) == s);
    }
}

proof fn lemma_trim_end_cut(s: Seq<char>, j: int)
    requires
        0 <= j <= s.len(),
        forall|k: int| j <= k < s.len() ==> is_ws(#[trigger] s[k]),
    ensures
        trim_end(s) == trim_end(s.subrange(0, j)),
    decreases s.len() - j,
{
    if j < s.len() {
        assert(is_ws(s[s.len() - 1]));
        let t = s.drop_last();
        assert forall|k: int| j <= k < t.len() implies is_ws(#[trigger] t[k]) by {
            assert(t[k] == s[k]);
        }
        lemma_trim_end_cut(t, j);
        assert(t.subrange(0, j) == s.subrange(0, j));
    } else {
        assert(s.subrange(0, j) == s);
    }
}

/// Index of the first character of `v[lo..hi]` that is not white space (`hi` if none).
fn skip_ws(v: &Vec<char>, lo: usize, hi: usize) -> (i: usize)
    requires
        lo <= hi <= v.len(),
    ensures
        lo <= i <= hi,
        forall|k: int| lo <= k < i ==> is_ws(#[trigger] v@[k]),
        i < hi ==> !is_ws(v@[i as int]),
{
    let mut i = lo;
    while i < hi && is_whitespace(v[i])
        invariant
            lo <= i <= hi <= v.len(),
            forall|k: int| lo <= k < i ==> is_ws(#[trigger] v@[k]),
        decreases hi - i,
    {
        i += 1;
    }
    i
}

/// Bounds `(a, b)` of the trimmed text of `v[lo..hi]`: `v[a..b]` is that text.
pub fn trim_range(v: &Vec<char>, lo: usize, hi: usize) -> (r: (usize, usize))
    requires
        lo <= hi <= v.len(),
    ensures
        lo <= r.0 <= r.1 <= hi,
        v@.subrange(r.0 as int, r.1 as int) == trim(v@.subrange(lo as int, hi as int)),
        trim_start(v@.subrange(lo as int, hi as int)) == v@.subrange(r.0 as int, hi as int),
{
    let ghost s = v@.subrange(lo as int, hi as int);
    let a = skip_ws(v, lo, hi);
    proof {
        assert forall|k: int| 0 <= k < a - lo implies is_ws(#[trigger] s[k]) by {
            assert(s[k] == v@[lo + k]);
        }
        lemma_trim_start_skip(s, a - lo);
        let t = s.subrange(a - lo, s.len() as int);
        assert(t == v@.subrange(a as int, hi as int));
        if t.len() > 0 {
            assert(t[0] == v@[a as int]);
        }
        assert(trim_start(t) == t);
    }
    let mut b = hi;
    while b > a && is_whitespace(v[b - 1])
        invariant
            lo <= a <= b <= hi <= v.len(),
            forall|k: int| b <= k < hi ==> is_ws(#[trigger] v@[k]),
        decreases b,
    {
        b -= 1;
    }
    proof {
        let t = v@.subrange(a as int, hi as int);
        assert forall|k: int| b - a <= k < t.len() implies is_ws(#[trigger] t[k]) by {
            assert(t[k] == v@[a + k]);
        }
        lemma_trim_end_cut(t, b - a);
        assert(t.subrange(0, b - a) == v@.subrange(a as int, b as int));
        let u = v@.subrange(a as int, b as int);
        if u.len() > 0 {
            assert(u.last() == v@[b - 1]);
        }
    }
    (a, b)
}

proof fn lemma_line_len(s: Seq<char>, j: int)
    requires
        0 <= j <= s.len(),
        forall|k: int| 0 <= k < j ==> #[trigger] s[k] != '\n',
        j == s.len() || s[j] == '\n',
    ensures
        line_len(s) == j,
    decreases j,
{
    if j > 0 {
        assert(s[0] != '\n');
        let t = s.drop_first();
        assert forall|k: int| 0 <= k < j - 1 implies #[trigger] t[k] != '\n' by {
            assert(t[k] == s[k + 1]);
        }
        lemma_line_len(t, j - 1);
    }
}

/// Index of the first line feed in `v[lo..]` (`v.len()` if none): `v[lo..end]` is the rest
/// of the line that `lo` is in.
pub fn line_end(v: &Vec<char>, lo: usize) -> (end: usize)
    requires
        lo <= v.len(),
    ensures
        lo <= end <= v.len(),
        end - lo == line_len(v@.subrange(lo as int, v.len() as int)),
{
    let mut e = lo;
    while e < v.len() && v[e] != '\n'
        invariant
            lo <= e <= v.len(),
            forall|k: int| lo <= k < e ==> #[trigger] v@[k] != '\n',
        decreases v.len() - e,
    {
        e += 1;
    }
    proof {
        let s = v@.subrange(lo as int, v.len() as int);
        assert forall|k: int| 0 <= k < e - lo implies #[trigger] s[k] != '\n' by {
            assert(s[k] == v@[lo + k]);
        }
        if e < v.len() {
            assert(s[e - lo] == v@[e as int]);
        }
        lemma_line_len(s, e - lo);
    }
    e
}

/// The words of `v[lo..hi]` joined by single spaces.
pub fn collapse_range(v: &Vec<char>, lo: usize, hi: usize) -> (out: Vec<char>)
    requires
        lo <= hi <= v.len(),
    ensures
        out@ == collapse_ws(v@.subrange(lo as int, hi as int)),
{
    let (a, b) = trim_range(v, lo, hi);
    let mut out: Vec<char> = Vec::new();
    let mut i = a;
    assert(v@.subrange(a as int, a as int).len() == 0);
    while i < b
        invariant
            a <= i <= b <= v.len(),
            out@ == squeeze(v@.subrange(a as int, i as int)),
        decreases b - i,
    {
        let c = v[i];
        let ghost s = v@.subrange(a as int, i + 1);
        assert(s.drop_last() == v@.subrange(a as int, i as int));
        assert(s.last() == c);
        if !is_whitespace(c) {
            out.push(c);
        } else if i > a && is_whitespace(v[i - 1]) {
            assert(s[s.len() - 2] == v@[i - 1]);
        } else {
            if i > a {
                assert(s[s.len() - 2] == v@[i - 1]);
            }
            out.push(' ');
        }
        i += 1;
    }
    out
}

/// `str::trim`, as an owned string.
pub fn trim_str(s: &str) -> (r: String)
    ensures
        r@ == trim(s@),
{
    let v = chars_of(s);
    let (lo, hi) = trim_range(&v, 0, v.len());
    assert(v@.subrange(0, v.len() as int) == v@);
    string_of(&v, lo, hi)
}

/// `str::trim(s).is_empty()`.
pub fn is_blank_str(s: &str) -> (b: bool)
    ensures
        b == is_blank(s@),
{
    let v = chars_of(s);
    let (lo, hi) = trim_range(&v, 0, v.len());
    assert(v@.subrange(0, v.len() as int) == v@);
    lo == hi
}

/// `a == b` on string slices.
pub fn str_eq(a: &str, b: &str) -> (r: bool)
    ensures
        r == (a@ == b@),
{
    let va = chars_of(a);
    let vb = chars_of(b);
    if va.len() != vb.len() {
        return false;
    }
    let mut i: usize = 0;
    while i < va.len()
        invariant
            va@ == a@,
            vb@ == b@,
            va.len() == vb.len(),
            i <= va.len(),
            forall|k: int| 0 <= k < i ==> va@[k] == vb@[k],
        decreases va.len() - i,
    {
        if va[i] != vb[i] {
            assert(va@[i as int] != vb@[i as int]);
            return false;
        }
        i += 1;
    }
    assert(va@ == vb@);
    true
}

/// The number of characters of `s`.
pub fn char_count(s: &str) -> (n: usize)
    ensures
        n == s@.len(),
{
    s.unicode_len()
}

/// The concatenation `a + b`.
pub fn concat2(a: &str, b: &str) -> (r: String)
    ensures
        r@ == a@ + b@,
{
    String::from_str(a).concat(b)
}

/// The concatenation `a + b + c`.
pub fn concat3(a: &str, b: &str, c: &str) -> (r: String)
    ensures
        r@ == a@ + b@ + c@,
{
    String::from_str(a).concat(b).concat(c)
}

/// The decimal digit `d` (for `d < 10`).
pub open spec fn digit_char(d: nat) -> char {
    if d == 0 { '0' }
    else if d == 1 { '1' }
    else if d == 2 { '2' }
    else if d == 3 { '3' }
    else if d == 4 { '4' }
    else if d == 5 { '5' }
    else if d == 6 { '6' }
    else if d == 7 { '7' }
    else if d == 8 { '8' }
    else { '9' }
}

/// The decimal notation of `n`, without leading zeros.
pub open spec fn decimal(n: nat) -> Seq<char>
    decreases n,
{
    if n < 10 {
        seq![digit_char(n)]
    } else {
        decimal(n / 10).push(digit_char(n % 10))
    }
}

fn push_decimal(s: &mut String, n: u64)
    ensures
        final(s)@ == old(s)@ + decimal(n as nat),
    decreases n,
{
    if n >= 10 {
        push_decimal(s, n / 10);
    }
    let d = n % 10;
    let c = if d == 0 { '0' }
        else if d == 1 { '1' }
        else if d == 2 { '2' }
        else if d == 3 { '3' }
        else if d == 4 { '4' }
        else if d == 5 { '5' }
        else if d == 6 { '6' }
        else if d == 7 { '7' }
        else if d == 8 { '8' }
        else { '9' };
    push_char(s, c);
}

/// The decimal notation of `n` (what `Display` writes for an unsigned integer).
pub fn decimal_string(n: u64) -> (s: String)
    ensures
        s@ == decimal(n as nat),
{
    let mut s = String::new();
    push_decimal(&mut s, n);
    s
}

/// `c` with an ASCII capital letter turned into its small letter.
pub open spec fn ascii_lower(c: char) -> char {
    if 'A' <= c <= 'Z' { ((c as u32) + 32) as char } else { c }
}

/// `a` and `b` are equal once ASCII letters are compared without case.
pub open spec fn eq_ignore_ascii_case(a: Seq<char>, b: Seq<char>) -> bool {
    a.len() == b.len() && forall|i: int| 0 <= i < a.len() ==> ascii_lower(#[trigger] a[i]) == ascii_lower(b[i])
}

fn to_ascii_lower(c: char) -> (r: char)
    ensures
        r == ascii_lower(c),
{
    if 'A' <= c && c <= 'Z' {
        let n = (c as u32 as u8) + 32;
        n as char
    } else {
        c
    }
}

/// `str::eq_ignore_ascii_case`.
pub fn str_eq_ignore_ascii_case(a: &str, b: &str) -> (r: bool)
    ensures
        r == eq_ignore_ascii_case(a@, b@),
{
    let va = chars_of(a);
    let vb = chars_of(b);
    if va.len() != vb.len() {
        return false;
    }
    let mut i: usize = 0;
    while i < va.len()
        invariant
            va@ == a@,
            vb@ == b@,
            va.len() == vb.len(),
            i <= va.len(),
            forall|k: int| 0 <= k < i ==> ascii_lower(#[trigger] va@[k]) == ascii_lower(vb@[k]),
        decreases va.len() - i,
    {
        if to_ascii_lower(va[i]) != to_ascii_lower(vb[i]) {
            assert(ascii_lower(va@[i as int]) != ascii_lower(vb@[i as int]));
            return false;
        }
        i += 1;
    }
    true
}

/// A new string holding `s`.
pub fn owned(s: &str) -> (r: String)
    ensures
        r@ == s@,
{
    String::from_str(s)
}

} // verus!
