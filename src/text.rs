//! Character-level text helpers: trimming, line splitting, substring search,
//! decimal numbers. Text is handled as sequences of `char`.
use vstd::prelude::*;
use vstd::string::*;

verus! {

/// Characters with the Unicode `White_Space` property, as `char::is_whitespace` reports them.
pub open spec fn is_ws(c: char) -> bool {
    c == '\t' || c == '\n' || c == '\x0B' || c == '\x0C' || c == '\r' || c == ' ' || c == '\u{85}'
        || c == '\u{A0}' || c == '\u{1680}' || ('\u{2000}' <= c && c <= '\u{200A}') || c
        == '\u{2028}' || c == '\u{2029}' || c == '\u{202F}' || c == '\u{205F}' || c == '\u{3000}'
}

pub fn is_whitespace(c: char) -> (r: bool)
    ensures
        r == is_ws(c),
{
    c == '\t' || c == '\n' || c == '\x0B' || c == '\x0C' || c == '\r' || c == ' ' || c == '\u{85}'
        || c == '\u{A0}' || c == '\u{1680}' || ('\u{2000}' <= c && c <= '\u{200A}') || c
        == '\u{2028}' || c == '\u{2029}' || c == '\u{202F}' || c == '\u{205F}' || c == '\u{3000}'
}

pub open spec fn trim_start(s: Seq<char>) -> Seq<char>
    decreases s.len(),
{
    if s.len() > 0 && is_ws(s[0]) {
        trim_start(s.drop_first())
    } else {
        s
    }
}

pub open spec fn trim_end(s: Seq<char>) -> Seq<char>
    decreases s.len(),
{
    if s.len() > 0 && is_ws(s.last()) {
        trim_end(s.drop_last())
    } else {
        s
    }
}

/// Leading and trailing whitespace removed, as `str::trim` does.
pub open spec fn trim(s: Seq<char>) -> Seq<char> {
    trim_end(trim_start(s))
}

/// Copy of `v[lo..hi]`.
pub fn slice_of(v: &Vec<char>, lo: usize, hi: usize) -> (r: Vec<char>)
    requires
        lo <= hi <= v@.len(),
    ensures
        r@ == v@.subrange(lo as int, hi as int),
{
    let mut r: Vec<char> = Vec::new();
    let mut i: usize = lo;
    while i < hi
        invariant
            lo <= i <= hi <= v@.len(),
            r@ == v@.subrange(lo as int, i as int),
        decreases hi - i,
    {
        r.push(v[i]);
        i = i + 1;
        assert(r@ =~= v@.subrange(lo as int, i as int));
    }
    r
}

pub fn trim_chars(v: &Vec<char>) -> (r: Vec<char>)
    ensures
        r@ == trim(v@),
{
    let n = v.len();
    let mut lo: usize = 0;
    assert(v@.subrange(0, n as int) =~= v@);
    while lo < n && is_whitespace(v[lo])
        invariant
            lo <= n == v@.len(),
            trim_start(v@) == trim_start(v@.subrange(lo as int, n as int)),
        decreases n - lo,
    {
        assert(v@.subrange(lo as int, n as int).drop_first() =~= v@.subrange(lo + 1, n as int));
        lo = lo + 1;
    }
    let ghost mid = v@.subrange(lo as int, n as int);
    assert(trim_start(v@) == mid);
    let mut hi: usize = n;
    while hi > lo && is_whitespace(v[hi - 1])
        invariant
            lo <= hi <= n == v@.len(),
            trim_end(mid) == trim_end(v@.subrange(lo as int, hi as int)),
        decreases hi,
    {
        assert(v@.subrange(lo as int, hi as int).drop_last() =~= v@.subrange(
            lo as int,
            hi - 1,
        ));
        hi = hi - 1;
    }
    slice_of(v, lo, hi)
}

/// End of the line that starts at `i`: the index of the next `'\n'`, or the length.
pub open spec fn line_end(s: Seq<char>, i: int) -> int
    decreases s.len() - i,
{
    if i >= s.len() || i < 0 {
        s.len() as int
    } else if s[i] == '\n' {
        i
    } else {
        line_end(s, i + 1)
    }
}

/// A line that ended with a newline loses one trailing carriage return.
pub open spec fn strip_cr(l: Seq<char>) -> Seq<char> {
    if l.len() > 0 && l.last() == '\r' {
        l.drop_last()
    } else {
        l
    }
}

/// The lines of `s` from index `i` on, as `str::lines` splits them.
pub open spec fn lines_from(s: Seq<char>, i: int) -> Seq<Seq<char>>
    decreases s.len() - i,
{
    if i >= s.len() || i < 0 {
        Seq::empty()
    } else {
        let e = line_end(s, i);
        if e >= s.len() || e < i {
            seq![s.subrange(i, s.len() as int)]
        } else {
            seq![strip_cr(s.subrange(i, e))] + lines_from(s, e + 1)
        }
    }
}

pub open spec fn lines_of(s: Seq<char>) -> Seq<Seq<char>> {
    lines_from(s, 0)
}

proof fn lemma_line_end_bounds(s: Seq<char>, i: int)
    requires
        0 <= i <= s.len(),
    ensures
        i <= line_end(s, i) <= s.len(),
        line_end(s, i) < s.len() ==> s[line_end(s, i)] == '\n',
        forall|k: int| i <= k < line_end(s, i) ==> s[k] != '\n',
    decreases s.len() - i,
{
    if i < s.len() && s[i] != '\n' {
        lemma_line_end_bounds(s, i + 1);
    }
}

/// Splits `v` into lines, as `str::lines` does.
pub fn split_lines(v: &Vec<char>) -> (r: Vec<Vec<char>>)
    ensures
        r@.len() == lines_of(v@).len(),
        forall|k: int| 0 <= k < r@.len() ==> #[trigger] r@[k]@ == lines_of(v@)[k],
{
    let n = v.len();
    let mut r: Vec<Vec<char>> = Vec::new();
    let ghost done: Seq<Seq<char>> = Seq::empty();
    let mut i: usize = 0;
    while i < n
        invariant
            i <= n == v@.len(),
            r@.len() == done.len(),
            forall|k: int| 0 <= k < r@.len() ==> #[trigger] r@[k]@ == done[k],
            lines_of(v@) == done + lines_from(v@, i as int),
        decreases n - i,
    {
        let mut j: usize = i;
        while j < n && v[j] != '\n'
            invariant
                i <= j <= n == v@.len(),
                line_end(v@, i as int) == line_end(v@, j as int),
            decreases n - j,
        {
            j = j + 1;
        }
        proof {
            lemma_line_end_bounds(v@, i as int);
        }
        let mut line = slice_of(v, i, j);
        if j < n && j > i && v[j - 1] == '\r' {
            line.pop();
        }
        let ghost l = line@;
        r.push(line);
        if j < n {
            proof {
                assert(l =~= strip_cr(v@.subrange(i as int, j as int)));
                assert(lines_from(v@, i as int) == seq![l] + lines_from(v@, j + 1));
                done = done.push(l);
                assert(lines_of(v@) =~= done + lines_from(v@, j + 1));
            }
            i = j + 1;
        } else {
            proof {
                assert(lines_from(v@, i as int) == seq![l]);
                done = done.push(l);
                assert(lines_of(v@) =~= done + lines_from(v@, n as int));
            }
            i = n;
        }
    }
    r
}

/// Index of the first `c` at or after `i`, or the length.
pub open spec fn find_char(s: Seq<char>, c: char, i: int) -> int
    decreases s.len() - i,
{
    if i >= s.len() || i < 0 {
        s.len() as int
    } else if s[i] == c {
        i
    } else {
        find_char(s, c, i + 1)
    }
}

pub proof fn lemma_find_char_bounds(s: Seq<char>, c: char, i: int)
    requires
        0 <= i <= s.len(),
    ensures
        i <= find_char(s, c, i) <= s.len(),
        find_char(s, c, i) < s.len() ==> s[find_char(s, c, i)] == c,
        forall|k: int| i <= k < find_char(s, c, i) ==> s[k] != c,
    decreases s.len() - i,
{
    if i < s.len() && s[i] != c {
        lemma_find_char_bounds(s, c, i + 1);
    }
}

/// The pieces of `s[i..]` split at `c`, at most `n` of them, the last holding the rest,
/// as `str::splitn` gives them.
pub open spec fn split_from(s: Seq<char>, c: char, i: int, n: int) -> Seq<Seq<char>>
    decreases s.len() - i,
{
    let k = find_char(s, c, i);
    if n <= 1 || k >= s.len() || k < i || i < 0 {
        seq![s.subrange(i, s.len() as int)]
    } else {
        seq![s.subrange(i, k)] + split_from(s, c, k + 1, n - 1)
    }
}

/// Splits `v` at `c` into at most `n` pieces, as `str::splitn` does.
pub fn split_n(v: &Vec<char>, c: char, n: usize) -> (r: Vec<Vec<char>>)
    ensures
        r@.len() == split_from(v@, c, 0, n as int).len(),
        forall|k: int| 0 <= k < r@.len() ==> #[trigger] r@[k]@ == split_from(v@, c, 0, n as int)[k],
{
    let len = v.len();
    let mut r: Vec<Vec<char>> = Vec::new();
    let ghost done: Seq<Seq<char>> = Seq::empty();
    let mut i: usize = 0;
    let mut left: usize = n;
    loop
        invariant
            i <= len == v@.len(),
            r@.len() == done.len(),
            forall|k: int| 0 <= k < r@.len() ==> #[trigger] r@[k]@ == done[k],
            split_from(v@, c, 0, n as int) == done + split_from(v@, c, i as int, left as int),
        decreases len - i,
    {
        let mut j: usize = i;
        while j < len && v[j] != c
            invariant
                i <= j <= len == v@.len(),
                find_char(v@, c, i as int) == find_char(v@, c, j as int),
            decreases len - j,
        {
            j = j + 1;
        }
        proof {
            lemma_find_char_bounds(v@, c, i as int);
        }
        if left <= 1 || j >= len {
            let piece = slice_of(v, i, len);
            proof {
                done = done.push(piece@);
            }
            r.push(piece);
            assert(split_from(v@, c, 0, n as int) =~= done);
            return r;
        }
        let piece = slice_of(v, i, j);
        proof {
            assert(split_from(v@, c, i as int, left as int) == seq![piece@] + split_from(
                v@,
                c,
                j + 1,
                left - 1,
            ));
            done = done.push(piece@);
            assert(split_from(v@, c, 0, n as int) =~= done + split_from(
                v@,
                c,
                j + 1,
                left - 1,
            ));
        }
        r.push(piece);
        i = j + 1;
        left = left - 1;
    }
}

/// Each piece trimmed.
pub open spec fn trim_all(p: Seq<Seq<char>>) -> Seq<Seq<char>> {
    p.map_values(|f: Seq<char>| trim(f))
}

pub fn trim_each(p: Vec<Vec<char>>) -> (r: Vec<Vec<char>>)
    ensures
        r@.len() == p@.len(),
        forall|k: int| 0 <= k < r@.len() ==> #[trigger] r@[k]@ == trim(p@[k]@),
{
    let mut r: Vec<Vec<char>> = Vec::new();
    let mut i: usize = 0;
    while i < p.len()
        invariant
            i <= p@.len(),
            r@.len() == i,
            forall|k: int| 0 <= k < i ==> #[trigger] r@[k]@ == trim(p@[k]@),
        decreases p@.len() - i,
    {
        r.push(trim_chars(&p[i]));
        i = i + 1;
    }
    r
}

/// `q` occurs in `s` at index `i`.
pub open spec fn occurs_at(s: Seq<char>, q: Seq<char>, i: int) -> bool {
    0 <= i && i + q.len() <= s.len() && s.subrange(i, i + q.len()) == q
}

/// `q` is a substring of `s`.
pub open spec fn contains(s: Seq<char>, q: Seq<char>) -> bool {
    exists|i: int| occurs_at(s, q, i)
}

fn occurs_at_exec(s: &Vec<char>, q: &Vec<char>, i: usize) -> (r: bool)
    requires
        i + q@.len() <= s@.len(),
    ensures
        r == occurs_at(s@, q@, i as int),
{
    let sl = s.len();
    let mut k: usize = 0;
    while k < q.len()
        invariant
            sl == s@.len(),
            i + q@.len() <= s@.len(),
            k <= q@.len(),
            forall|m: int| 0 <= m < k ==> s@[i + m] == q@[m],
        decreases q@.len() - k,
    {
        assert(i + k < s@.len());
        if s[i + k] != q[k] {
            assert(s@.subrange(i as int, i + q@.len())[k as int] != q@[k as int]);
            return false;
        }
        k = k + 1;
    }
    assert(s@.subrange(i as int, i + q@.len()) =~= q@);
    true
}

/// Substring search on character sequences, as `str::contains` with a `&str` pattern.
pub fn contains_chars(s: &Vec<char>, q: &Vec<char>) -> (r: bool)
    ensures
        r == contains(s@, q@),
{
    if q.len() == 0 {
        assert(s@.subrange(0, 0) =~= q@);
        assert(occurs_at(s@, q@, 0));
        return true;
    }
    if q.len() > s.len() {
        assert forall|m: int| !occurs_at(s@, q@, m) by {}
        return false;
    }
    let last = s.len() - q.len();
    let mut i: usize = 0;
    while i <= last
        invariant
            last == s@.len() - q@.len(),
            q@.len() >= 1,
            s@.len() <= usize::MAX,
            forall|m: int| 0 <= m < i ==> !occurs_at(s@, q@, m),
        decreases last + 1 - i,
    {
        if occurs_at_exec(s, q, i) {
            return true;
        }
        i = i + 1;
    }
    false
}

/// Value of a run of ASCII digits.
pub open spec fn digits_value(s: Seq<char>) -> nat
    decreases s.len(),
{
    if s.len() == 0 {
        0
    } else {
        digits_value(s.drop_last()) * 10 + ((s.last() as u32) - ('0' as u32)) as nat
    }
}

pub open spec fn is_digit(c: char) -> bool {
    '0' <= c && c <= '9'
}

pub open spec fn all_digits(s: Seq<char>) -> bool {
    forall|i: int| 0 <= i < s.len() ==> is_digit(#[trigger] s[i])
}

/// The text after an optional leading `+`.
pub open spec fn unsigned_digits(s: Seq<char>) -> Seq<char> {
    if s.len() > 0 && s[0] == '+' {
        s.drop_first()
    } else {
        s
    }
}

/// What `str::parse::<u64>` accepts: an optional `+`, then at least one digit,
/// with a value that fits.
pub open spec fn parse_u64_spec(s: Seq<char>) -> Option<u64> {
    let d = unsigned_digits(s);
    if d.len() > 0 && all_digits(d) && digits_value(d) <= u64::MAX {
        Some(digits_value(d) as u64)
    } else {
        None
    }
}

proof fn lemma_digits_value_grows(s: Seq<char>, a: int, b: int)
    requires
        0 <= a <= b <= s.len(),
        all_digits(s),
    ensures
        digits_value(s.subrange(0, a)) <= digits_value(s.subrange(0, b)),
    decreases b - a,
{
    if a < b {
        lemma_digits_value_grows(s, a, b - 1);
        assert(s.subrange(0, b).drop_last() =~= s.subrange(0, b - 1));
    }
}

pub fn parse_u64(v: &Vec<char>) -> (r: Option<u64>)
    ensures
        r == parse_u64_spec(v@),
{
    let n = v.len();
    let start: usize = if n > 0 && v[0] == '+' {
        1
    } else {
        0
    };
    let ghost d = v@.subrange(start as int, n as int);
    assert(d =~= unsigned_digits(v@));
    if start == n {
        assert(d.len() == 0);
        return None;
    }
    let mut i: usize = start;
    while i < n
        invariant
            start <= i <= n == v@.len(),
            d == v@.subrange(start as int, n as int),
            d == unsigned_digits(v@),
            forall|k: int| 0 <= k < i - start ==> is_digit(#[trigger] d[k]),
        decreases n - i,
    {
        if !('0' <= v[i] && v[i] <= '9') {
            assert(d[i - start] == v@[i as int]);
            assert(!is_digit(d[i - start]));
            assert(!all_digits(d));
            assert(parse_u64_spec(v@).is_none());
            return None;
        }
        i = i + 1;
    }
    assert(all_digits(d));
    let mut val: u64 = 0;
    let mut i: usize = start;
    while i < n
        invariant
            start <= i <= n == v@.len(),
            d == v@.subrange(start as int, n as int),
            d == unsigned_digits(v@),
            all_digits(d),
            val as nat == digits_value(d.subrange(0, i - start)),
        decreases n - i,
    {
        assert(d[i - start] == v@[i as int]);
        assert(is_digit(d[i - start]));
        let dig: u64 = ((v[i] as u32) - ('0' as u32)) as u64;
        assert(d.subrange(0, i + 1 - start).drop_last() =~= d.subrange(0, i - start));
        if val > (u64::MAX - dig) / 10 {
            proof {
                assert(val * 10 + dig > u64::MAX) by (nonlinear_arith)
                    requires
                        val > (u64::MAX - dig) / 10,
                        dig < 10,
                ;
                lemma_digits_value_grows(d, i + 1 - start, d.len() as int);
                assert(d.subrange(0, d.len() as int) =~= d);
                assert(d.subrange(0, i + 1 - start).last() == v@[i as int]);
                assert(digits_value(d.subrange(0, i + 1 - start)) == val * 10 + dig);
                assert(digits_value(d) > u64::MAX);
                assert(parse_u64_spec(v@).is_none());
            }
            return None;
        }
        val = val * 10 + dig;
        i = i + 1;
    }
    assert(d.subrange(0, n - start) =~= d);
    Some(val)
}

/// Decimal digits of `n`, as `u64::to_string` writes them.
pub open spec fn decimal(n: nat) -> Seq<char>
    decreases n,
{
    if n < 10 {
        seq![digit_char(n)]
    } else {
        decimal(n / 10).push(digit_char(n % 10))
    }
}

pub open spec fn digit_char(d: nat) -> char {
    if d == 0 {
        '0'
    } else if d == 1 {
        '1'
    } else if d == 2 {
        '2'
    } else if d == 3 {
        '3'
    } else if d == 4 {
        '4'
    } else if d == 5 {
        '5'
    } else if d == 6 {
        '6'
    } else if d == 7 {
        '7'
    } else if d == 8 {
        '8'
    } else {
        '9'
    }
}

fn digit_char_exec(d: u64) -> (r: char)
    requires
        d < 10,
    ensures
        r == digit_char(d as nat),
{
    if d == 0 {
        '0'
    } else if d == 1 {
        '1'
    } else if d == 2 {
        '2'
    } else if d == 3 {
        '3'
    } else if d == 4 {
        '4'
    } else if d == 5 {
        '5'
    } else if d == 6 {
        '6'
    } else if d == 7 {
        '7'
    } else if d == 8 {
        '8'
    } else {
        '9'
    }
}

pub fn decimal_chars(n: u64) -> (r: Vec<char>)
    ensures
        r@ == decimal(n as nat),
    decreases n,
{
    if n < 10 {
        let mut r: Vec<char> = Vec::new();
        r.push(digit_char_exec(n));
        assert(r@ =~= decimal(n as nat));
        r
    } else {
        let mut r = decimal_chars(n / 10);
        r.push(digit_char_exec(n % 10));
        r
    }
}

/// Every occurrence of `from` replaced by `to`.
pub open spec fn replace_char(s: Seq<char>, from: char, to: char) -> Seq<char> {
    s.map_values(|c: char|
        if c == from {
            to
        } else {
            c
        })
}

pub fn replace_char_exec(v: &Vec<char>, from: char, to: char) -> (r: Vec<char>)
    ensures
        r@ == replace_char(v@, from, to),
{
    let mut r: Vec<char> = Vec::new();
    let mut i: usize = 0;
    while i < v.len()
        invariant
            i <= v@.len(),
            r@ == replace_char(v@.subrange(0, i as int), from, to),
        decreases v@.len() - i,
    {
        let c = v[i];
        r.push(
            if c == from {
                to
            } else {
                c
            },
        );
        i = i + 1;
        assert(r@ =~= replace_char(v@.subrange(0, i as int), from, to));
    }
    assert(v@.subrange(0, v@.len() as int) =~= v@);
    r
}

/// `a` followed by `b`.
pub fn concat(a: &str, b: &str) -> (r: String)
    ensures
        r@ == a@ + b@,
{
    let mut r = String::from_str(a);
    r.append(b);
    r
}

/// Decimal text of `n`.
pub fn decimal_string(n: u64) -> (r: String)
    ensures
        r@ == decimal(n as nat),
{
    string_of(&decimal_chars(n))
}

/// Characters of a string slice.
#[verifier::external_body]
pub fn chars_of(s: &str) -> (r: Vec<char>)
    ensures
        r@ == s@,
{
    s.chars().collect()
}

/// A string holding the given characters.
#[verifier::external_body]
pub fn string_of(v: &Vec<char>) -> (r: String)
    ensures
        r@ == v@,
{
    v.iter().collect()
}

pub uninterp spec fn lower_of(s: Seq<char>) -> Seq<char>;

/// Relies on `str::to_lowercase`: the result depends on the characters alone.
#[verifier::external_body]
pub fn lowercase(s: &str) -> (r: String)
    ensures
        r@ == lower_of(s@),
{
    s.to_lowercase()
}

} // verus!
