//! Text building blocks shared by the formatters and parsers: decimal
//! rendering, zero padding, Unicode white-space trimming and line splitting.

use vstd::prelude::*;
use vstd::string::StringExecFns;

verus! {

/// The ASCII digit for `d` (meaningful for `d < 10`).
pub open spec fn digit_char(d: nat) -> char {
    if d == 0 { '0' }
    else if d == 1 { '1' }
    else if d == 2 { '2' }
    else if d == 3 { '3' }
    else if d == 4 { '4' }
    else if d == 5 { '5' }
    else if d == 6 { '6' }
    else if d == 7 { '7' }
    else if d == 8 { '8' }
    else { '9' }
}

/// Decimal rendering of `n` without leading zeros, as `{}` prints it.
pub open spec fn decimal(n: nat) -> Seq<char>
    decreases n,
{
    if n < 10 {
        seq![digit_char(n)]
    } else {
        decimal(n / 10).push(digit_char(n % 10))
    }
}

/// Decimal rendering padded with zeros to two characters, as `{:02}` prints it.
pub open spec fn pad2(n: nat) -> Seq<char> {
    if n < 10 {
        seq!['0', digit_char(n)]
    } else {
        decimal(n)
    }
}

/// Whether `c` is one of the ASCII digits '0' to '9'.
pub open spec fn is_digit(c: char) -> bool {
    '0' <= c && c <= '9'
}

/// Whether every character of `s` is an ASCII digit.
pub open spec fn all_digits(s: Seq<char>) -> bool {
    forall|i: int| 0 <= i < s.len() ==> is_digit(#[trigger] s[i])
}

/// The number that a run of decimal digits reads as.
pub open spec fn digits_value(s: Seq<char>) -> int
    decreases s.len(),
{
    if s.len() == 0 {
        0
    } else {
        digits_value(s.drop_last()) * 10 + (s.last() as int - '0' as int)
    }
}

/// A decimal rendering reads back as its number.
pub proof fn lemma_decimal_reads_back(n: nat)
    ensures
        digits_value(decimal(n)) == n,
        decimal(n).len() >= 1,
        all_digits(decimal(n)),
        n > 0 ==> decimal(n)[0] != '0',
        n < 10 <==> decimal(n).len() == 1,
    decreases n,
{
    let d = n % 10;
    lemma_digit_char_value(d);
    if n >= 10 {
        lemma_decimal_reads_back(n / 10);
        let s = decimal(n);
        assert(s == decimal(n / 10).push(digit_char(d)));
        assert(s.drop_last() =~= decimal(n / 10));
        assert(s.last() == digit_char(d));
        assert(digits_value(s) == digits_value(s.drop_last()) * 10 + (s.last() as int - '0' as int));
        assert((n / 10) * 10 + d == n);
        assert forall|i: int| 0 <= i < s.len() implies is_digit(#[trigger] s[i]) by {
            if i < s.len() - 1 {
                assert(s[i] == decimal(n / 10)[i]);
            }
        }
        assert(s[0] == decimal(n / 10)[0]);
    } else {
        let s = decimal(n);
        assert(s =~= seq![digit_char(n)]);
        assert(s.drop_last() =~= Seq::<char>::empty());
        assert(digits_value(s.drop_last()) == 0);
        assert(digits_value(s) == digits_value(s.drop_last()) * 10 + (s.last() as int - '0' as int));
    }
}

pub proof fn lemma_digit_char_value(d: nat)
    requires
        d < 10,
    ensures
        digit_char(d) as int - '0' as int == d,
{
}

/// A padded rendering reads back as its number.
pub proof fn lemma_pad2_reads_back(n: nat)
    ensures
        digits_value(pad2(n)) == n,
        n < 100 ==> pad2(n).len() == 2,
        pad2(n).len() >= 2,
        all_digits(pad2(n)),
{
    lemma_decimal_reads_back(n);
    if n < 10 {
        lemma_digit_char_value(n);
        let p = pad2(n);
        assert(p =~= seq!['0', digit_char(n)]);
        assert(p.drop_last() =~= seq!['0']);
        let z = seq!['0'];
        assert(z.drop_last() =~= Seq::<char>::empty());
        assert(digits_value(z) == digits_value(z.drop_last()) * 10 + (z.last() as int - '0' as int));
        assert(digits_value(z) == 0);
        assert(digits_value(p) == digits_value(p.drop_last()) * 10 + (p.last() as int - '0' as int));
        assert(is_digit(p[0]) && is_digit(p[1]));
    } else {
        assert(decimal(n) == decimal(n / 10).push(digit_char(n % 10)));
        lemma_decimal_reads_back(n / 10);
        if n < 100 {
            assert(decimal(n / 10) =~= seq![digit_char(n / 10)]);
        }
    }
}

/// Two numbers below 100 written as two padded fields around a separator
/// read back as those numbers: five characters, the separator in the
/// middle, two digits on each side.
pub proof fn lemma_two_fields_read_back(a: nat, b: nat, sep: char)
    requires
        a < 100,
        b < 100,
    ensures
        ({
            let t = pad2(a) + seq![sep] + pad2(b);
            &&& t.len() == 5
            &&& t[2] == sep
            &&& all_digits(t.subrange(0, 2))
            &&& all_digits(t.subrange(3, 5))
            &&& digits_value(t.subrange(0, 2)) == a
            &&& digits_value(t.subrange(3, 5)) == b
        }),
{
    lemma_pad2_reads_back(a);
    lemma_pad2_reads_back(b);
    let t = pad2(a) + seq![sep] + pad2(b);
    assert(t.subrange(0, 2) =~= pad2(a));
    assert(t.subrange(3, 5) =~= pad2(b));
}

/// Appends one character to a string.
#[verifier::external_body]
pub fn push_char(s: &mut String, c: char)
    ensures
        final(s)@ == old(s)@.push(c),
{
    s.push(c);
}

/// Appends a string slice to a string.
pub fn push_str(s: &mut String, t: &str)
    ensures
        final(s)@ == old(s)@ + t@,
{
    s.append(t);
}

fn digit(d: u128) -> (c: char)
    requires
        d < 10,
    ensures
        c == digit_char(d as nat),
{
    if d == 0 { '0' }
    else if d == 1 { '1' }
    else if d == 2 { '2' }
    else if d == 3 { '3' }
    else if d == 4 { '4' }
    else if d == 5 { '5' }
    else if d == 6 { '6' }
    else if d == 7 { '7' }
    else if d == 8 { '8' }
    else { '9' }
}

/// Appends the decimal rendering of `n`.
pub fn push_decimal(s: &mut String, n: u128)
    ensures
        final(s)@ == old(s)@ + decimal(n as nat),
    decreases n,
{
    if n >= 10 {
        push_decimal(s, n / 10);
    }
    push_char(s, digit(n % 10));
    proof {
        if n >= 10 {
            assert(decimal(n as nat) == decimal((n / 10) as nat).push(digit_char((n % 10) as nat)));
        }
    }
}

/// Appends the decimal rendering of `n`, zero-padded to two characters.
pub fn push_pad2(s: &mut String, n: u128)
    ensures
        final(s)@ == old(s)@ + pad2(n as nat),
{
    if n < 10 {
        push_char(s, '0');
    }
    push_decimal(s, n);
    proof {
        if n < 10 {
            assert(decimal(n as nat) =~= seq![digit_char(n as nat)]);
        }
    }
}

/// Unicode `White_Space` property, which `char::is_whitespace` and
/// `str::trim` go by.
pub open spec fn is_white_space(c: char) -> bool {
    let v = c as u32;
    (0x9 <= v && v <= 0xD) || v == 0x20 || v == 0x85 || v == 0xA0 || v == 0x1680
        || (0x2000 <= v && v <= 0x200A) || v == 0x2028 || v == 0x2029 || v == 0x202F
        || v == 0x205F || v == 0x3000
}

/// `s` without its leading white space.
pub open spec fn trim_start(s: Seq<char>) -> Seq<char>
    decreases s.len(),
{
    if s.len() > 0 && is_white_space(s[0]) {
        trim_start(s.drop_first())
    } else {
        s
    }
}

/// `s` without its trailing white space.
pub open spec fn trim_end(s: Seq<char>) -> Seq<char>
    decreases s.len(),
{
    if s.len() > 0 && is_white_space(s.last()) {
        trim_end(s.drop_last())
    } else {
        s
    }
}

/// `s` without leading and trailing white space, as `str::trim` returns it.
pub open spec fn trim(s: Seq<char>) -> Seq<char> {
    trim_end(trim_start(s))
}

proof fn lemma_trim_start_shape(s: Seq<char>)
    ensures
        trim_start(s).len() == 0 || !is_white_space(trim_start(s)[0]),
    decreases s.len(),
{
    if s.len() > 0 && is_white_space(s[0]) {
        lemma_trim_start_shape(s.drop_first());
    }
}

proof fn lemma_trim_end_shape(s: Seq<char>)
    ensures
        trim_end(s).len() <= s.len(),
        trim_end(s) == s.subrange(0, trim_end(s).len() as int),
        trim_end(s).len() == 0 || !is_white_space(trim_end(s).last()),
    decreases s.len(),
{
    if s.len() > 0 && is_white_space(s.last()) {
        lemma_trim_end_shape(s.drop_last());
        assert(s.drop_last().subrange(0, trim_end(s).len() as int) =~= s.subrange(
            0,
            trim_end(s).len() as int,
        ));
    } else {
        assert(s.subrange(0, s.len() as int) =~= s);
    }
}

/// Trimmed text starts and ends with something other than white space.
pub proof fn lemma_trim_shape(s: Seq<char>)
    ensures
        trim(s).len() == 0 || (!is_white_space(trim(s)[0]) && !is_white_space(trim(s).last())),
{
    lemma_trim_start_shape(s);
    lemma_trim_end_shape(trim_start(s));
    if trim(s).len() > 0 {
        assert(trim(s)[0] == trim_start(s)[0]);
    }
}

/// Trimming twice gives what trimming once gives.
pub proof fn lemma_trim_idempotent(s: Seq<char>)
    ensures
        trim(trim(s)) == trim(s),
{
    lemma_trim_shape(s);
    let t = trim(s);
    assert(trim_start(t) == t);
    assert(trim_end(t) == t);
}

proof fn lemma_trim_start_drops_white(s: Seq<char>) -> (i: int)
    ensures
        0 <= i <= s.len(),
        trim_start(s) == s.subrange(i, s.len() as int),
        forall|k: int| 0 <= k < i ==> is_white_space(#[trigger] s[k]),
    decreases s.len(),
{
    if s.len() > 0 && is_white_space(s[0]) {
        let j = lemma_trim_start_drops_white(s.drop_first());
        assert(s.drop_first().subrange(j, s.len() - 1) =~= s.subrange(j + 1, s.len() as int));
        assert forall|k: int| 0 <= k < j + 1 implies is_white_space(#[trigger] s[k]) by {
            if k > 0 {
                assert(s[k] == s.drop_first()[k - 1]);
            }
        }
        j + 1
    } else {
        assert(s.subrange(0, s.len() as int) =~= s);
        0
    }
}

proof fn lemma_trim_end_drops_white(s: Seq<char>)
    ensures
        forall|k: int| trim_end(s).len() <= k < s.len() ==> is_white_space(#[trigger] s[k]),
    decreases s.len(),
{
    lemma_trim_end_shape(s);
    if s.len() > 0 && is_white_space(s.last()) {
        lemma_trim_end_drops_white(s.drop_last());
        assert forall|k: int| trim_end(s).len() <= k < s.len() implies is_white_space(#[trigger] s[k]) by {
            if k < s.len() - 1 {
                assert(s[k] == s.drop_last()[k]);
            }
        }
    }
}

/// Trimming removes white space from the two ends and nothing else: the
/// result is the piece of `s` between two positions, and everything before
/// the first and from the second on is white space.
pub proof fn lemma_trim_removes_only_white_space(s: Seq<char>) -> (r: (int, int))
    ensures
        0 <= r.0 <= r.1 <= s.len(),
        trim(s) == s.subrange(r.0, r.1),
        forall|k: int| 0 <= k < r.0 ==> is_white_space(#[trigger] s[k]),
        forall|k: int| r.1 <= k < s.len() ==> is_white_space(#[trigger] s[k]),
{
    let i = lemma_trim_start_drops_white(s);
    let t = trim_start(s);
    lemma_trim_end_shape(t);
    lemma_trim_end_drops_white(t);
    let j = i + trim_end(t).len();
    assert(trim(s) =~= s.subrange(i, j));
    assert forall|k: int| j <= k < s.len() implies is_white_space(#[trigger] s[k]) by {
        assert(s[k] == t[k - i]);
    }
    (i, j)
}

/// Decides the Unicode `White_Space` property.
pub fn white_space(c: char) -> (r: bool)
    ensures
        r == is_white_space(c),
{
    let v = c as u32;
    (0x9 <= v && v <= 0xD) || v == 0x20 || v == 0x85 || v == 0xA0 || v == 0x1680
        || (0x2000 <= v && v <= 0x200A) || v == 0x2028 || v == 0x2029 || v == 0x202F
        || v == 0x205F || v == 0x3000
}

/// The characters of a string slice.
pub fn chars_of(s: &str) -> (v: Vec<char>)
    ensures
        v@ == s@,
{
    let n = s.unicode_len();
    let mut v: Vec<char> = Vec::new();
    let mut i: usize = 0;
    while i < n
        invariant
            n == s@.len(),
            i <= n,
            v@ == s@.subrange(0, i as int),
        decreases n - i,
    {
        v.push(s.get_char(i));
        i = i + 1;
        assert(v@ =~= s@.subrange(0, i as int));
    }
    assert(v@ =~= s@);
    v
}

/// A new string holding `v[start..end]`.
pub fn string_of_range(v: &Vec<char>, start: usize, end: usize) -> (r: String)
    requires
        start <= end <= v@.len(),
    ensures
        r@ == v@.subrange(start as int, end as int),
{
    let mut r = String::new();
    let mut i = start;
    while i < end
        invariant
            start <= i <= end <= v@.len(),
            r@ == v@.subrange(start as int, i as int),
        decreases end - i,
    {
        push_char(&mut r, v[i]);
        i = i + 1;
        assert(r@ =~= v@.subrange(start as int, i as int));
    }
    r
}

proof fn lemma_trim_start_skip(s: Seq<char>, i: int)
    requires
        0 <= i <= s.len(),
        forall|k: int| 0 <= k < i ==> is_white_space(#[trigger] s[k]),
    ensures
        trim_start(s) == trim_start(s.subrange(i, s.len() as int)),
    decreases i,
{
    if i > 0 {
        lemma_trim_start_skip(s, i - 1);
        let t = s.subrange(i - 1, s.len() as int);
        assert(t[0] == s[i - 1]);
        assert(t.drop_first() =~= s.subrange(i, s.len() as int));
    } else {
        assert(s.subrange(0, s.len() as int) =~= s);
    }
}

proof fn lemma_trim_end_skip(s: Seq<char>, j: int)
    requires
        0 <= j <= s.len(),
        forall|k: int| j <= k < s.len() ==> is_white_space(#[trigger] s[k]),
    ensures
        trim_end(s) == trim_end(s.subrange(0, j)),
    decreases s.len() - j,
{
    if j < s.len() {
        lemma_trim_end_skip(s, j + 1);
        let t = s.subrange(0, j + 1);
        assert(t.last() == s[j]);
        assert(t.drop_last() =~= s.subrange(0, j));
    } else {
        assert(s.subrange(0, s.len() as int) =~= s);
    }
}

/// Bounds of the trimmed part of `v[start..end]`.
pub fn trim_range(v: &Vec<char>, start: usize, end: usize) -> (r: (usize, usize))
    requires
        start <= end <= v@.len(),
    ensures
        start <= r.0 <= r.1 <= end,
        trim(v@.subrange(start as int, end as int)) == v@.subrange(r.0 as int, r.1 as int),
{
    let ghost s = v@.subrange(start as int, end as int);
    let mut i: usize = start;
    while i < end && white_space(v[i])
        invariant
            start <= i <= end <= v@.len(),
            s == v@.subrange(start as int, end as int),
            forall|k: int| start <= k < i ==> is_white_space(#[trigger] v@[k]),
        decreases end - i,
    {
        i = i + 1;
    }
    proof {
        assert forall|k: int| 0 <= k < i - start implies is_white_space(#[trigger] s[k]) by {
            assert(s[k] == v@[k + start]);
        }
        lemma_trim_start_skip(s, (i - start) as int);
        assert(s.subrange((i - start) as int, s.len() as int) =~= v@.subrange(i as int, end as int));
    }
    let ghost rest = v@.subrange(i as int, end as int);
    assert(trim_start(rest) == rest) by {
        if rest.len() > 0 {
            assert(rest[0] == v@[i as int]);
        }
    }
    let mut j: usize = end;
    while j > i && white_space(v[j - 1])
        invariant
            start <= i <= j <= end <= v@.len(),
            rest == v@.subrange(i as int, end as int),
            forall|k: int| j <= k < end ==> is_white_space(#[trigger] v@[k]),
        decreases j,
    {
        j = j - 1;
    }
    proof {
        assert forall|k: int| (j - i) <= k < rest.len() implies is_white_space(#[trigger] rest[k]) by {
            assert(rest[k] == v@[k + i]);
        }
        lemma_trim_end_skip(rest, (j - i) as int);
        let u = rest.subrange(0, (j - i) as int);
        assert(u =~= v@.subrange(i as int, j as int));
        assert(trim_end(u) == u) by {
            if u.len() > 0 {
                assert(u.last() == v@[j - 1]);
            }
        }
    }
    (i, j)
}

/// `s` with leading and trailing white space removed.
pub fn trimmed(s: &str) -> (r: String)
    ensures
        r@ == trim(s@),
{
    let v = chars_of(s);
    let (start, end) = trim_range(&v, 0, v.len());
    assert(v@.subrange(0, v@.len() as int) =~= v@);
    string_of_range(&v, start, end)
}

/// Index of the first `'\n'` at or after `start`, or the length of `s`.
pub open spec fn line_end(s: Seq<char>, start: int) -> int
    decreases s.len() - start,
{
    if start >= s.len() {
        s.len() as int
    } else if s[start] == '\n' {
        start
    } else {
        line_end(s, start + 1)
    }
}

/// The line of `s` that starts at `start`, as `str::lines` yields it: the
/// text up to the next `'\n'`, with one `'\r'` before that `'\n'` removed.
pub open spec fn line_at(s: Seq<char>, start: int) -> Seq<char> {
    let end = line_end(s, start);
    let raw = s.subrange(start, end);
    if end < s.len() && raw.len() > 0 && raw.last() == '\r' {
        raw.drop_last()
    } else {
        raw
    }
}

/// The first line of `s`, or the empty text when `s` is empty.
pub open spec fn first_line(s: Seq<char>) -> Seq<char> {
    line_at(s, 0)
}

/// The first line is the text before the first line break: a prefix of
/// `s` without '\n', all of `s` when it has no '\n', and otherwise ended
/// by the first '\n' or by the '\r' just before it.
pub proof fn lemma_first_line_shape(s: Seq<char>)
    ensures
        ({
            let f = first_line(s);
            &&& f.len() <= s.len()
            &&& f == s.subrange(0, f.len() as int)
            &&& forall|k: int| 0 <= k < f.len() ==> #[trigger] f[k] != '\n'
            &&& (forall|k: int| 0 <= k < s.len() ==> #[trigger] s[k] != '\n') ==> f == s
            &&& f.len() < s.len() ==> (s[f.len() as int] == '\n' || (s[f.len() as int] == '\r' && f.len() + 1
                < s.len() && s[f.len() + 1int] == '\n'))
            &&& f.len() < s.len() && s[f.len() as int] == '\n' ==> (f.len() == 0 || f.last() != '\r')
        }),
{
    lemma_line_end_bounds(s, 0);
    let e = line_end(s, 0);
    let raw = s.subrange(0, e);
    let f = first_line(s);
    if e < s.len() && raw.len() > 0 && raw.last() == '\r' {
        assert(f =~= s.subrange(0, e - 1));
        assert(s[e - 1] == '\r');
    } else {
        assert(f =~= raw);
        if e == s.len() {
            assert(raw =~= s);
        }
    }
    if forall|k: int| 0 <= k < s.len() ==> #[trigger] s[k] != '\n' {
        if e < s.len() {
            assert(s[e] == '\n');
        }
    }
}

pub proof fn lemma_line_end_bounds(s: Seq<char>, start: int)
    requires
        0 <= start <= s.len(),
    ensures
        start <= line_end(s, start) <= s.len(),
        line_end(s, start) < s.len() ==> s[line_end(s, start)] == '\n',
        forall|k: int| start <= k < line_end(s, start) ==> s[k] != '\n',
    decreases s.len() - start,
{
    if start < s.len() && s[start] != '\n' {
        lemma_line_end_bounds(s, start + 1);
    }
}

/// Finds where the line that starts at `start` ends.
pub fn find_line_end(v: &Vec<char>, start: usize) -> (e: usize)
    requires
        start <= v@.len(),
    ensures
        e as int == line_end(v@, start as int),
{
    let mut e = start;
    while e < v.len() && v[e] != '\n'
        invariant
            start <= e <= v@.len(),
            line_end(v@, start as int) == line_end(v@, e as int),
        decreases v@.len() - e,
    {
        e = e + 1;
    }
    e
}

/// The bounds of the line that starts at `start`, its `'\r'` removed.
pub fn line_bounds(v: &Vec<char>, start: usize) -> (r: (usize, usize))
    requires
        start <= v@.len(),
    ensures
        start <= r.1 <= v@.len(),
        r.0 == start,
        line_at(v@, start as int) == v@.subrange(start as int, r.1 as int),
        r.1 <= line_end(v@, start as int),
{
    let e = find_line_end(v, start);
    proof { lemma_line_end_bounds(v@, start as int); }
    let ghost raw = v@.subrange(start as int, e as int);
    if e < v.len() && e > start && v[e - 1] == '\r' {
        assert(raw.drop_last() =~= v@.subrange(start as int, (e - 1) as int));
        (start, e - 1)
    } else {
        (start, e)
    }
}

} // verus!
