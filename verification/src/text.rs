//! Text primitives on `&str`, each specified over the `Seq<char>` view of its argument.

use vstd::prelude::*;

verus! {

/// The position of the first `c` in `s`, or `s.len()` where `s` holds none.
pub open spec fn first_index(s: Seq<char>, c: char) -> int
    decreases s.len(),
{
    if s.len() == 0 || s[0] == c {
        0
    } else {
        1 + first_index(s.drop_first(), c)
    }
}

/// The pieces of `s` between occurrences of `sep`. There is always at least one piece, and a
/// separator at either end gives an empty piece there.
pub open spec fn pieces(s: Seq<char>, sep: char) -> Seq<Seq<char>>
    decreases s.len(),
{
    let k = first_index(s, sep);
    if 0 <= k < s.len() {
        seq![s.subrange(0, k)] + pieces(s.subrange(k + 1, s.len() as int), sep)
    } else {
        seq![s]
    }
}

/// `t` without one trailing carriage return.
pub open spec fn without_carriage_return(t: Seq<char>) -> Seq<char> {
    if t.len() > 0 && t.last() == '\r' {
        t.drop_last()
    } else {
        t
    }
}

/// The lines of `s`. A line ends at a line feed, or at a carriage return directly followed by
/// one; the terminator is not part of the line, and the last line needs none.
pub open spec fn lines_of(s: Seq<char>) -> Seq<Seq<char>>
    decreases s.len(),
{
    if s.len() == 0 {
        Seq::empty()
    } else {
        let k = first_index(s, '\n');
        if 0 <= k < s.len() {
            seq![without_carriage_return(s.subrange(0, k))] + lines_of(
                s.subrange(k + 1, s.len() as int),
            )
        } else {
            seq![s]
        }
    }
}

/// Whether `c` has the Unicode property `White_Space`.
pub open spec fn is_whitespace(c: char) -> bool {
    let u = c as u32;
    ||| 0x09 <= u <= 0x0D
    ||| u == 0x20
    ||| u == 0x85
    ||| u == 0xA0
    ||| u == 0x1680
    ||| 0x2000 <= u <= 0x200A
    ||| u == 0x2028
    ||| u == 0x2029
    ||| u == 0x202F
    ||| u == 0x205F
    ||| u == 0x3000
}

/// How many characters of white space `s` begins with.
pub open spec fn leading_whitespace(s: Seq<char>) -> int
    decreases s.len(),
{
    if s.len() > 0 && is_whitespace(s[0]) {
        1 + leading_whitespace(s.drop_first())
    } else {
        0
    }
}

/// How many characters of white space `s` ends with.
pub open spec fn trailing_whitespace(s: Seq<char>) -> int
    decreases s.len(),
{
    if s.len() > 0 && is_whitespace(s.last()) {
        1 + trailing_whitespace(s.drop_last())
    } else {
        0
    }
}

/// `s` without the white space at its two ends.
pub open spec fn trimmed(s: Seq<char>) -> Seq<char> {
    let from = leading_whitespace(s);
    let rest = s.subrange(from, s.len() as int);
    rest.subrange(0, rest.len() - trailing_whitespace(rest))
}

/// How many times `c` is repeated at the end of `s`.
pub open spec fn trailing_run(s: Seq<char>, c: char) -> int
    decreases s.len(),
{
    if s.len() > 0 && s.last() == c {
        1 + trailing_run(s.drop_last(), c)
    } else {
        0
    }
}

/// `s` without the run of `c` at its end.
pub open spec fn without_trailing(s: Seq<char>, c: char) -> Seq<char> {
    s.subrange(0, s.len() - trailing_run(s, c))
}

/// `c` with an ASCII capital letter replaced by its small letter.
pub open spec fn ascii_lower(c: char) -> char {
    let u = c as u32;
    if 0x41 <= u <= 0x5A {
        (u + 0x20) as char
    } else {
        c
    }
}

/// Whether `a` and `b` are the same up to the case of their ASCII letters.
pub open spec fn same_ignoring_ascii_case(a: Seq<char>, b: Seq<char>) -> bool {
    &&& a.len() == b.len()
    &&& forall|i: int| 0 <= i < a.len() ==> ascii_lower(#[trigger] a[i]) == ascii_lower(b[i])
}

/// `parts` written one after another with `sep` between each two neighbours.
pub open spec fn joined(parts: Seq<Seq<char>>, sep: Seq<char>) -> Seq<char>
    decreases parts.len(),
{
    if parts.len() == 0 {
        Seq::empty()
    } else if parts.len() == 1 {
        parts[0]
    } else {
        joined(parts.drop_last(), sep) + sep + parts.last()
    }
}

/// The character of the decimal digit `d`.
pub open spec fn digit(d: int) -> char {
    "0123456789"@[d]
}

/// `n` in decimal, without leading zeros.
pub open spec fn decimal_digits(n: nat) -> Seq<char>
    decreases n,
{
    if n < 10 {
        seq![digit(n as int)]
    } else {
        decimal_digits(n / 10).push(digit((n % 10) as int))
    }
}

/// `n` in decimal, with a zero in front where it has one digit only.
pub open spec fn at_least_two_digits(n: nat) -> Seq<char> {
    if n < 10 {
        seq![digit(0), digit(n as int)]
    } else {
        decimal_digits(n)
    }
}

/// `first_index` is the one position before which no `c` stands and at which one does.
pub proof fn lemma_first_index(s: Seq<char>, c: char, k: int)
    requires
        0 <= k <= s.len(),
        forall|j: int| 0 <= j < k ==> s[j] != c,
        k < s.len() ==> s[k] == c,
    ensures
        first_index(s, c) == k,
    decreases s.len(),
{
    if s.len() == 0 || s[0] == c {
    } else {
        let rest = s.drop_first();
        assert forall|j: int| 0 <= j < k - 1 implies rest[j] != c by {
            assert(rest[j] == s[j + 1]);
        }
        lemma_first_index(rest, c, k - 1);
    }
}

/// `leading_whitespace` is the one position before which all is white space and at which
/// something else stands.
pub proof fn lemma_leading_whitespace(s: Seq<char>, k: int)
    requires
        0 <= k <= s.len(),
        forall|j: int| 0 <= j < k ==> is_whitespace(s[j]),
        k < s.len() ==> !is_whitespace(s[k]),
    ensures
        leading_whitespace(s) == k,
    decreases s.len(),
{
    if s.len() > 0 && is_whitespace(s[0]) {
        let rest = s.drop_first();
        assert forall|j: int| 0 <= j < k - 1 implies is_whitespace(rest[j]) by {
            assert(rest[j] == s[j + 1]);
        }
        lemma_leading_whitespace(rest, k - 1);
    }
}

/// `trailing_whitespace` counts the white space after the last character that is none.
pub proof fn lemma_trailing_whitespace(s: Seq<char>, k: int)
    requires
        0 <= k <= s.len(),
        forall|j: int| s.len() - k <= j < s.len() ==> is_whitespace(s[j]),
        k < s.len() ==> !is_whitespace(s[s.len() - k - 1]),
    ensures
        trailing_whitespace(s) == k,
    decreases s.len(),
{
    if s.len() > 0 && is_whitespace(s.last()) {
        lemma_trailing_whitespace(s.drop_last(), k - 1);
    }
}

/// `trailing_run` counts the `c` after the last character that is another.
pub proof fn lemma_trailing_run(s: Seq<char>, c: char, k: int)
    requires
        0 <= k <= s.len(),
        forall|j: int| s.len() - k <= j < s.len() ==> s[j] == c,
        k < s.len() ==> s[s.len() - k - 1] != c,
    ensures
        trailing_run(s, c) == k,
    decreases s.len(),
{
    if s.len() > 0 && s.last() == c {
        lemma_trailing_run(s.drop_last(), c, k - 1);
    }
}

/// The characters of `s`, in a vector.
pub fn chars_of(s: &str) -> (v: Vec<char>)
    ensures
        v@ == s@,
{
    let mut v: Vec<char> = Vec::new();
    for c in it: s.chars()
        invariant
            v@ == it.seq().take(it.index() as int),
            it.seq() == s@,
    {
        v.push(c);
    }
    v
}

/// Whether two strings hold the same characters.
pub fn same(a: &str, b: &str) -> (r: bool)
    ensures
        r == (a@ == b@),
{
    String::from_str(a) == String::from_str(b)
}

/// The part of `s` from character `from` up to character `to`, as a new string.
pub fn slice(s: &str, from: usize, to: usize) -> (r: String)
    requires
        from <= to <= s@.len(),
    ensures
        r@ == s@.subrange(from as int, to as int),
{
    String::from_str(s.substring_char(from, to))
}

/// Splits `s` at every `sep`.
pub fn split(s: &str, sep: char) -> (r: Vec<String>)
    ensures
        r.deep_view() == pieces(s@, sep),
{
    let chars = chars_of(s);
    let n: usize = chars.len();
    let mut out: Vec<String> = Vec::new();
    let mut start: usize = 0;
    let mut i: usize = 0;
    assert(s@.subrange(0, n as int) == s@);
    assert(out.deep_view() + pieces(s@, sep) == pieces(s@, sep));
    while i < n
        invariant
            chars@ == s@,
            n == chars.len(),
            start <= i <= n,
            forall|j: int| start <= j < i ==> chars@[j] != sep,
            pieces(s@, sep) == out.deep_view() + pieces(s@.subrange(start as int, n as int), sep),
        decreases n - i,
    {
        if chars[i] == sep {
            let piece = slice(s, start, i);
            proof {
                let rest = s@.subrange(start as int, n as int);
                lemma_first_index(rest, sep, i - start);
                assert(rest.subrange(0, i - start) == s@.subrange(start as int, i as int));
                assert(rest.subrange(i - start + 1, rest.len() as int) == s@.subrange(
                    i + 1,
                    n as int,
                ));
                assert(out.deep_view().push(piece@) + pieces(s@.subrange(i + 1, n as int), sep)
                    == out.deep_view() + pieces(rest, sep));
            }
            let ghost before = out.deep_view();
            out.push(piece);
            assert(out.deep_view() == before.push(piece@));
            start = i + 1;
        }
        i += 1;
    }
    let last = slice(s, start, n);
    proof {
        let rest = s@.subrange(start as int, n as int);
        lemma_first_index(rest, sep, n - start);
        assert(out.deep_view().push(last@) == out.deep_view() + pieces(rest, sep));
    }
    let ghost before = out.deep_view();
    out.push(last);
    assert(out.deep_view() == before.push(last@));
    out
}

/// The lines of `s`, without their terminators.
pub fn lines(s: &str) -> (r: Vec<String>)
    ensures
        r.deep_view() == lines_of(s@),
{
    let chars = chars_of(s);
    let n: usize = chars.len();
    let mut out: Vec<String> = Vec::new();
    let mut start: usize = 0;
    let mut i: usize = 0;
    assert(s@.subrange(0, n as int) == s@);
    assert(out.deep_view() + lines_of(s@) == lines_of(s@));
    while i < n
        invariant
            chars@ == s@,
            n == chars.len(),
            start <= i <= n,
            forall|j: int| start <= j < i ==> chars@[j] != '\n',
            lines_of(s@) == out.deep_view() + lines_of(s@.subrange(start as int, n as int)),
        decreases n - i,
    {
        if chars[i] == '\n' {
            let end: usize = if start < i && chars[i - 1] == '\r' {
                (i - 1) as usize
            } else {
                i
            };
            let line = slice(s, start, end);
            proof {
                let rest = s@.subrange(start as int, n as int);
                lemma_first_index(rest, '\n', i - start);
                let head = rest.subrange(0, i - start);
                assert(head == s@.subrange(start as int, i as int));
                assert(without_carriage_return(head) == s@.subrange(start as int, end as int));
                assert(rest.subrange(i - start + 1, rest.len() as int) == s@.subrange(
                    i + 1,
                    n as int,
                ));
                assert(out.deep_view().push(line@) + lines_of(s@.subrange(i + 1, n as int))
                    == out.deep_view() + lines_of(rest));
            }
            let ghost before = out.deep_view();
            out.push(line);
            assert(out.deep_view() == before.push(line@));
            start = i + 1;
        }
        i += 1;
    }
    if start < n {
        let last = slice(s, start, n);
        proof {
            let rest = s@.subrange(start as int, n as int);
            lemma_first_index(rest, '\n', n - start);
            assert(out.deep_view().push(last@) == out.deep_view() + lines_of(rest));
        }
        let ghost before = out.deep_view();
        out.push(last);
        assert(out.deep_view() == before.push(last@));
    } else {
        assert(out.deep_view() + lines_of(s@.subrange(start as int, n as int))
            == out.deep_view());
    }
    out
}

/// Whether `c` is white space.
pub fn whitespace(c: char) -> (r: bool)
    ensures
        r == is_whitespace(c),
{
    let u: u32 = c as u32;
    (0x09 <= u && u <= 0x0D) || u == 0x20 || u == 0x85 || u == 0xA0 || u == 0x1680 || (0x2000 <= u
        && u <= 0x200A) || u == 0x2028 || u == 0x2029 || u == 0x202F || u == 0x205F || u
        == 0x3000
}

/// `s` without the white space at its two ends.
pub fn trim(s: &str) -> (r: String)
    ensures
        r@ == trimmed(s@),
{
    let chars = chars_of(s);
    let n: usize = chars.len();
    let mut from: usize = 0;
    while from < n && whitespace(chars[from])
        invariant
            chars@ == s@,
            n == chars.len(),
            from <= n,
            forall|j: int| 0 <= j < from ==> is_whitespace(chars@[j]),
        decreases n - from,
    {
        from += 1;
    }
    let mut to: usize = n;
    while from < to && whitespace(chars[to - 1])
        invariant
            chars@ == s@,
            n == chars.len(),
            from <= to <= n,
            forall|j: int| to <= j < n ==> is_whitespace(chars@[j]),
        decreases to,
    {
        to -= 1;
    }
    proof {
        lemma_leading_whitespace(s@, from as int);
        let rest = s@.subrange(from as int, n as int);
        lemma_trailing_whitespace(rest, n - to);
        assert(rest.subrange(0, rest.len() - (n - to)) == s@.subrange(from as int, to as int));
    }
    slice(s, from, to)
}

/// Whether `s` begins with `prefix`.
pub fn starts_with(s: &str, prefix: &str) -> (r: bool)
    ensures
        r == prefix@.is_prefix_of(s@),
{
    let n: usize = prefix.unicode_len();
    if s.unicode_len() < n {
        return false;
    }
    same(s.substring_char(0, n), prefix)
}

/// `s` without the run of `c` at its end.
pub fn strip_trailing(s: &str, c: char) -> (r: String)
    ensures
        r@ == without_trailing(s@, c),
{
    let chars = chars_of(s);
    let n: usize = chars.len();
    let mut to: usize = n;
    while 0 < to && chars[to - 1] == c
        invariant
            chars@ == s@,
            n == chars.len(),
            to <= n,
            forall|j: int| to <= j < n ==> chars@[j] == c,
        decreases to,
    {
        to -= 1;
    }
    proof {
        lemma_trailing_run(s@, c, n - to);
    }
    slice(s, 0, to)
}

/// `c` with an ASCII capital letter replaced by its small letter.
pub fn to_ascii_lower(c: char) -> (r: char)
    ensures
        r == ascii_lower(c),
{
    let u: u32 = c as u32;
    if 0x41 <= u && u <= 0x5A {
        ((u + 0x20) as u8) as char
    } else {
        c
    }
}

/// Whether `a` and `b` are the same up to the case of their ASCII letters.
pub fn eq_ignore_ascii_case(a: &str, b: &str) -> (r: bool)
    ensures
        r == same_ignoring_ascii_case(a@, b@),
{
    let x = chars_of(a);
    let y = chars_of(b);
    if x.len() != y.len() {
        return false;
    }
    let n: usize = x.len();
    let mut i: usize = 0;
    while i < n
        invariant
            x@ == a@,
            y@ == b@,
            n == x.len(),
            n == y.len(),
            i <= n,
            forall|j: int| 0 <= j < i ==> ascii_lower(#[trigger] a@[j]) == ascii_lower(b@[j]),
        decreases n - i,
    {
        if to_ascii_lower(x[i]) != to_ascii_lower(y[i]) {
            return false;
        }
        i += 1;
    }
    true
}

/// The one-character string of the decimal digit `d`.
pub fn digit_text(d: usize) -> (r: &'static str)
    requires
        d < 10,
    ensures
        r@ == seq![digit(d as int)],
{
    proof {
        reveal_strlit("0123456789");
        reveal_strlit("0");
        reveal_strlit("1");
        reveal_strlit("2");
        reveal_strlit("3");
        reveal_strlit("4");
        reveal_strlit("5");
        reveal_strlit("6");
        reveal_strlit("7");
        reveal_strlit("8");
        reveal_strlit("9");
    }
    let r = match d {
        0 => "0",
        1 => "1",
        2 => "2",
        3 => "3",
        4 => "4",
        5 => "5",
        6 => "6",
        7 => "7",
        8 => "8",
        _ => "9",
    };
    assert(r@ =~= seq![digit(d as int)]);
    r
}

/// `n` in decimal, without leading zeros.
pub fn decimal(n: u64) -> (r: String)
    ensures
        r@ == decimal_digits(n as nat),
    decreases n,
{
    if n < 10 {
        String::from_str(digit_text(n as usize))
    } else {
        let mut r = decimal(n / 10);
        r.append(digit_text((n % 10) as usize));
        r
    }
}

/// `n` in decimal, with a zero in front where it has one digit only.
pub fn two_digits(n: u64) -> (r: String)
    ensures
        r@ == at_least_two_digits(n as nat),
{
    if n < 10 {
        let mut r = String::from_str(digit_text(0));
        r.append(digit_text(n as usize));
        r
    } else {
        decimal(n)
    }
}

} // verus!
