use vstd::prelude::*;
use vstd::string::StringExecFns;

verus! {

/// The characters that Rust's `char::is_whitespace` accepts (Unicode `White_Space`).
pub open spec fn is_ws(c: char) -> bool {
    ||| ('\u{9}' <= c && c <= '\u{d}')
    ||| c == ' '
    ||| c == '\u{85}'
    ||| c == '\u{a0}'
    ||| c == '\u{1680}'
    ||| ('\u{2000}' <= c && c <= '\u{200a}')
    ||| c == '\u{2028}'
    ||| c == '\u{2029}'
    ||| c == '\u{202f}'
    ||| c == '\u{205f}'
    ||| c == '\u{3000}'
}

/// Executable whitespace test.
pub fn is_whitespace_char(c: char) -> (b: bool)
    ensures
        b == is_ws(c),
{
    ('\u{9}' <= c && c <= '\u{d}') || c == ' ' || c == '\u{85}' || c == '\u{a0}' || c == '\u{1680}'
        || ('\u{2000}' <= c && c <= '\u{200a}') || c == '\u{2028}' || c == '\u{2029}' || c
        == '\u{202f}' || c == '\u{205f}' || c == '\u{3000}'
}

/// The characters of `s`, in order.
pub fn chars_of(s: &str) -> (v: Vec<char>)
    ensures
        v@ == s@,
{
    let mut v: Vec<char> = Vec::new();
    for c in it: s.chars()
        invariant
            v@ == it.seq().take(it.index() as int),
            it.seq() == s@,
    {
        v.push(c);
    }
    v
}


/// Appends one character to a `String` (std's `String::push`).
#[verifier::external_body]
pub(crate) fn push_char(s: &mut String, c: char)
    ensures
        final(s)@ == old(s)@.push(c),
{
    s.push(c);
}

/// Compares two string slices by their characters (std's `==` on `str`).
#[verifier::external_body]
pub(crate) fn str_eq(a: &str, b: &str) -> (r: bool)
    ensures
        r == (a@ == b@),
{
    a == b
}

/// Builds a `String` holding the characters of `v` in order.
pub fn string_from_chars(v: &Vec<char>) -> (s: String)
    ensures
        s@ == v@,
{
    let mut s = String::new();
    let mut i: usize = 0;
    while i < v.len()
        invariant
            i <= v.len(),
            s@ == v@.take(i as int),
        decreases v.len() - i,
    {
        push_char(&mut s, v[i]);
        assert(v@.take(i as int).push(v@[i as int]) =~= v@.take(i + 1));
        i = i + 1;
    }
    assert(v@.take(v.len() as int) =~= v@);
    s
}

/// `l` without its trailing whitespace (`str::trim_end`).
pub open spec fn trim_end(l: Seq<char>) -> Seq<char>
    decreases l.len(),
{
    if l.len() > 0 && is_ws(l.last()) {
        trim_end(l.drop_last())
    } else {
        l
    }
}

/// `l` without its leading whitespace (`str::trim_start`).
pub open spec fn trim_start(l: Seq<char>) -> Seq<char>
    decreases l.len(),
{
    if l.len() > 0 && is_ws(l[0]) {
        trim_start(l.drop_first())
    } else {
        l
    }
}

/// `l` without leading and trailing whitespace (`str::trim`).
pub open spec fn trim(l: Seq<char>) -> Seq<char> {
    trim_start(trim_end(l))
}

/// The pieces of `s` between newline characters, in order; a text without
/// a newline is one piece, and each newline starts a new (possibly empty) piece.
pub open spec fn split_lines(s: Seq<char>) -> Seq<Seq<char>>
    decreases s.len(),
{
    if s.len() == 0 {
        seq![Seq::<char>::empty()]
    } else {
        let prev = split_lines(s.drop_last());
        if s.last() == '\n' {
            prev.push(Seq::<char>::empty())
        } else {
            prev.update(prev.len() - 1, prev.last().push(s.last()))
        }
    }
}

/// The characters of `s` before its first newline.
pub open spec fn first_line(s: Seq<char>) -> Seq<char>
    decreases s.len(),
{
    if s.len() == 0 || s[0] == '\n' {
        Seq::<char>::empty()
    } else {
        seq![s[0]] + first_line(s.drop_first())
    }
}

/// Number of empty lines at the start of `ls`.
pub open spec fn leading_blank_count(ls: Seq<Seq<char>>) -> nat
    decreases ls.len(),
{
    if ls.len() > 0 && ls[0].len() == 0 {
        1 + leading_blank_count(ls.drop_first())
    } else {
        0
    }
}

/// Number of empty lines at the end of `ls`.
pub open spec fn trailing_blank_count(ls: Seq<Seq<char>>) -> nat
    decreases ls.len(),
{
    if ls.len() > 0 && ls.last().len() == 0 {
        1 + trailing_blank_count(ls.drop_last())
    } else {
        0
    }
}

/// `ls` without its empty lines at the start and at the end.
pub open spec fn strip_blank_lines(ls: Seq<Seq<char>>) -> Seq<Seq<char>> {
    let rest = ls.skip(leading_blank_count(ls) as int);
    rest.take(rest.len() - trailing_blank_count(rest))
}

/// The lines of `ls` joined with a newline between each two.
pub open spec fn join_lines(ls: Seq<Seq<char>>) -> Seq<char>
    decreases ls.len(),
{
    if ls.len() == 0 {
        Seq::<char>::empty()
    } else if ls.len() == 1 {
        ls[0]
    } else {
        join_lines(ls.drop_last()) + seq!['\n'] + ls.last()
    }
}

/// What `normalize_whitespace` makes of `s`: every line loses its trailing
/// whitespace, the empty lines at the start and the end go, and the rest is
/// joined again with newlines.
pub open spec fn normalized(s: Seq<char>) -> Seq<char> {
    join_lines(strip_blank_lines(split_lines(s).map_values(|l: Seq<char>| trim_end(l))))
}

/// The title of a slot whose content is `s`: the first line, trimmed, cut to
/// at most 18 characters.
pub open spec fn slot_title(s: Seq<char>) -> Seq<char> {
    let t = trim(first_line(s));
    if t.len() <= 18 {
        t
    } else {
        t.take(18)
    }
}


/// Appends the characters of `v` to `s`.
pub fn append_chars(s: &mut String, v: &Vec<char>)
    ensures
        final(s)@ == old(s)@ + v@,
{
    let ghost start = s@;
    let mut i: usize = 0;
    while i < v.len()
        invariant
            i <= v.len(),
            s@ == start + v@.take(i as int),
        decreases v.len() - i,
    {
        push_char(s, v[i]);
        assert(start + v@.take(i as int) + seq![v@[i as int]] =~= start + v@.take(i + 1));
        i = i + 1;
    }
    assert(v@.take(v.len() as int) =~= v@);
}

/// Removes the trailing whitespace of `v`.
pub fn trim_end_chars(v: &mut Vec<char>)
    ensures
        final(v)@ == trim_end(old(v)@),
{
    let ghost orig = v@;
    while v.len() > 0 && is_whitespace_char(v[v.len() - 1])
        invariant
            trim_end(v@) == trim_end(orig),
        decreases v.len(),
    {
        v.pop();
    }
}

/// Removes the leading whitespace of `v`.
pub fn trim_start_chars(v: &Vec<char>) -> (r: Vec<char>)
    ensures
        r@ == trim_start(v@),
{
    let mut i: usize = 0;
    assert(v@.skip(0) =~= v@);
    while i < v.len() && is_whitespace_char(v[i])
        invariant
            i <= v.len(),
            trim_start(v@.skip(i as int)) == trim_start(v@),
        decreases v.len() - i,
    {
        assert(v@.skip(i as int).drop_first() =~= v@.skip(i + 1));
        i = i + 1;
    }
    let mut r: Vec<char> = Vec::new();
    let mut k: usize = i;
    while k < v.len()
        invariant
            i <= k <= v.len(),
            r@ == v@.subrange(i as int, k as int),
        decreases v.len() - k,
    {
        r.push(v[k]);
        assert(v@.subrange(i as int, k as int).push(v@[k as int]) =~= v@.subrange(i as int, k + 1));
        k = k + 1;
    }
    assert(v@.subrange(i as int, v.len() as int) =~= v@.skip(i as int));
    r
}

/// Cleans up captured text: every line loses its trailing spaces and tabs
/// (any whitespace), the empty lines at the start and at the end are removed,
/// and newlines and the spaces inside lines are kept.
pub fn normalize_whitespace(text: &str) -> (r: String)
    ensures
        r@ == normalized(text@),
{
    let cs = chars_of(text);
    let ghost t = split_lines(cs@).map_values(|l: Seq<char>| trim_end(l));
    let mut lines: Vec<Vec<char>> = Vec::new();
    let mut cur: Vec<char> = Vec::new();
    let mut i: usize = 0;
    proof {
        assert(cs@.take(0) =~= Seq::<char>::empty());
    }
    while i < cs.len()
        invariant
            i <= cs.len(),
            split_lines(cs@.take(i as int)).len() == lines.len() + 1,
            forall|j: int|
                0 <= j < lines.len() ==> (#[trigger] lines@[j])@ == trim_end(
                    split_lines(cs@.take(i as int))[j],
                ),
            split_lines(cs@.take(i as int)).last() == cur@,
        decreases cs.len() - i,
    {
        let c = cs[i];
        let ghost prev = split_lines(cs@.take(i as int));
        assert(cs@.take(i + 1).drop_last() =~= cs@.take(i as int));
        assert(cs@.take(i + 1).last() == c);
        if c == '\n' {
            trim_end_chars(&mut cur);
            lines.push(cur);
            cur = Vec::new();
        } else {
            cur.push(c);
        }
        i = i + 1;
    }
    trim_end_chars(&mut cur);
    lines.push(cur);
    proof {
        assert(cs@.take(cs.len() as int) =~= cs@);
        assert(t.len() == lines.len());
        assert forall|j: int| 0 <= j < lines.len() implies (#[trigger] lines@[j])@ == t[j] by {}
    }
    let n = lines.len();
    // Leading empty lines.
    let mut a: usize = 0;
    assert(t.skip(0) =~= t);
    while a < n && lines[a].len() == 0
        invariant
            a <= n,
            n == lines.len(),
            t.len() == n,
            forall|j: int| 0 <= j < n ==> (#[trigger] lines@[j])@ == t[j],
            leading_blank_count(t) == a + leading_blank_count(t.skip(a as int)),
        decreases n - a,
    {
        assert(t.skip(a as int).drop_first() =~= t.skip(a + 1));
        assert(t.skip(a as int)[0] == t[a as int]);
        a = a + 1;
    }
    proof {
        if a < n {
            assert(t.skip(a as int)[0] == t[a as int]);
        } else {
            assert(t.skip(a as int).len() == 0);
        }
    }
    let ghost rest = t.skip(a as int);
    // Trailing empty lines.
    let mut b: usize = n;
    proof {
        assert(rest.take(rest.len() as int) =~= rest);
    }
    while b > a && lines[b - 1].len() == 0
        invariant
            a <= b <= n,
            n == lines.len(),
            t.len() == n,
            rest == t.skip(a as int),
            forall|j: int| 0 <= j < n ==> (#[trigger] lines@[j])@ == t[j],
            trailing_blank_count(rest) == (n - b) + trailing_blank_count(
                rest.take(b - a),
            ),
        decreases b,
    {
        assert(rest.take(b - a).drop_last() =~= rest.take(b - 1 - a));
        assert(rest.take(b - a).last() == t[b - 1]);
        b = b - 1;
    }
    proof {
        if b > a {
            assert(rest.take(b - a).last() == t[b - 1]);
        } else {
            assert(rest.take(b - a).len() == 0);
        }
        assert(strip_blank_lines(t) =~= t.subrange(a as int, b as int));
    }
    // Join the kept lines.
    let mut out = String::new();
    let mut k: usize = a;
    while k < b
        invariant
            a <= k <= b <= n,
            n == lines.len(),
            t.len() == n,
            forall|j: int| 0 <= j < n ==> (#[trigger] lines@[j])@ == t[j],
            out@ == join_lines(t.subrange(a as int, k as int)),
        decreases b - k,
    {
        let ghost sub = t.subrange(a as int, k + 1);
        assert(sub.drop_last() =~= t.subrange(a as int, k as int));
        assert(sub.last() == t[k as int]);
        if k > a {
            push_char(&mut out, '\n');
        }
        append_chars(&mut out, &lines[k]);
        assert(lines@[k as int]@ == t[k as int]);
        proof {
            if k == a {
                assert(sub.len() == 1);
                assert(t.subrange(a as int, k as int).len() == 0);
            }
        }
        k = k + 1;
    }
    out
}

/// The title of a slot: the first line of `content`, trimmed, cut to 18 characters.
pub fn build_slot_title(content: &str) -> (r: String)
    ensures
        r@ == slot_title(content@),
        r@.len() <= 18,
        trim(first_line(content@)).len() >= 18 ==> r@.len() == 18,
        trim(first_line(content@)).len() < 18 ==> r@ == trim(first_line(content@)),
        forall|i: int| 0 <= i < r@.len() ==> #[trigger] r@[i] == trim(first_line(content@))[i],
{
    let cs = chars_of(content);
    let mut line: Vec<char> = Vec::new();
    let mut i: usize = 0;
    assert(cs@.skip(0) =~= cs@);
    assert(line@ + first_line(cs@) =~= first_line(cs@));
    while i < cs.len() && cs[i] != '\n'
        invariant
            i <= cs.len(),
            first_line(cs@) == line@ + first_line(cs@.skip(i as int)),
        decreases cs.len() - i,
    {
        let ghost before = line@;
        let c = cs[i];
        assert(cs@.skip(i as int).drop_first() =~= cs@.skip(i + 1));
        assert(cs@.skip(i as int)[0] == c);
        line.push(c);
        assert(before + (seq![c] + first_line(cs@.skip(i + 1))) =~= line@ + first_line(
            cs@.skip(i + 1),
        ));
        i = i + 1;
    }
    proof {
        if i < cs.len() {
            assert(cs@.skip(i as int)[0] == '\n');
        } else {
            assert(cs@.skip(i as int).len() == 0);
        }
        assert(line@ + Seq::<char>::empty() =~= line@);
    }
    trim_end_chars(&mut line);
    let t = trim_start_chars(&line);
    let limit: usize = if t.len() <= 18 {
        t.len()
    } else {
        18
    };
    let mut out = String::new();
    let mut k: usize = 0;
    while k < limit
        invariant
            k <= limit <= t.len(),
            limit <= 18,
            out@ == t@.take(k as int),
        decreases limit - k,
    {
        push_char(&mut out, t[k]);
        assert(t@.take(k as int).push(t@[k as int]) =~= t@.take(k + 1));
        k = k + 1;
    }
    proof {
        if t.len() <= 18 {
            assert(t@.take(limit as int) =~= t@);
        }
    }
    out
}


/// The decimal digit character for `d` (`0 <= d < 10`).
pub open spec fn digit_char(d: int) -> char {
    (d + 48) as char
}

/// The decimal representation of `n`, without leading zeros.
pub open spec fn dec(n: nat) -> Seq<char>
    decreases n,
{
    if n < 10 {
        seq![digit_char(n as int)]
    } else {
        dec(n / 10).push(digit_char((n % 10) as int))
    }
}

/// The decimal representation of `x`, with a leading `-` when it is negative.
pub open spec fn signed_dec(x: int) -> Seq<char> {
    if x < 0 {
        seq!['-'] + dec((-x) as nat)
    } else {
        dec(x as nat)
    }
}

fn digit(d: u128) -> (c: char)
    requires
        d < 10,
    ensures
        c == digit_char(d as int),
{
    let b: u8 = d as u8;
    (b + 48) as char
}

/// Writes `n` in decimal.
pub fn decimal(n: u128) -> (s: String)
    ensures
        s@ == dec(n as nat),
    decreases n,
{
    if n < 10 {
        let mut s = String::new();
        push_char(&mut s, digit(n));
        assert(s@ =~= seq![digit_char(n as int)]);
        s
    } else {
        let mut s = decimal(n / 10);
        push_char(&mut s, digit(n % 10));
        s
    }
}

/// Writes `x` in decimal, with a leading `-` when it is negative.
pub fn signed_decimal(x: i64) -> (s: String)
    ensures
        s@ == signed_dec(x as int),
{
    if x < 0 {
        let m: u128 = (0i128 - (x as i128)) as u128;
        let mut s = String::new();
        push_char(&mut s, '-');
        let d = decimal(m);
        s.append(d.as_str());
        assert(s@ =~= seq!['-'] + dec((-x) as nat));
        s
    } else {
        decimal(x as u128)
    }
}


/// Whether `c` is an ASCII decimal digit.
pub open spec fn is_digit(c: char) -> bool {
    '0' <= c && c <= '9'
}

/// The number that a sequence of decimal digits stands for.
pub open spec fn digits_value(d: Seq<char>) -> nat
    decreases d.len(),
{
    if d.len() == 0 {
        0
    } else {
        digits_value(d.drop_last()) * 10 + ((d.last() as int - 48) as nat)
    }
}

/// Whether `d` is a non-empty run of decimal digits.
pub open spec fn all_digits(d: Seq<char>) -> bool {
    d.len() > 0 && forall|i: int| 0 <= i < d.len() ==> is_digit(#[trigger] d[i])
}

/// The value of an unsigned decimal text: an optional `+`, then one or more
/// digits, and nothing else.
pub open spec fn unsigned_text_value(s: Seq<char>) -> Option<nat> {
    let d = if s.len() > 0 && s[0] == '+' {
        s.drop_first()
    } else {
        s
    };
    if all_digits(d) {
        Some(digits_value(d))
    } else {
        None
    }
}

/// The value of a signed decimal text: an optional `+` or `-`, then one or
/// more digits, and nothing else.
pub open spec fn signed_text_value(s: Seq<char>) -> Option<int> {
    if s.len() > 0 && s[0] == '-' {
        let d = s.drop_first();
        if all_digits(d) {
            Some(-(digits_value(d) as int))
        } else {
            None
        }
    } else {
        match unsigned_text_value(s) {
            Some(v) => Some(v as int),
            None => None,
        }
    }
}

/// What std's `str::parse::<usize>` gives for `s`.
pub open spec fn parsed_usize(s: Seq<char>) -> Option<usize> {
    match unsigned_text_value(s) {
        Some(v) => if v <= usize::MAX {
            Some(v as usize)
        } else {
            None
        },
        None => None,
    }
}

/// What std's `str::parse::<i64>` gives for `s`.
pub open spec fn parsed_i64(s: Seq<char>) -> Option<i64> {
    match signed_text_value(s) {
        Some(v) => if i64::MIN <= v <= i64::MAX {
            Some(v as i64)
        } else {
            None
        },
        None => None,
    }
}

/// What std's `str::parse::<bool>` gives for `s`.
pub open spec fn parsed_bool(s: Seq<char>) -> Option<bool> {
    if s == "true"@ {
        Some(true)
    } else if s == "false"@ {
        Some(false)
    } else {
        None
    }
}

/// Parses an unsigned decimal number (std's `str::parse::<usize>`): an
/// optional `+` followed by ASCII digits only, and a value that fits.
#[verifier::external_body]
pub(crate) fn parse_usize(s: &str) -> (r: Option<usize>)
    ensures
        r == parsed_usize(s@),
{
    s.parse::<usize>().ok()
}

/// Parses a signed decimal number (std's `str::parse::<i64>`): an optional
/// sign followed by ASCII digits only, and a value that fits.
#[verifier::external_body]
pub(crate) fn parse_i64(s: &str) -> (r: Option<i64>)
    ensures
        r == parsed_i64(s@),
{
    s.parse::<i64>().ok()
}

/// Reads `true` or `false`, exactly as written (the grammar of std's
/// `str::parse::<bool>`).
pub(crate) fn parse_bool(s: &str) -> (r: Option<bool>)
    ensures
        r == parsed_bool(s@),
{
    if str_eq(s, "true") {
        Some(true)
    } else if str_eq(s, "false") {
        Some(false)
    } else {
        None
    }
}


/// The text of `s` without leading and trailing whitespace (`str::trim`).
pub fn trim_text(s: &str) -> (r: String)
    ensures
        r@ == trim(s@),
{
    let mut cs = chars_of(s);
    trim_end_chars(&mut cs);
    let t = trim_start_chars(&cs);
    string_from_chars(&t)
}

/// Builds `prefix` followed by `rest`.
pub fn joined(prefix: &str, rest: &str) -> (r: String)
    ensures
        r@ == prefix@ + rest@,
{
    let mut r = String::from_str(prefix);
    r.append(rest);
    r
}

} // verus!
