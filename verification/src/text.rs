//! Character-level text handling: decimal numbers, lines, separators, trimming.

use vstd::prelude::*;

verus! {

/// Whether `c` is an ASCII decimal digit.
pub open spec fn is_ascii_digit(c: char) -> bool {
    '0' <= c && c <= '9'
}

/// The numeric value of an ASCII digit.
pub open spec fn digit_value(c: char) -> nat {
    ((c as int) - ('0' as int)) as nat
}

/// Value of a string of decimal digits, most significant first.
pub open spec fn digits_value(d: Seq<char>) -> nat
    decreases d.len(),
{
    if d.len() == 0 {
        0
    } else {
        digits_value(d.drop_last()) * 10 + digit_value(d.last())
    }
}

/// Whether every character of `d` is a decimal digit.
pub open spec fn all_digits(d: Seq<char>) -> bool {
    forall|i: int| 0 <= i < d.len() ==> is_ascii_digit(#[trigger] d[i])
}

/// What `str::parse::<u8>` gives for `s`: an optional leading `+`, then at least
/// one decimal digit, with a value of at most 255.
pub open spec fn spec_parse_u8(s: Seq<char>) -> Option<u8> {
    let d = if s.len() > 0 && s[0] == '+' { s.skip(1) } else { s };
    if d.len() > 0 && all_digits(d) && digits_value(d) <= 255 {
        Some(digits_value(d) as u8)
    } else {
        None
    }
}

/// Collects the characters of `s`.
pub fn chars_of(s: &str) -> (v: Vec<char>)
    ensures
        v@ == s@,
{
    let n = s.unicode_len();
    let mut v: Vec<char> = Vec::new();
    let mut i: usize = 0;
    while i < n
        invariant
            n == s@.len(),
            i <= n,
            v@ == s@.subrange(0, i as int),
        decreases n - i,
    {
        let c = s.get_char(i);
        v.push(c);
        i = i + 1;
        assert(v@ =~= s@.subrange(0, i as int));
    }
    assert(v@ =~= s@);
    v
}

/// Parses a decimal `u8` the way `str::parse::<u8>` does.
pub fn parse_u8(s: &str) -> (r: Option<u8>)
    ensures
        r == spec_parse_u8(s@),
{
    let cs = chars_of(s);
    let start: usize = if cs.len() > 0 && cs[0] == '+' { 1 } else { 0 };
    let ghost d = if s@.len() > 0 && s@[0] == '+' { s@.skip(1) } else { s@ };
    assert(d =~= s@.subrange(start as int, s@.len() as int));
    if start >= cs.len() {
        return None;
    }
    let mut value: u32 = 0;
    let mut i: usize = start;
    while i < cs.len()
        invariant
            cs@ == s@,
            d == (if s@.len() > 0 && s@[0] == '+' { s@.skip(1) } else { s@ }),
            d.len() > 0,
            start <= i <= cs.len(),
            d =~= cs@.subrange(start as int, cs@.len() as int),
            all_digits(cs@.subrange(start as int, i as int)),
            value as nat == digits_value(cs@.subrange(start as int, i as int)),
            value <= 255,
        decreases cs.len() - i,
    {
        let c = cs[i];
        let ghost prefix = cs@.subrange(start as int, i as int);
        let ghost next = cs@.subrange(start as int, i + 1);
        assert(next.drop_last() =~= prefix);
        if !('0' <= c && c <= '9') {
            assert(!all_digits(d)) by {
                let k = i - start;
                assert(d[k] == c);
                assert(!is_ascii_digit(d[k]));
            }
            return None;
        }
        let dv: u32 = (c as u32) - ('0' as u32);
        value = value * 10 + dv;
        if value > 255 {
            proof {
              if all_digits(d) {
                lemma_digits_value_prefix_le(d, (i + 1 - start) as int);
                assert(d.subrange(0, (i + 1 - start) as int) =~= next);
                assert(digits_value(next) == digits_value(prefix) * 10 + digit_value(c));
              }
            }
            return None;
        }
        i = i + 1;
    }
    assert(cs@.subrange(start as int, i as int) =~= d);
    Some(value as u8)
}

/// A prefix of an all-digit string is worth no more than the whole string.
pub proof fn lemma_digits_value_prefix_le(d: Seq<char>, k: int)
    requires
        0 <= k <= d.len(),
        all_digits(d),
    ensures
        digits_value(d.subrange(0, k)) <= digits_value(d),
    decreases d.len() - k,
{
    if k < d.len() {
        lemma_digits_value_prefix_le(d, k + 1);
        let p = d.subrange(0, k + 1);
        assert(p.drop_last() =~= d.subrange(0, k));
        assert(digits_value(p) == digits_value(d.subrange(0, k)) * 10 + digit_value(p.last()));
    } else {
        assert(d.subrange(0, k) =~= d);
    }
}


/// The pieces of `s` between occurrences of `sep`, as `str::split` with a
/// `char` pattern gives them: there is always at least one piece, and pieces
/// may be empty.
pub open spec fn split_seq(s: Seq<char>, sep: char) -> Seq<Seq<char>>
    decreases s.len(),
{
    if s.len() == 0 {
        seq![Seq::<char>::empty()]
    } else {
        let rest = split_seq(s.drop_last(), sep);
        if s.last() == sep {
            rest.push(Seq::<char>::empty())
        } else {
            rest.update(rest.len() - 1, rest.last().push(s.last()))
        }
    }
}

/// `split_seq` never yields an empty list of pieces.
pub proof fn lemma_split_seq_nonempty(s: Seq<char>, sep: char)
    ensures
        split_seq(s, sep).len() >= 1,
    decreases s.len(),
{
    if s.len() > 0 {
        lemma_split_seq_nonempty(s.drop_last(), sep);
    }
}

/// Removes one trailing carriage return.
pub open spec fn strip_cr(line: Seq<char>) -> Seq<char> {
    if line.len() > 0 && line.last() == '\r' {
        line.drop_last()
    } else {
        line
    }
}

/// The lines of `s` as `str::lines` gives them: split at `\n`, a `\r` just
/// before a `\n` removed, and no empty last line after a final `\n`.
pub open spec fn spec_lines(s: Seq<char>) -> Seq<Seq<char>> {
    let p = split_seq(s, '\n');
    let terminated = p.subrange(0, p.len() - 1).map_values(|l: Seq<char>| strip_cr(l));
    if p.last().len() == 0 {
        terminated
    } else {
        terminated.push(p.last())
    }
}

/// Whether `c` is white space in the sense of `char::is_whitespace`.
pub open spec fn is_white_space(c: char) -> bool {
    ||| ('\u{9}' <= c && c <= '\u{d}')
    ||| c == ' '
    ||| c == '\u{85}'
    ||| c == '\u{a0}'
    ||| c == '\u{1680}'
    ||| ('\u{2000}' <= c && c <= '\u{200a}')
    ||| c == '\u{2028}'
    ||| c == '\u{2029}'
    ||| c == '\u{202f}'
    ||| c == '\u{205f}'
    ||| c == '\u{3000}'
}

/// `s` without leading white space.
pub open spec fn trim_start_seq(s: Seq<char>) -> Seq<char>
    decreases s.len(),
{
    if s.len() > 0 && is_white_space(s[0]) {
        trim_start_seq(s.drop_first())
    } else {
        s
    }
}

/// `s` without trailing white space.
pub open spec fn trim_end_seq(s: Seq<char>) -> Seq<char>
    decreases s.len(),
{
    if s.len() > 0 && is_white_space(s.last()) {
        trim_end_seq(s.drop_last())
    } else {
        s
    }
}

/// `s` without leading and trailing white space, as `str::trim` gives it.
pub open spec fn trim_seq(s: Seq<char>) -> Seq<char> {
    trim_end_seq(trim_start_seq(s))
}

/// Copies the characters `from..to` of `s` into a new `String`.
pub fn substring(s: &str, from: usize, to: usize) -> (r: String)
    requires
        from <= to <= s@.len(),
    ensures
        r@ == s@.subrange(from as int, to as int),
{
    String::from_str(s.substring_char(from, to))
}

/// Splits `s` at every `sep`, as `str::split` does.
pub fn split_on(s: &str, sep: char) -> (r: Vec<String>)
    ensures
        r.deep_view() == split_seq(s@, sep),
{
    let cs = chars_of(s);
    let n = cs.len();
    let mut out: Vec<String> = Vec::new();
    let mut start: usize = 0;
    let mut i: usize = 0;
    assert(s@.subrange(0, 0) =~= Seq::<char>::empty());
    assert(out.deep_view().push(s@.subrange(0, 0)) =~= split_seq(s@.subrange(0, 0), sep));
    while i < n
        invariant
            n == cs.len(),
            cs@ == s@,
            start <= i <= n,
            out.deep_view().push(s@.subrange(start as int, i as int)) =~= split_seq(
                s@.subrange(0, i as int),
                sep,
            ),
        decreases n - i,
    {
        let ghost before = out.deep_view();
        let ghost cur = s@.subrange(start as int, i as int);
        assert(s@.subrange(0, i + 1).drop_last() =~= s@.subrange(0, i as int));
        assert(s@.subrange(0, i + 1).last() == cs@[i as int]);
        if cs[i] == sep {
            let piece = substring(s, start, i);
            out.push(piece);
            start = i + 1;
            assert(out.deep_view() =~= before.push(cur));
            assert(s@.subrange(start as int, i + 1) =~= Seq::<char>::empty());
        } else {
            assert(s@.subrange(start as int, i + 1) =~= cur.push(cs@[i as int]));
        }
        i = i + 1;
    }
    let last = substring(s, start, n);
    let ghost before = out.deep_view();
    out.push(last);
    assert(out.deep_view() =~= before.push(s@.subrange(start as int, n as int)));
    assert(s@.subrange(0, n as int) =~= s@);
    out
}

/// The lines of `s`, as `str::lines` gives them.
pub fn lines_of(s: &str) -> (r: Vec<String>)
    ensures
        r.deep_view() == spec_lines(s@),
{
    let parts = split_on(s, '\n');
    proof {
        lemma_split_seq_nonempty(s@, '\n');
    }
    let ghost p = split_seq(s@, '\n');
    let k = parts.len() - 1;
    let mut out: Vec<String> = Vec::new();
    let mut i: usize = 0;
    while i < k
        invariant
            k == parts.len() - 1,
            parts.deep_view() == p,
            p.len() >= 1,
            i <= k,
            out.deep_view() =~= p.subrange(0, i as int).map_values(|l: Seq<char>| strip_cr(l)),
        decreases k - i,
    {
        let ghost before = out.deep_view();
        let line = &parts[i];
        let len = line.as_str().unicode_len();
        let stripped = if len > 0 && line.as_str().get_char(len - 1) == '\r' {
            substring(line.as_str(), 0, len - 1)
        } else {
            substring(line.as_str(), 0, len)
        };
        assert(line@ == p[i as int]);
        assert(line@.subrange(0, len as int) =~= line@);
        assert(line@.subrange(0, len - 1) =~= line@.drop_last());
        out.push(stripped);
        i = i + 1;
        assert(out.deep_view() =~= before.push(strip_cr(p[i - 1])));
        assert(p.subrange(0, i as int).map_values(|l: Seq<char>| strip_cr(l)) =~= p.subrange(
            0,
            i - 1,
        ).map_values(|l: Seq<char>| strip_cr(l)).push(strip_cr(p[i - 1])));
    }
    let last = &parts[k];
    assert(last@ == p.last());
    if last.as_str().unicode_len() > 0 {
        let ghost before = out.deep_view();
        let copy = substring(last.as_str(), 0, last.as_str().unicode_len());
        assert(last@.subrange(0, last@.len() as int) =~= last@);
        out.push(copy);
        assert(out.deep_view() =~= before.push(p.last()));
    }
    out
}

/// `s` without leading and trailing white space, as `str::trim` gives it.
pub fn trim(s: &str) -> (r: String)
    ensures
        r@ == trim_seq(s@),
{
    let cs = chars_of(s);
    let n = cs.len();
    let mut a: usize = 0;
    assert(s@.subrange(0, n as int) =~= s@);
    while a < n && is_white_space_exec(cs[a])
        invariant
            n == cs.len(),
            cs@ == s@,
            a <= n,
            trim_start_seq(s@) == trim_start_seq(s@.subrange(a as int, n as int)),
        decreases n - a,
    {
        assert(s@.subrange(a as int, n as int).drop_first() =~= s@.subrange(a + 1, n as int));
        a = a + 1;
    }
    let ghost ts = s@.subrange(a as int, n as int);
    assert(trim_start_seq(ts) == ts);
    let mut b: usize = n;
    while b > a && is_white_space_exec(cs[b - 1])
        invariant
            n == cs.len(),
            cs@ == s@,
            a <= b <= n,
            ts == s@.subrange(a as int, n as int),
            trim_end_seq(ts) == trim_end_seq(s@.subrange(a as int, b as int)),
        decreases b - a,
    {
        assert(s@.subrange(a as int, b as int).drop_last() =~= s@.subrange(a as int, b - 1));
        b = b - 1;
    }
    let ghost te = s@.subrange(a as int, b as int);
    assert(trim_end_seq(te) == te);
    substring(s, a, b)
}

/// Executable form of `is_white_space`.
pub fn is_white_space_exec(c: char) -> (r: bool)
    ensures
        r == is_white_space(c),
{
    ('\u{9}' <= c && c <= '\u{d}') || c == ' ' || c == '\u{85}' || c == '\u{a0}' || c
        == '\u{1680}' || ('\u{2000}' <= c && c <= '\u{200a}') || c == '\u{2028}' || c
        == '\u{2029}' || c == '\u{202f}' || c == '\u{205f}' || c == '\u{3000}'
}


/// The character of a decimal digit.
pub open spec fn digit_char(d: nat) -> char {
    (('0' as int) + d) as char
}

/// The decimal rendering of `n`, without leading zeros, as `u8::to_string` gives it.
pub open spec fn spec_u8_decimal(n: u8) -> Seq<char> {
    if n < 10 {
        seq![digit_char(n as nat)]
    } else if n < 100 {
        seq![digit_char((n / 10) as nat), digit_char((n % 10) as nat)]
    } else {
        seq![
            digit_char((n / 100) as nat),
            digit_char(((n / 10) % 10) as nat),
            digit_char((n % 10) as nat),
        ]
    }
}

/// The one-character string of a decimal digit.
fn digit_str(d: u8) -> (r: &'static str)
    requires
        d < 10,
    ensures
        r@ == seq![digit_char(d as nat)],
{
    proof {
        reveal_strlit("0");
        reveal_strlit("1");
        reveal_strlit("2");
        reveal_strlit("3");
        reveal_strlit("4");
        reveal_strlit("5");
        reveal_strlit("6");
        reveal_strlit("7");
        reveal_strlit("8");
        reveal_strlit("9");
    }
    let r = match d {
        0 => "0",
        1 => "1",
        2 => "2",
        3 => "3",
        4 => "4",
        5 => "5",
        6 => "6",
        7 => "7",
        8 => "8",
        _ => "9",
    };
    assert(r@ =~= seq![digit_char(d as nat)]);
    r
}

/// Renders `n` in decimal, as `u8::to_string` does.
pub fn u8_to_decimal(n: u8) -> (r: String)
    ensures
        r@ == spec_u8_decimal(n),
{
    let mut r = String::new();
    if n >= 100 {
        r.append(digit_str(n / 100));
    }
    if n >= 10 {
        r.append(digit_str((n / 10) % 10));
    }
    r.append(digit_str(n % 10));
    assert(r@ =~= spec_u8_decimal(n));
    r
}

/// Why a clock time could not be read.
#[derive(Clone, Copy, Debug, PartialEq, Eq, Structural)]
pub enum ClockTimeError {
    /// More than one `:` was given.
    MoreThanTwoParts,
    /// No `:` was given.
    NotTwoParts,
    /// The part before the `:` is not an hour from 0 to 23.
    HourInvalid,
    /// The part after the `:` is not a minute from 0 to 59.
    MinuteInvalid,
}

/// The two-digit rendering of a number below 100, with a leading zero.
pub open spec fn two_digits(n: u8) -> Seq<char> {
    seq![digit_char((n / 10) as nat), digit_char((n % 10) as nat)]
}

/// A 24-hour clock time `H:M` in the form `HH:MM`: the hour must read as a
/// number from 0 to 23 and the minute as one from 0 to 59 (each as
/// `str::parse::<u8>` reads it); both are written back with two digits.
pub open spec fn spec_parse_clock_time(s: Seq<char>) -> Result<Seq<char>, ClockTimeError> {
    let parts = split_seq(s, ':');
    if parts.len() > 2 {
        Err(ClockTimeError::MoreThanTwoParts)
    } else if parts.len() != 2 {
        Err(ClockTimeError::NotTwoParts)
    } else {
        match spec_parse_u8(parts[0]) {
            Some(h) if h <= 23 => match spec_parse_u8(parts[1]) {
                Some(m) if m <= 59 => Ok(two_digits(h) + seq![':'] + two_digits(m)),
                _ => Err(ClockTimeError::MinuteInvalid),
            },
            _ => Err(ClockTimeError::HourInvalid),
        }
    }
}

/// Writes a number below 100 with two digits.
fn two_digit_string(n: u8) -> (r: String)
    requires
        n < 100,
    ensures
        r@ == two_digits(n),
{
    let mut r = String::new();
    r.append(digit_str(n / 10));
    r.append(digit_str(n % 10));
    assert(r@ =~= two_digits(n));
    r
}

/// Reads a 24-hour `H:M` clock time and gives it back as `HH:MM`.
pub fn parse_clock_time(s: &str) -> (r: Result<String, ClockTimeError>)
    ensures
        match r {
            Ok(t) => spec_parse_clock_time(s@) == Ok::<Seq<char>, ClockTimeError>(t@),
            Err(e) => spec_parse_clock_time(s@) == Err::<Seq<char>, ClockTimeError>(e),
        },
{
    let parts = split_on(s, ':');
    assert(parts.deep_view().len() == parts@.len());
    if parts.len() > 2 {
        return Err(ClockTimeError::MoreThanTwoParts);
    }
    if parts.len() != 2 {
        return Err(ClockTimeError::NotTwoParts);
    }
    assert(parts.deep_view()[0] == parts@[0]@);
    assert(parts.deep_view()[1] == parts@[1]@);
    let h = match parse_u8(parts[0].as_str()) {
        Some(h) => h,
        None => return Err(ClockTimeError::HourInvalid),
    };
    if h > 23 {
        return Err(ClockTimeError::HourInvalid);
    }
    let m = match parse_u8(parts[1].as_str()) {
        Some(m) => m,
        None => return Err(ClockTimeError::MinuteInvalid),
    };
    if m > 59 {
        return Err(ClockTimeError::MinuteInvalid);
    }
    let mut t = two_digit_string(h);
    proof {
        reveal_strlit(":");
    }
    t.append(":");
    let tail = two_digit_string(m);
    t.append(tail.as_str());
    assert(t@ =~= two_digits(h) + seq![':'] + two_digits(m));
    Ok(t)
}

/// `s` with every occurrence of `pat` removed, scanning left to right as
/// `str::replace(pat, "")` does. An empty pattern leaves `s` as it is.
pub open spec fn remove_all(s: Seq<char>, pat: Seq<char>) -> Seq<char>
    decreases s.len(),
{
    if pat.len() == 0 || s.len() == 0 {
        s
    } else if pat.len() <= s.len() && s.subrange(0, pat.len() as int) == pat {
        remove_all(s.skip(pat.len() as int), pat)
    } else {
        seq![s[0]] + remove_all(s.skip(1), pat)
    }
}

/// Whether `pat` occurs in `cs` at position `i`.
fn occurs_at(cs: &Vec<char>, pat: &Vec<char>, i: usize) -> (r: bool)
    requires
        i <= cs.len(),
    ensures
        r == (pat.len() <= cs.len() - i && cs@.subrange(i as int, i + pat.len()) == pat@),
{
    if pat.len() > cs.len() - i {
        return false;
    }
    let mut j: usize = 0;
    while j < pat.len()
        invariant
            i + pat.len() <= cs.len(),
            j <= pat.len(),
            cs@.subrange(i as int, i + j) == pat@.subrange(0, j as int),
        decreases pat.len() - j,
    {
        if cs[i + j] != pat[j] {
            assert(cs@.subrange(i as int, i + pat.len())[j as int] != pat@[j as int]);
            return false;
        }
        assert(cs@.subrange(i as int, i + j + 1) =~= pat@.subrange(0, j + 1));
        j = j + 1;
    }
    assert(pat@.subrange(0, j as int) =~= pat@);
    true
}

/// Removes every occurrence of `pat` from `s`, as `s.replace(pat, "")` does.
pub fn remove_all_occurrences(s: &str, pat: &str) -> (r: String)
    ensures
        r@ == remove_all(s@, pat@),
{
    let cs = chars_of(s);
    let pc = chars_of(pat);
    let n = cs.len();
    let mut out = String::new();
    if pc.len() == 0 {
        return substring(s, 0, n);
    }
    let mut i: usize = 0;
    assert(s@.skip(0) =~= s@);
    while i < n
        invariant
            n == cs.len(),
            cs@ == s@,
            pc@ == pat@,
            pc.len() > 0,
            i <= n,
            out@ + remove_all(s@.skip(i as int), pat@) =~= remove_all(s@, pat@),
        decreases n - i,
    {
        let ghost rest = s@.skip(i as int);
        if occurs_at(&cs, &pc, i) {
            assert(rest.subrange(0, pat@.len() as int) =~= cs@.subrange(i as int, i + pc.len()));
            assert(rest.skip(pat@.len() as int) =~= s@.skip(i + pc.len()));
            i = i + pc.len();
        } else {
            assert(pat@.len() <= rest.len() ==> rest.subrange(0, pat@.len() as int)
                =~= cs@.subrange(i as int, i + pc.len()));
            let piece = substring(s, i, i + 1);
            out.append(piece.as_str());
            assert(rest.skip(1) =~= s@.skip(i + 1));
            assert(seq![rest[0]] =~= s@.subrange(i as int, i + 1));
            i = i + 1;
        }
    }
    assert(s@.skip(n as int) =~= Seq::<char>::empty());
    out
}


/// A digit's character reads back as the digit.
proof fn lemma_digit_char(d: nat)
    requires
        d < 10,
    ensures
        is_ascii_digit(digit_char(d)),
        digit_value(digit_char(d)) == d,
        digit_char(d) != ':',
        digit_char(d) != '+',
{
}

/// The decimal rendering of a byte reads back as the byte: a weight or clock
/// part written out by the library parses to the number it was written from.
pub proof fn lemma_u8_decimal_parses(n: u8)
    ensures
        spec_parse_u8(spec_u8_decimal(n)) == Some(n),
        all_digits(spec_u8_decimal(n)),
        !spec_u8_decimal(n).contains(':'),
{
    let d = spec_u8_decimal(n);
    lemma_digit_char((n % 10) as nat);
    if n < 10 {
        assert(d.drop_last() =~= Seq::<char>::empty());
        assert(digits_value(d) == digits_value(d.drop_last()) * 10 + (n % 10));
    } else if n < 100 {
        lemma_digit_char((n / 10) as nat);
        let d1 = d.drop_last();
        assert(d1 =~= seq![digit_char((n / 10) as nat)]);
        assert(d1.drop_last() =~= Seq::<char>::empty());
        assert(digits_value(d1.drop_last()) == 0);
        assert(d1.last() == digit_char((n / 10) as nat));
        assert(digits_value(d1) == (n / 10) as nat);
        assert(digits_value(d) == digits_value(d1) * 10 + (n % 10));
    } else {
        lemma_digit_char((n / 100) as nat);
        lemma_digit_char(((n / 10) % 10) as nat);
        let d1 = d.drop_last();
        let d2 = d1.drop_last();
        assert(d1 =~= seq![digit_char((n / 100) as nat), digit_char(((n / 10) % 10) as nat)]);
        assert(d2 =~= seq![digit_char((n / 100) as nat)]);
        assert(d2.drop_last() =~= Seq::<char>::empty());
        assert(digits_value(d2.drop_last()) == 0);
        assert(d2.last() == digit_char((n / 100) as nat));
        assert(digits_value(d2) == (n / 100) as nat);
        assert(digits_value(d1) == digits_value(d2) * 10 + ((n / 10) % 10));
        assert(digits_value(d) == digits_value(d1) * 10 + (n % 10));
    }
    assert(digits_value(d) == n);
}

/// Splitting a string without the separator gives the string itself.
proof fn lemma_split_without_sep(x: Seq<char>, sep: char)
    requires
        !x.contains(sep),
    ensures
        split_seq(x, sep) == seq![x],
    decreases x.len(),
{
    if x.len() > 0 {
        assert(!x.drop_last().contains(sep)) by {
            if x.drop_last().contains(sep) {
                let i = choose|i: int| 0 <= i < x.drop_last().len() && x.drop_last()[i] == sep;
                assert(x[i] == sep);
            }
        }
        lemma_split_without_sep(x.drop_last(), sep);
        assert(x.drop_last().push(x.last()) =~= x);
        assert(x[x.len() - 1] != sep);
        let rest = split_seq(x.drop_last(), sep);
        assert(rest == seq![x.drop_last()]);
        assert(x.last() != sep);
        assert(split_seq(x, sep) == rest.update(rest.len() - 1, rest.last().push(x.last())));
        assert(seq![x.drop_last()].update(0, x.drop_last().push(x.last())) =~= seq![x]);
    } else {
        assert(x =~= Seq::<char>::empty());
    }
}

/// Appending a string without the separator extends the last piece.
pub proof fn lemma_split_append(p: Seq<char>, x: Seq<char>, sep: char)
    requires
        !x.contains(sep),
    ensures
        split_seq(p + x, sep) == ({
            let r = split_seq(p, sep);
            r.update(r.len() - 1, r.last() + x)
        }),
    decreases x.len(),
{
    lemma_split_seq_nonempty(p, sep);
    if x.len() == 0 {
        assert(p + x =~= p);
        let r = split_seq(p, sep);
        assert(r.last() + x =~= r.last());
        assert(r.update(r.len() - 1, r.last() + x) =~= r);
    } else {
        let y = x.drop_last();
        assert(!y.contains(sep)) by {
            if y.contains(sep) {
                let i = choose|i: int| 0 <= i < y.len() && y[i] == sep;
                assert(x[i] == sep);
            }
        }
        lemma_split_append(p, y, sep);
        assert((p + x).drop_last() =~= p + y);
        assert((p + x).last() == x.last());
        assert(x[x.len() - 1] != sep);
        let r = split_seq(p, sep);
        assert((r.last() + y).push(x.last()) =~= r.last() + x);
        assert(r.update(r.len() - 1, r.last() + y).update(r.len() - 1, r.last() + x) =~= r.update(
            r.len() - 1,
            r.last() + x,
        ));
    }
}

/// Two strings without the separator, joined by it, split back into the two.
proof fn lemma_split_two(h: Seq<char>, m: Seq<char>, sep: char)
    requires
        !h.contains(sep),
        !m.contains(sep),
    ensures
        split_seq(h + seq![sep] + m, sep) == seq![h, m],
{
    lemma_split_without_sep(h, sep);
    let hs = h + seq![sep];
    assert(hs.drop_last() =~= h);
    assert(split_seq(hs, sep) =~= seq![h, Seq::<char>::empty()]);
    lemma_split_append(hs, m, sep);
    assert(Seq::<char>::empty() + m =~= m);
    assert(seq![h, Seq::<char>::empty()].update(1, Seq::<char>::empty() + m) =~= seq![h, m]);
}

/// The two-digit rendering of a number below 100 reads back as the number.
pub proof fn lemma_two_digits_parses(n: u8)
    requires
        n < 100,
    ensures
        spec_parse_u8(two_digits(n)) == Some(n),
        !two_digits(n).contains(':'),
{
    let d = two_digits(n);
    lemma_digit_char((n / 10) as nat);
    lemma_digit_char((n % 10) as nat);
    let d1 = d.drop_last();
    assert(d1 =~= seq![digit_char((n / 10) as nat)]);
    assert(d1.drop_last() =~= Seq::<char>::empty());
    assert(digits_value(d1.drop_last()) == 0);
    assert(d1.last() == digit_char((n / 10) as nat));
    assert(digits_value(d1) == (n / 10) as nat);
    assert(digits_value(d) == digits_value(d1) * 10 + (n % 10));
    assert(digits_value(d) == n);
}

/// The `HH:MM` form of a clock time reads back unchanged: a time the library
/// wrote is accepted as it stands.
pub proof fn lemma_clock_time_canonical(s: Seq<char>)
    requires
        spec_parse_clock_time(s) is Ok,
    ensures
        spec_parse_clock_time(spec_parse_clock_time(s)->Ok_0) == spec_parse_clock_time(s),
{
    let parts = split_seq(s, ':');
    let h = spec_parse_u8(parts[0]).unwrap();
    let m = spec_parse_u8(parts[1]).unwrap();
    lemma_two_digits_parses(h);
    lemma_two_digits_parses(m);
    lemma_split_two(two_digits(h), two_digits(m), ':');
}

/// `pat` starts nowhere in `s + pat` before the appended copy.
pub open spec fn starts_only_at_end(s: Seq<char>, pat: Seq<char>) -> bool {
    forall|i: int| 0 <= i < s.len() ==> #[trigger] (s + pat).subrange(i, i + pat.len()) != pat
}

/// Removing a pattern from a string with one copy of it appended, where the
/// pattern starts nowhere before that copy, gives back the string.
pub proof fn lemma_remove_appended(s: Seq<char>, pat: Seq<char>)
    requires
        pat.len() > 0,
        starts_only_at_end(s, pat),
    ensures
        remove_all(s + pat, pat) == s,
    decreases s.len(),
{
    let t = s + pat;
    if s.len() == 0 {
        assert(t =~= pat);
        assert(t.subrange(0, pat.len() as int) =~= pat);
        assert(t.skip(pat.len() as int) =~= Seq::<char>::empty());
        assert(remove_all(Seq::<char>::empty(), pat) == Seq::<char>::empty());
    } else {
        let r = s.skip(1);
        assert((s + pat).subrange(0, 0int + pat.len()) != pat);
        assert(t.subrange(0, pat.len() as int) != pat);
        assert(t.skip(1) =~= r + pat);
        assert forall|i: int| 0 <= i < r.len() implies #[trigger] (r + pat).subrange(i, i + pat.len()) != pat by {
            assert((r + pat).subrange(i, i + pat.len()) =~= t.subrange(i + 1, i + 1 + pat.len()));
        }
        lemma_remove_appended(r, pat);
        assert(t[0] == s[0]);
        assert(remove_all(t, pat) == seq![t[0]] + remove_all(t.skip(1), pat));
        assert(seq![s[0]] + r =~= s);
    }
}

} // verus!
