//! Reading and writing short pieces of text: trimming, lines, decimal numbers,
//! lists.

use vstd::prelude::*;
use vstd::string::*;

verus! {

// ----------------------------------------------------------------------------
// Characters and equality
// ----------------------------------------------------------------------------

/// The characters of `s`, in order.
pub fn chars_of(s: &str) -> (out: Vec<char>)
    ensures
        out@ == s@,
{
    let mut out: Vec<char> = Vec::new();
    for c in it: s.chars()
        invariant
            it.seq() == s@,
            out@ == s@.take(it.index() as int),
    {
        out.push(c);
    }
    out
}

/// Whether two strings hold the same characters.
pub fn str_eq(a: &str, b: &str) -> (same: bool)
    ensures
        same == (a@ == b@),
{
    a.to_owned() == b.to_owned()
}

/// The characters with the Unicode property `White_Space`.
pub open spec fn white_space(c: char) -> bool {
    let n = c as int;
    ||| 0x9 <= n <= 0xd
    ||| n == 0x20
    ||| n == 0x85
    ||| n == 0xa0
    ||| n == 0x1680
    ||| 0x2000 <= n <= 0x200a
    ||| n == 0x2028
    ||| n == 0x2029
    ||| n == 0x202f
    ||| n == 0x205f
    ||| n == 0x3000
}

/// Whether `c` is white space.
pub fn is_white_space(c: char) -> (white: bool)
    ensures
        white == white_space(c),
{
    let n: u32 = c as u32;
    (0x9 <= n && n <= 0xd) || n == 0x20 || n == 0x85 || n == 0xa0 || n == 0x1680 || (0x2000 <= n
        && n <= 0x200a) || n == 0x2028 || n == 0x2029 || n == 0x202f || n == 0x205f || n == 0x3000
}

// ----------------------------------------------------------------------------
// Lower case
// ----------------------------------------------------------------------------

/// What `str::to_lowercase` makes of a string.
pub uninterp spec fn lowercased(s: Seq<char>) -> Seq<char>;

/// `c`, with the letters `A` to `Z` turned into `a` to `z`.
pub open spec fn ascii_lower(c: char) -> char {
    if 'A' <= c <= 'Z' {
        (c as int + 32) as char
    } else {
        c
    }
}

/// `str::to_lowercase`. Not proved here: that its result depends on the string
/// alone, and that on a string of ASCII characters it turns `A` to `Z` into `a`
/// to `z` and leaves every other character as it is.
#[verifier::external_body]
pub(crate) fn to_lowercase(s: &str) -> (out: String)
    ensures
        out@ == lowercased(s@),
        vstd::utf8::is_ascii_chars(s@) ==> out@ == s@.map_values(|c: char| ascii_lower(c)),
{
    s.to_lowercase()
}

// ----------------------------------------------------------------------------
// Trimming
// ----------------------------------------------------------------------------

/// `s` without its leading white space.
pub open spec fn trim_start(s: Seq<char>) -> Seq<char>
    decreases s.len(),
{
    if s.len() > 0 && white_space(s[0]) {
        trim_start(s.skip(1))
    } else {
        s
    }
}

/// `s` without its trailing white space.
pub open spec fn trim_end(s: Seq<char>) -> Seq<char>
    decreases s.len(),
{
    if s.len() > 0 && white_space(s.last()) {
        trim_end(s.drop_last())
    } else {
        s
    }
}

/// `s` without white space at either end.
pub open spec fn trimmed(s: Seq<char>) -> Seq<char> {
    trim_end(trim_start(s))
}

/// Returns `s` without white space at either end.
pub fn trim(s: &str) -> (out: &str)
    ensures
        out@ == trimmed(s@),
{
    let chars = chars_of(s);
    let mut from: usize = 0;
    assert(chars@.skip(0) =~= chars@);
    while from < chars.len() && is_white_space(chars[from])
        invariant
            from <= chars.len(),
            trim_start(chars@.skip(from as int)) == trim_start(chars@),
        decreases chars.len() - from,
    {
        proof {
            assert(chars@.skip(from as int).skip(1) =~= chars@.skip(from as int + 1));
        }
        from += 1;
    }
    let ghost front = chars@.skip(from as int);
    assert(trim_start(chars@) == front);
    let mut to: usize = chars.len();
    assert(front.take(to - from) =~= front);
    while from < to && is_white_space(chars[to - 1])
        invariant
            from <= to <= chars.len(),
            front == chars@.skip(from as int),
            trim_end(front.take(to - from)) == trim_end(front),
        decreases to,
    {
        proof {
            assert(front.take(to - from).drop_last() =~= front.take(to - from - 1));
        }
        to -= 1;
    }
    assert(front.take(to - from) =~= chars@.subrange(from as int, to as int));
    s.substring_char(from, to)
}

// ----------------------------------------------------------------------------
// Lines
// ----------------------------------------------------------------------------

/// How many characters of `s` stand before its first line feed.
pub open spec fn line_len(s: Seq<char>) -> nat
    decreases s.len(),
{
    if s.len() == 0 || s[0] == '\n' {
        0
    } else {
        1 + line_len(s.skip(1))
    }
}

/// A line without the carriage return that may precede its line feed.
pub open spec fn without_cr(line: Seq<char>) -> Seq<char> {
    if line.len() > 0 && line.last() == '\r' {
        line.drop_last()
    } else {
        line
    }
}

/// The lines of `s`, each without its ending. A line ends in a line feed, with
/// or without a carriage return before it; the last line needs no ending.
pub open spec fn lines(s: Seq<char>) -> Seq<Seq<char>>
    decreases s.len(),
{
    let n = line_len(s);
    if s.len() == 0 {
        seq![]
    } else if n >= s.len() {
        seq![s]
    } else {
        seq![without_cr(s.take(n as int))] + lines(s.skip(n as int + 1))
    }
}

/// Returns the line of `s` at index `n`, if `s` has that many lines.
pub fn nth_line(s: &str, n: usize) -> (out: Option<&str>)
    ensures
        out is Some <==> n < lines(s@).len(),
        out is Some ==> out->0@ == lines(s@)[n as int],
{
    let chars = chars_of(s);
    let mut start: usize = 0;
    let mut left: usize = n;
    assert(chars@.skip(0) =~= chars@);
    loop
        invariant
            chars@ == s@,
            start <= chars.len(),
            left <= n,
            lines(s@).len() == n - left + lines(s@.skip(start as int)).len(),
            forall|i: int|
                0 <= i < lines(s@.skip(start as int)).len() ==> #[trigger] lines(
                    s@.skip(start as int),
                )[i] == lines(s@)[n - left + i],
        decreases chars.len() - start,
    {
        if start == chars.len() {
            return None;
        }
        let ghost rest = s@.skip(start as int);
        let end = line_end(&chars, start);
        assert(end - start == line_len(rest));
        if end == chars.len() {
            if left > 0 {
                return None;
            }
            assert(rest =~= s@.subrange(start as int, end as int));
            assert(lines(rest)[0] == rest);
            return Some(s.substring_char(start, end));
        }
        proof {
            assert(rest.skip(end - start + 1) =~= s@.skip(end as int + 1));
            assert(rest.take(end - start) =~= s@.subrange(start as int, end as int));
            assert(lines(rest)[0] == without_cr(rest.take(end - start)));
        }
        if left == 0 {
            if start < end && chars[end - 1] == '\r' {
                assert(without_cr(rest.take(end - start)) =~= s@.subrange(
                    start as int,
                    end - 1,
                ));
                return Some(s.substring_char(start, end - 1));
            }
            return Some(s.substring_char(start, end));
        }
        proof {
            let next = lines(s@.skip(end as int + 1));
            assert forall|i: int| 0 <= i < next.len() implies #[trigger] next[i] == lines(s@)[n
                - left + 1 + i] by {
                assert(lines(rest)[i + 1] == next[i]);
            }
        }
        left -= 1;
        start = end + 1;
    }
}

/// The index of the first line feed at or after `start`, or the length.
fn line_end(chars: &Vec<char>, start: usize) -> (end: usize)
    requires
        start <= chars.len(),
    ensures
        start <= end <= chars.len(),
        end - start == line_len(chars@.skip(start as int)),
        end < chars.len() ==> chars[end as int] == '\n',
{
    let mut end: usize = start;
    while end < chars.len() && chars[end] != '\n'
        invariant
            start <= end <= chars.len(),
            line_len(chars@.skip(start as int)) == end - start + line_len(chars@.skip(end as int)),
        decreases chars.len() - end,
    {
        proof {
            assert(chars@.skip(end as int).skip(1) =~= chars@.skip(end as int + 1));
        }
        end += 1;
    }
    end
}

// ----------------------------------------------------------------------------
// Decimal numbers
// ----------------------------------------------------------------------------

/// Whether `c` is one of the ten ASCII digits.
pub open spec fn is_digit(c: char) -> bool {
    '0' <= c <= '9'
}

/// Whether `s` is one or more digits and nothing else.
pub open spec fn all_digits(s: Seq<char>) -> bool {
    s.len() > 0 && forall|i: int| 0 <= i < s.len() ==> is_digit(#[trigger] s[i])
}

/// The number that a row of digits stands for.
pub open spec fn digits_value(s: Seq<char>) -> nat
    decreases s.len(),
{
    if s.len() == 0 {
        0
    } else {
        digits_value(s.drop_last()) * 10 + (s.last() as nat - '0' as nat) as nat
    }
}

/// The number written in `s`: an optional plus sign followed by one or more
/// digits, and nothing else.
pub open spec fn parse_unsigned(s: Seq<char>) -> Option<nat> {
    let digits = if s.len() > 0 && s[0] == '+' {
        s.skip(1)
    } else {
        s
    };
    if all_digits(digits) {
        Some(digits_value(digits))
    } else {
        None
    }
}

/// Reads the number written in `s`, if it is one that a `u64` can hold.
pub fn parse_u64(s: &str) -> (out: Option<u64>)
    ensures
        out == (match parse_unsigned(s@) {
            Some(n) => if n <= u64::MAX {
                Some(n as u64)
            } else {
                None
            },
            None => None,
        }),
{
    let chars = chars_of(s);
    let start: usize = if chars.len() > 0 && chars[0] == '+' {
        1
    } else {
        0
    };
    let ghost digits = chars@.skip(start as int);
    assert(start == 0 ==> digits =~= chars@);
    if start == chars.len() {
        return None;
    }
    let mut value: u64 = 0;
    let mut fits: bool = true;
    let mut i: usize = start;
    while i < chars.len()
        invariant
            chars@ == s@,
            start <= i <= chars.len(),
            start == (if s@.len() > 0 && s@[0] == '+' {
                1int
            } else {
                0
            }),
            start == 0 ==> digits == s@,
            digits == chars@.skip(start as int),
            forall|j: int| 0 <= j < i - start ==> is_digit(#[trigger] digits[j]),
            fits ==> value == digits_value(digits.take(i - start)),
            !fits ==> digits_value(digits.take(i - start)) > u64::MAX,
        decreases chars.len() - i,
    {
        let c = chars[i];
        assert(digits[i - start] == c);
        if !('0' <= c && c <= '9') {
            assert(!is_digit(digits[i - start]));
            return None;
        }
        let d: u64 = (c as u32 - '0' as u32) as u64;
        proof {
            assert(digits.take(i - start + 1).drop_last() =~= digits.take(i - start));
        }
        if fits {
            if value > u64::MAX / 10 || value * 10 > u64::MAX - d {
                fits = false;
            } else {
                value = value * 10 + d;
            }
        }
        i += 1;
    }
    assert(digits.take(digits.len() as int) =~= digits);
    if fits {
        Some(value)
    } else {
        None
    }
}

/// The digit for `d`, which is below ten.
pub open spec fn digit_char(d: nat) -> char {
    ('0' as nat + d) as char
}

/// `n` written in decimal, without leading zeros.
pub open spec fn decimal(n: nat) -> Seq<char>
    decreases n,
{
    if n < 10 {
        seq![digit_char(n)]
    } else {
        decimal(n / 10).push(digit_char(n % 10))
    }
}

/// The text of a single digit.
fn digit_str(d: u64) -> (out: &'static str)
    requires
        d < 10,
    ensures
        out@ == seq![digit_char(d as nat)],
{
    proof {
        reveal_strlit("0");
        reveal_strlit("1");
        reveal_strlit("2");
        reveal_strlit("3");
        reveal_strlit("4");
        reveal_strlit("5");
        reveal_strlit("6");
        reveal_strlit("7");
        reveal_strlit("8");
        reveal_strlit("9");
    }
    match d {
        0 => "0",
        1 => "1",
        2 => "2",
        3 => "3",
        4 => "4",
        5 => "5",
        6 => "6",
        7 => "7",
        8 => "8",
        _ => "9",
    }
}

/// Writes `n` in decimal.
pub fn decimal_of(n: u64) -> (out: String)
    ensures
        out@ == decimal(n as nat),
    decreases n,
{
    if n < 10 {
        digit_str(n).to_owned()
    } else {
        let out = decimal_of(n / 10).concat(digit_str(n % 10));
        assert(out@ =~= decimal(n as nat));
        out
    }
}

/// `n` written in decimal, with a minus sign when it is negative.
pub open spec fn signed_decimal(n: int) -> Seq<char> {
    if n < 0 {
        "-"@ + decimal((-n) as nat)
    } else {
        decimal(n as nat)
    }
}

/// Writes `n` in decimal, with a minus sign when it is negative.
pub fn signed_decimal_of(n: i32) -> (out: String)
    ensures
        out@ == signed_decimal(n as int),
{
    let wide: i64 = n as i64;
    if wide < 0 {
        "-".to_owned().concat(decimal_of((-wide) as u64).as_str())
    } else {
        decimal_of(wide as u64)
    }
}

/// Reading a number back from its decimal text gives the number.
pub proof fn law_decimal_round_trip(n: nat)
    ensures
        parse_unsigned(decimal(n)) == Some(n),
    decreases n,
{
    lemma_decimal_digits(n);
    assert(decimal(n)[0] != '+');
}

/// The decimal text of a number is a row of digits that stands for it.
pub proof fn lemma_decimal_digits(n: nat)
    ensures
        all_digits(decimal(n)),
        digits_value(decimal(n)) == n,
    decreases n,
{
    if n < 10 {
        assert(decimal(n).drop_last() =~= Seq::<char>::empty());
        reveal_with_fuel(digits_value, 2);
    } else {
        lemma_decimal_digits(n / 10);
        assert(decimal(n).drop_last() =~= decimal(n / 10));
    }
}

/// Digits with a line feed behind them are the first line.
pub proof fn lemma_line_of_digits(digits: Seq<char>, rest: Seq<char>)
    requires
        forall|i: int| 0 <= i < digits.len() ==> is_digit(#[trigger] digits[i]),
        rest.len() > 0,
        rest[0] == '\n',
    ensures
        line_len(digits + rest) == digits.len(),
        without_cr(digits) == digits,
    decreases digits.len(),
{
    if digits.len() == 0 {
        assert(digits + rest =~= rest);
    } else {
        assert((digits + rest).skip(1) =~= digits.skip(1) + rest);
        assert(is_digit(digits.last()));
        lemma_line_of_digits(digits.skip(1), rest);
    }
}

// ----------------------------------------------------------------------------
// Lists
// ----------------------------------------------------------------------------

/// Whether `list` holds the string `s`.
pub fn list_contains(list: &Vec<String>, s: &String) -> (found: bool)
    ensures
        found == list.deep_view().contains(s@),
{
    let mut i: usize = 0;
    while i < list.len()
        invariant
            i <= list.len(),
            forall|j: int| 0 <= j < i ==> list.deep_view()[j] != s@,
        decreases list.len() - i,
    {
        if list[i] == *s {
            assert(list.deep_view()[i as int] == s@);
            return true;
        }
        i += 1;
    }
    false
}

/// The strings of `list` in order, with `sep` between each two neighbours.
pub open spec fn joined(list: Seq<Seq<char>>, sep: Seq<char>) -> Seq<char>
    decreases list.len(),
{
    if list.len() == 0 {
        seq![]
    } else if list.len() == 1 {
        list[0]
    } else {
        list[0] + sep + joined(list.skip(1), sep)
    }
}

/// Joins the strings of `list`, with `sep` between each two neighbours.
pub fn join(list: &Vec<String>, sep: &str) -> (out: String)
    ensures
        out@ == joined(list.deep_view(), sep@),
{
    let ghost all = list.deep_view();
    if list.len() == 0 {
        return String::new();
    }
    let mut out = list[0].clone();
    let mut i: usize = 1;
    assert(all.skip(0) =~= all);
    assert(out@ + (if i < all.len() {
        sep@ + joined(all.skip(i as int), sep@)
    } else {
        seq![]
    }) =~= joined(all, sep@));
    while i < list.len()
        invariant
            1 <= i <= list.len(),
            all == list.deep_view(),
            out@ + (if i < all.len() {
                sep@ + joined(all.skip(i as int), sep@)
            } else {
                seq![]
            }) == joined(all, sep@),
        decreases list.len() - i,
    {
        let ghost before = out@;
        out = out.concat(sep).concat(list[i].as_str());
        proof {
            let rest = all.skip(i as int);
            assert(rest.skip(1) =~= all.skip(i as int + 1));
            assert(rest[0] == list[i as int]@);
            assert(out@ =~= before + sep@ + rest[0]);
            if i + 1 < all.len() {
                assert(joined(rest, sep@) == rest[0] + sep@ + joined(rest.skip(1), sep@));
                assert(out@ + (sep@ + joined(rest.skip(1), sep@)) =~= before + (sep@ + joined(
                    rest,
                    sep@,
                )));
            } else {
                assert(out@ + Seq::<char>::empty() =~= before + (sep@ + joined(rest, sep@)));
            }
        }
        i += 1;
    }
    assert(out@ + Seq::<char>::empty() =~= out@);
    out
}

// ----------------------------------------------------------------------------
// Laws
// ----------------------------------------------------------------------------

/// Whether every character of `s` is white space.
pub open spec fn is_blank(s: Seq<char>) -> bool {
    forall|i: int| 0 <= i < s.len() ==> white_space(#[trigger] s[i])
}

/// What is trimmed off is white space and stands at the ends, and none stands at
/// the ends of what is left: so nothing else is lost, and nothing is left over.
pub proof fn law_trimming_removes_white_space_at_the_ends(s: Seq<char>)
    ensures
        exists|before: Seq<char>, behind: Seq<char>| #[trigger]
            surrounded(s, before, trimmed(s), behind),
        trimmed(s).len() > 0 ==> !white_space(trimmed(s)[0]) && !white_space(trimmed(s).last()),
{
    lemma_trim_start(s);
    let t = trim_start(s);
    lemma_trim_end(t);
    let before = s.take(s.len() - t.len());
    let behind = t.skip(trimmed(s).len() as int);
    assert(t =~= trimmed(s) + behind);
    assert(s =~= before + trimmed(s) + behind);
    assert(surrounded(s, before, trimmed(s), behind));
    if trimmed(s).len() > 0 {
        assert(trimmed(s)[0] == t[0]);
    }
}

/// Whether `s` is `middle` with white space before and behind it.
pub open spec fn surrounded(
    s: Seq<char>,
    before: Seq<char>,
    middle: Seq<char>,
    behind: Seq<char>,
) -> bool {
    s == before + middle + behind && is_blank(before) && is_blank(behind)
}

/// White space around a text does not matter.
pub proof fn law_surroundings_are_trimmed(
    before: Seq<char>,
    middle: Seq<char>,
    behind: Seq<char>,
)
    requires
        is_blank(before),
        is_blank(behind),
        middle.len() > 0,
        !white_space(middle[0]),
        !white_space(middle.last()),
    ensures
        trimmed(before + middle + behind) == middle,
{
    lemma_trim_start_blank(before, middle + behind);
    assert(before + middle + behind =~= before + (middle + behind));
    assert((middle + behind)[0] == middle[0]);
    assert(trim_start(middle + behind) == middle + behind);
    lemma_trim_end_blank(middle, behind);
}

proof fn lemma_trim_start(s: Seq<char>)
    ensures
        trim_start(s).len() <= s.len(),
        s.skip(s.len() - trim_start(s).len()) == trim_start(s),
        is_blank(s.take(s.len() - trim_start(s).len())),
        trim_start(s).len() > 0 ==> !white_space(trim_start(s)[0]),
    decreases s.len(),
{
    if s.len() > 0 && white_space(s[0]) {
        let r = s.skip(1);
        lemma_trim_start(r);
        let t = trim_start(s);
        assert(s.skip(s.len() - t.len()) =~= r.skip(r.len() - t.len()));
        let cut = s.take(s.len() - t.len());
        assert forall|i: int| 0 <= i < cut.len() implies white_space(#[trigger] cut[i]) by {
            if i > 0 {
                assert(cut[i] == r.take(r.len() - t.len())[i - 1]);
            }
        }
    } else {
        assert(s.skip(0) =~= s);
    }
}

proof fn lemma_trim_end(s: Seq<char>)
    ensures
        trim_end(s).len() <= s.len(),
        s.take(trim_end(s).len() as int) == trim_end(s),
        is_blank(s.skip(trim_end(s).len() as int)),
        trim_end(s).len() > 0 ==> !white_space(trim_end(s).last()),
    decreases s.len(),
{
    if s.len() > 0 && white_space(s.last()) {
        let r = s.drop_last();
        lemma_trim_end(r);
        let t = trim_end(s);
        assert(s.take(t.len() as int) =~= r.take(t.len() as int));
        let cut = s.skip(t.len() as int);
        assert forall|i: int| 0 <= i < cut.len() implies white_space(#[trigger] cut[i]) by {
            if i < cut.len() - 1 {
                assert(cut[i] == r.skip(t.len() as int)[i]);
            }
        }
    } else {
        assert(s.take(s.len() as int) =~= s);
    }
}

proof fn lemma_trim_start_blank(before: Seq<char>, rest: Seq<char>)
    requires
        is_blank(before),
    ensures
        trim_start(before + rest) == trim_start(rest),
    decreases before.len(),
{
    if before.len() == 0 {
        assert(before + rest =~= rest);
    } else {
        assert(white_space(before[0]));
        assert((before + rest).skip(1) =~= before.skip(1) + rest);
        lemma_trim_start_blank(before.skip(1), rest);
    }
}

proof fn lemma_trim_end_blank(rest: Seq<char>, behind: Seq<char>)
    requires
        is_blank(behind),
        rest.len() > 0,
        !white_space(rest.last()),
    ensures
        trim_end(rest + behind) == rest,
    decreases behind.len(),
{
    if behind.len() == 0 {
        assert(rest + behind =~= rest);
    } else {
        assert(white_space(behind[behind.len() - 1]));
        assert((rest + behind).drop_last() =~= rest + behind.drop_last());
        lemma_trim_end_blank(rest, behind.drop_last());
    }
}

/// White space is the same on every machine: the ASCII space and controls, the
/// next line and the spaces that do not break, and the spaces and separators of
/// other scripts. No letter, digit or sign is, and nothing beyond the ideographic
/// space.
pub proof fn law_white_space_is_small(c: char)
    ensures
        '!' <= c <= '~' ==> !white_space(c),
        white_space(c) ==> c as int <= 0x3000,
        c == ' ' || c == '\t' || c == '\n' || c == '\r' ==> white_space(c),
        white_space(c) && c as int > 0xff ==> c as int == 0x1680 || 0x2000 <= c as int <= 0x205f
            || c as int == 0x3000,
{
}

/// The first line of a text ends at its first line feed, without a carriage
/// return before it, and the other lines are those of what follows. A text
/// without a line feed is one line, unless it is empty.
pub proof fn law_lines_end_in_line_feeds(line: Seq<char>, rest: Seq<char>)
    requires
        !line.contains('\n'),
    ensures
        lines(line + seq!['\n'] + rest) == seq![
            if line.len() > 0 && line.last() == '\r' {
                line.take(line.len() - 1)
            } else {
                line
            },
        ] + lines(rest),
        line.len() > 0 ==> lines(line) == seq![line],
        lines(Seq::<char>::empty()).len() == 0,
{
    let s = line + seq!['\n'] + rest;
    lemma_line_len(line, seq!['\n'] + rest);
    assert(s =~= line + (seq!['\n'] + rest));
    assert(s.take(line.len() as int) =~= line);
    assert(s.skip(line.len() as int + 1) =~= rest);
    if line.len() > 0 {
        assert(line.drop_last() =~= line.take(line.len() - 1));
        lemma_line_len(line, seq![]);
        assert(line + Seq::<char>::empty() =~= line);
    }
}

proof fn lemma_line_len(line: Seq<char>, rest: Seq<char>)
    requires
        !line.contains('\n'),
        rest.len() == 0 || rest[0] == '\n',
    ensures
        line_len(line + rest) == line.len(),
    decreases line.len(),
{
    if line.len() == 0 {
        assert(line + rest =~= rest);
    } else {
        assert(line.contains(line[0]));
        let r = line.skip(1);
        assert forall|i: int| 0 <= i < r.len() implies r[i] != '\n' by {
            assert(line.contains(line[i + 1]));
        }
        assert((line + rest).skip(1) =~= r + rest);
        lemma_line_len(r, rest);
    }
}

/// A number is written with digits alone, behind one plus sign or none.
pub proof fn law_numbers_are_digits(s: Seq<char>)
    ensures
        parse_unsigned(s) is Some <==> {
            let plus = s.len() > 0 && s[0] == '+';
            &&& s.len() > (if plus {
                1int
            } else {
                0
            })
            &&& forall|i: int|
                (if plus {
                    1int
                } else {
                    0
                }) <= i < s.len() ==> '0' <= #[trigger] s[i] <= '9'
        },
{
    let plus = s.len() > 0 && s[0] == '+';
    if plus {
        let d = s.skip(1);
        if parse_unsigned(s) is Some {
            assert forall|i: int| 1 <= i < s.len() implies '0' <= #[trigger] s[i] <= '9' by {
                assert(is_digit(d[i - 1]));
            }
        } else if s.len() > 1 && (forall|i: int|
            1 <= i < s.len() ==> '0' <= #[trigger] s[i] <= '9') {
            assert forall|i: int| 0 <= i < d.len() implies is_digit(#[trigger] d[i]) by {
                assert(d[i] == s[i + 1]);
            }
        }
    }
}

/// Each further digit counts ten times less than the one before it, and a plus
/// sign for nothing.
pub proof fn law_digits_count_by_tens(s: Seq<char>, d: nat)
    requires
        d < 10,
    ensures
        parse_unsigned(seq![(48 + d) as char]) == Some(d),
        parse_unsigned(s) is Some ==> parse_unsigned(s.push((48 + d) as char)) == Some(
            (parse_unsigned(s)->0 * 10 + d) as nat,
        ),
        parse_unsigned(s) is Some && s[0] != '+' ==> parse_unsigned(seq!['+'] + s)
            == parse_unsigned(s),
{
    let c = (48 + d) as char;
    let one = seq![c];
    assert(is_digit(one[0]));
    assert(all_digits(one));
    assert(one.drop_last() =~= Seq::<char>::empty());
    reveal_with_fuel(digits_value, 2);
    if parse_unsigned(s) is Some {
        let plus = s[0] == '+';
        let digits = if plus {
            s.skip(1)
        } else {
            s
        };
        let longer = s.push(c);
        assert(longer[0] == s[0]);
        let more = if plus {
            longer.skip(1)
        } else {
            longer
        };
        assert(more =~= digits.push(c));
        assert forall|i: int| 0 <= i < more.len() implies is_digit(#[trigger] more[i]) by {
            if i < digits.len() {
                assert(is_digit(digits[i]));
            }
        }
        assert(more.drop_last() =~= digits);
        if !plus {
            assert((seq!['+'] + s).skip(1) =~= s);
        }
    }
}

/// A number is written without leading zeros, and a negative one behind a minus
/// sign.
pub proof fn law_decimal_has_no_leading_zero(n: nat, k: int)
    ensures
        n > 0 ==> decimal(n)[0] != '0',
        decimal(0) == seq!['0'],
        k >= 0 ==> signed_decimal(k) == decimal(k as nat),
        k < 0 ==> signed_decimal(k).len() > 0 && signed_decimal(k)[0] == '-' && signed_decimal(
            k,
        ).skip(1) == decimal((-k) as nat),
    decreases n,
{
    lemma_decimal_digits(n);
    if n >= 10 {
        law_decimal_has_no_leading_zero(n / 10, 0);
        lemma_decimal_digits(n / 10);
        assert(decimal(n)[0] == decimal(n / 10)[0]);
    }
    if k < 0 {
        reveal_strlit("-");
        assert("-"@ =~= seq!['-']);
        assert(signed_decimal(k).skip(1) =~= decimal((-k) as nat));
    }
}

/// Joining two lists is joining each and then the two, with the separator
/// between them; joining one string is that string.
pub proof fn law_joining_is_associative(a: Seq<Seq<char>>, b: Seq<Seq<char>>, sep: Seq<char>)
    requires
        a.len() > 0,
        b.len() > 0,
    ensures
        joined(a + b, sep) == joined(a, sep) + sep + joined(b, sep),
        joined(seq![a[0]], sep) == a[0],
    decreases a.len(),
{
    assert((a + b).skip(1) =~= a.skip(1) + b);
    assert((a + b)[0] == a[0]);
    if a.len() == 1 {
        assert(a.skip(1) + b =~= b);
    } else {
        law_joining_is_associative(a.skip(1), b, sep);
        assert(joined(a + b, sep) =~= joined(a, sep) + sep + joined(b, sep));
    }
}

/// The ASCII letters in upper case have their lower case thirty-two places
/// further; every other character is left as it is.
pub proof fn law_ascii_lower_case(c: char)
    ensures
        65 <= c as int <= 90 ==> ascii_lower(c) as int == c as int + 32,
        !(65 <= c as int <= 90) ==> ascii_lower(c) == c,
{
}

} // verus!
