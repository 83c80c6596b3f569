//! Small operations on strings, stated over their characters.

use vstd::prelude::*;
use vstd::string::StrSliceExecFns;
use vstd::string::StringSliceAdditionalSpecFns;
use vstd::utf8::char_is_scalar;
use vstd::utf8::encode_scalar;
use vstd::utf8::encode_utf8;

verus! {

/// Appends `c` to `s`. This is std's `String::push`, which vstd leaves
/// without a specification: the string afterwards holds the characters it
/// held, followed by `c`.
#[verifier::external_body]
pub(crate) fn push_char(s: &mut String, c: char)
    ensures
        final(s)@ == old(s)@.push(c),
{
    s.push(c)
}

/// `s` with `c` put in before the character at position `at`, and behind
/// the last character where `s` has no such position.
pub fn insert_char(s: &str, at: usize, c: char) -> (out: String)
    ensures
        at <= s@.len() ==> out@ == s@.insert(at as int, c),
        at > s@.len() ==> out@ == s@.push(c),
{
    let n = s.unicode_len();
    let ghost asked = at;
    let at = if at > n {
        n
    } else {
        at
    };
    let mut out = String::new();
    let mut i: usize = 0;
    for ch in it: s.chars()
        invariant
            it.seq() == s@,
            n == s@.len(),
            at <= n,
            i == it.index(),
            i <= at ==> out@ == s@.take(i as int),
            i > at ==> out@ == s@.take(at as int).push(c) + s@.subrange(at as int, i as int),
    {
        if i == at {
            push_char(&mut out, c);
        }
        push_char(&mut out, ch);
        i = i + 1;
    }
    if at == n {
        push_char(&mut out, c);
    }
    assert(out@ =~= s@.insert(at as int, c));
    assert(asked > n ==> out@ =~= s@.push(c));
    out
}

/// `s` without the character at position `at`; `s` itself where it has no
/// such position.
pub fn remove_char(s: &str, at: usize) -> (out: String)
    ensures
        at < s@.len() ==> out@ == s@.remove(at as int),
        at >= s@.len() ==> out@ == s@,
{
    let n = s.unicode_len();
    let mut out = String::new();
    let mut i: usize = 0;
    for ch in it: s.chars()
        invariant
            it.seq() == s@,
            n == s@.len(),
            i == it.index(),
            i <= at ==> out@ == s@.take(i as int),
            i > at ==> out@ == s@.take(at as int) + s@.subrange(at as int + 1, i as int),
    {
        if i != at {
            push_char(&mut out, ch);
        }
        i = i + 1;
    }
    assert(at < n ==> out@ =~= s@.remove(at as int));
    assert(at >= n ==> out@ =~= s@);
    out
}


/// The character that stands for the digit `d`.
pub open spec fn digit_char(d: int) -> char {
    if d == 0 {
        '0'
    } else if d == 1 {
        '1'
    } else if d == 2 {
        '2'
    } else if d == 3 {
        '3'
    } else if d == 4 {
        '4'
    } else if d == 5 {
        '5'
    } else if d == 6 {
        '6'
    } else if d == 7 {
        '7'
    } else if d == 8 {
        '8'
    } else {
        '9'
    }
}

/// The digit that `c` stands for, if it is one of `0` to `9`.
pub open spec fn digit_value(c: char) -> Option<nat> {
    if c == '0' {
        Some(0)
    } else if c == '1' {
        Some(1)
    } else if c == '2' {
        Some(2)
    } else if c == '3' {
        Some(3)
    } else if c == '4' {
        Some(4)
    } else if c == '5' {
        Some(5)
    } else if c == '6' {
        Some(6)
    } else if c == '7' {
        Some(7)
    } else if c == '8' {
        Some(8)
    } else if c == '9' {
        Some(9)
    } else {
        None
    }
}

/// The digits of `n` in base ten, without leading zeros.
pub open spec fn decimal_digits(n: nat) -> Seq<char>
    decreases n,
{
    if n < 10 {
        seq![digit_char(n as int)]
    } else {
        decimal_digits(n / 10).push(digit_char((n % 10) as int))
    }
}

/// `n` in base ten, with a minus sign where it is negative.
pub open spec fn decimal(n: int) -> Seq<char> {
    if n < 0 {
        seq!['-'] + decimal_digits((-n) as nat)
    } else {
        decimal_digits(n as nat)
    }
}

/// The number that a run of digits stands for; `None` where a character is
/// no digit. The empty run stands for 0.
pub open spec fn number_of(s: Seq<char>) -> Option<nat>
    decreases s.len(),
{
    if s.len() == 0 {
        Some(0)
    } else {
        match (number_of(s.drop_last()), digit_value(s.last())) {
            (Some(v), Some(d)) => Some(v * 10 + d),
            _ => None,
        }
    }
}

/// The integer that `s` stands for: an optional sign, then one digit or
/// more. Leading zeros are accepted.
pub open spec fn parse_decimal(s: Seq<char>) -> Option<int> {
    if s.len() == 0 {
        None
    } else if s[0] == '-' || s[0] == '+' {
        if s.len() == 1 {
            None
        } else {
            match number_of(s.skip(1)) {
                Some(v) => Some(
                    if s[0] == '-' {
                        -(v as int)
                    } else {
                        v as int
                    },
                ),
                None => None,
            }
        }
    } else {
        match number_of(s) {
            Some(v) => Some(v as int),
            None => None,
        }
    }
}

/// The `i32` that `s` stands for; `None` where `s` is no integer or one
/// that an `i32` cannot hold.
pub open spec fn spec_parse_i32(s: Seq<char>) -> Option<i32> {
    match parse_decimal(s) {
        Some(v) => if i32::MIN <= v <= i32::MAX {
            Some(v as i32)
        } else {
            None
        },
        None => None,
    }
}

fn digit(d: u64) -> (c: char)
    requires
        d < 10,
    ensures
        c == digit_char(d as int),
        digit_value(c) == Some(d as nat),
{
    if d == 0 {
        '0'
    } else if d == 1 {
        '1'
    } else if d == 2 {
        '2'
    } else if d == 3 {
        '3'
    } else if d == 4 {
        '4'
    } else if d == 5 {
        '5'
    } else if d == 6 {
        '6'
    } else if d == 7 {
        '7'
    } else if d == 8 {
        '8'
    } else {
        '9'
    }
}

fn value_of_digit(c: char) -> (d: Option<u64>)
    ensures
        d is Some == digit_value(c) is Some,
        d matches Some(v) ==> digit_value(c) == Some(v as nat) && v < 10,
{
    if c == '0' {
        Some(0)
    } else if c == '1' {
        Some(1)
    } else if c == '2' {
        Some(2)
    } else if c == '3' {
        Some(3)
    } else if c == '4' {
        Some(4)
    } else if c == '5' {
        Some(5)
    } else if c == '6' {
        Some(6)
    } else if c == '7' {
        Some(7)
    } else if c == '8' {
        Some(8)
    } else if c == '9' {
        Some(9)
    } else {
        None
    }
}

/// The digits of `n` in base ten.
pub fn u64_to_string(n: u64) -> (out: String)
    ensures
        out@ == decimal_digits(n as nat),
    decreases n,
{
    if n < 10 {
        let mut out = String::new();
        push_char(&mut out, digit(n));
        assert(out@ =~= seq![digit_char(n as int)]);
        out
    } else {
        let mut out = u64_to_string(n / 10);
        push_char(&mut out, digit(n % 10));
        out
    }
}

/// `n` in base ten, with a minus sign where it is negative.
pub fn i64_to_string(n: i64) -> (out: String)
    ensures
        out@ == decimal(n as int),
{
    if n < 0 {
        let magnitude: u64 = ((-(n + 1)) as u64) + 1;
        let digits = u64_to_string(magnitude);
        let mut out = String::new();
        push_char(&mut out, '-');
        for ch in it: digits.as_str().chars()
            invariant
                it.seq() == digits@,
                out@ == seq!['-'] + digits@.take(it.index() as int),
        {
            push_char(&mut out, ch);
        }
        assert(out@ =~= seq!['-'] + digits@);
        out
    } else {
        u64_to_string(n as u64)
    }
}

/// `n` in base ten, with a minus sign where it is negative.
pub fn i32_to_string(n: i32) -> (out: String)
    ensures
        out@ == decimal(n as int),
{
    i64_to_string(n as i64)
}

/// Reads `s` as an `i32`: an optional sign, then one digit or more.
pub fn parse_i32(s: &str) -> (parsed: Option<i32>)
    ensures
        parsed == spec_parse_i32(s@),
{
    let n = s.unicode_len();
    if n == 0 {
        return None;
    }
    let first = s.get_char(0);
    let signed = first == '-' || first == '+';
    if signed && n == 1 {
        return None;
    }
    let start: usize = if signed {
        1
    } else {
        0
    };
    let ghost body = s@.skip(start as int);
    // `acc` is the number read so far while it is at most 2^31; beyond that
    // `over` is set, and stays set, since the number can only grow.
    let mut acc: u64 = 0;
    let mut over = false;
    let mut valid = true;
    let mut i: usize = 0;
    for ch in it: s.chars()
        invariant
            it.seq() == s@,
            n == s@.len(),
            start <= 1,
            start <= n,
            body == s@.skip(start as int),
            i == it.index(),
            valid == (i <= start || number_of(s@.subrange(start as int, i as int)) is Some),
            valid && i > start && !over ==> number_of(s@.subrange(start as int, i as int)) == Some(
                acc as nat,
            ),
            valid && i > start && over ==> number_of(s@.subrange(start as int, i as int))->0
                > 0x8000_0000,
            !over ==> acc <= 0x8000_0000,
            i <= start ==> acc == 0 && !over,
    {
        let ghost before = s@.subrange(start as int, i as int);
        let ghost now = s@.subrange(start as int, i as int + 1);
        assert(i >= start ==> now.drop_last() =~= before);
        if i >= start && valid {
            assert(now.last() == ch);
            assert(i == start ==> number_of(before) == Some(0nat)) by {
                assert(i == start ==> before.len() == 0);
            }
            match value_of_digit(ch) {
                Some(d) => {
                    if !over {
                        let next = acc * 10 + d;
                        if next > 0x8000_0000 {
                            over = true;
                        } else {
                            acc = next;
                        }
                    } else {
                        assert(number_of(now)->0 >= number_of(before)->0);
                    }
                },
                None => {
                    valid = false;
                },
            }
        }
        i = i + 1;
    }
    assert(s@.subrange(start as int, n as int) =~= body);
    assert(start == 0 ==> body =~= s@);
    if !valid || over {
        if valid && over {
            assert(number_of(body)->0 > 0x8000_0000);
        }
        return None;
    }
    if first == '-' {
        if acc == 0x8000_0000 {
            Some(i32::MIN)
        } else {
            Some(-(acc as i32))
        }
    } else {
        if acc > 0x7fff_ffff {
            None
        } else {
            Some(acc as i32)
        }
    }
}

/// A run of digits written for a number reads back as that number.
pub proof fn lemma_number_of_decimal_digits(n: nat)
    ensures
        number_of(decimal_digits(n)) == Some(n),
        decimal_digits(n).len() > 0,
        digit_value(decimal_digits(n)[0]) is Some,
    decreases n,
{
    if n < 10 {
        let s = seq![digit_char(n as int)];
        assert(s.drop_last() =~= Seq::<char>::empty());
        assert(number_of(s.drop_last()) == Some(0nat));
    } else {
        lemma_number_of_decimal_digits(n / 10);
        let s = decimal_digits(n / 10).push(digit_char((n % 10) as int));
        assert(s.drop_last() =~= decimal_digits(n / 10));
    }
}

/// What was written for an integer reads back as that integer.
pub proof fn lemma_parse_decimal_roundtrip(n: int)
    ensures
        parse_decimal(decimal(n)) == Some(n),
{
    if n < 0 {
        let digits = decimal_digits((-n) as nat);
        lemma_number_of_decimal_digits((-n) as nat);
        assert(decimal(n).skip(1) =~= digits);
    } else {
        lemma_number_of_decimal_digits(n as nat);
    }
}


/// Whether `needle` stands in `hay` from position `at` on.
pub open spec fn occurs_at(hay: Seq<char>, needle: Seq<char>, at: int) -> bool {
    &&& 0 <= at
    &&& at + needle.len() <= hay.len()
    &&& hay.subrange(at, at + needle.len()) == needle
}

/// Whether `needle` stands somewhere in `hay`. The empty text stands in
/// every text.
pub open spec fn spec_contains(hay: Seq<char>, needle: Seq<char>) -> bool {
    exists|at: int| occurs_at(hay, needle, at)
}

/// The characters of `s`, one by one.
pub fn chars_of(s: &str) -> (chars: Vec<char>)
    ensures
        chars@ == s@,
{
    let mut chars: Vec<char> = Vec::new();
    for ch in it: s.chars()
        invariant
            it.seq() == s@,
            chars@ == s@.take(it.index() as int),
    {
        chars.push(ch);
    }
    assert(s@.take(s@.len() as int) =~= s@);
    chars
}

fn matches_at(hay: &Vec<char>, needle: &Vec<char>, at: usize) -> (found: bool)
    requires
        at + needle.len() <= hay.len(),
    ensures
        found == occurs_at(hay@, needle@, at as int),
{
    let mut j: usize = 0;
    while j < needle.len()
        invariant
            j <= needle.len(),
            at + needle.len() <= hay.len(),
            forall|k: int| 0 <= k < j ==> hay@[at + k] == needle@[k],
        decreases needle.len() - j,
    {
        if hay[at + j] != needle[j] {
            assert(hay@.subrange(at as int, at + needle.len())[j as int] != needle@[j as int]);
            return false;
        }
        j = j + 1;
    }
    assert(hay@.subrange(at as int, at + needle.len()) =~= needle@);
    true
}

/// Whether `needle` stands somewhere in `hay`.
pub fn contains(hay: &str, needle: &str) -> (found: bool)
    ensures
        found == spec_contains(hay@, needle@),
{
    let text = chars_of(hay);
    let word = chars_of(needle);
    if word.len() > text.len() {
        return false;
    }
    let last = text.len() - word.len();
    let mut at: usize = 0;
    while at < last
        invariant
            text@ == hay@,
            word@ == needle@,
            last == text.len() - word.len(),
            at <= last,
            forall|k: int| 0 <= k < at ==> !occurs_at(hay@, needle@, k),
        decreases last - at,
    {
        if matches_at(&text, &word, at) {
            return true;
        }
        at = at + 1;
    }
    matches_at(&text, &word, last)
}


/// Whether a character is white space: whether it is one of the code
/// points that carry Unicode's property `White_Space`. These are the
/// controls from tab to carriage return, the space, the next-line control,
/// the no-break space, the Ogham space mark, the spaces from en quad to hair
/// space, the line and the paragraph separator, the narrow no-break space,
/// the medium mathematical space and the ideographic space.
pub open spec fn white_space(c: char) -> bool {
    let v = c as u32;
    ||| 0x09 <= v <= 0x0D
    ||| v == 0x20
    ||| v == 0x85
    ||| v == 0xA0
    ||| v == 0x1680
    ||| 0x2000 <= v <= 0x200A
    ||| v == 0x2028
    ||| v == 0x2029
    ||| v == 0x202F
    ||| v == 0x205F
    ||| v == 0x3000
}

/// Whether `c` is white space.
pub fn is_whitespace(c: char) -> (white: bool)
    ensures
        white == white_space(c),
{
    let v = c as u32;
    (0x09 <= v && v <= 0x0D) || v == 0x20 || v == 0x85 || v == 0xA0 || v == 0x1680 || (0x2000 <= v
        && v <= 0x200A) || v == 0x2028 || v == 0x2029 || v == 0x202F || v == 0x205F || v == 0x3000
}

/// `s` without the white space that it starts with.
pub open spec fn trim_start(s: Seq<char>) -> Seq<char>
    decreases s.len(),
{
    if s.len() > 0 && white_space(s[0]) {
        trim_start(s.drop_first())
    } else {
        s
    }
}

/// `s` without the white space that it ends with.
pub open spec fn trim_end(s: Seq<char>) -> Seq<char>
    decreases s.len(),
{
    if s.len() > 0 && white_space(s.last()) {
        trim_end(s.drop_last())
    } else {
        s
    }
}

/// `s` without the white space at either end.
pub open spec fn trim(s: Seq<char>) -> Seq<char> {
    trim_end(trim_start(s))
}

/// Whether `s` starts with `prefix`.
pub open spec fn starts_with(s: Seq<char>, prefix: Seq<char>) -> bool {
    prefix.len() <= s.len() && s.take(prefix.len() as int) == prefix
}

/// `s` without `prefix` at its start, as often as `prefix` stands there.
pub open spec fn strip_all(s: Seq<char>, prefix: Seq<char>) -> Seq<char>
    decreases s.len(),
{
    if prefix.len() > 0 && starts_with(s, prefix) {
        strip_all(s.skip(prefix.len() as int), prefix)
    } else {
        s
    }
}

/// The position of the first line feed from `from` on, and the length of
/// `s` where there is none.
pub open spec fn line_end(s: Seq<char>, from: int) -> int
    decreases s.len() - from,
{
    if from < 0 || from >= s.len() {
        s.len() as int
    } else if s[from] == '\n' {
        from
    } else {
        line_end(s, from + 1)
    }
}

/// The line that starts at `from`: what stands before the next line feed,
/// without the carriage return that stands right before that line feed.
pub open spec fn line_at(s: Seq<char>, from: int) -> Seq<char> {
    let end = line_end(s, from);
    let raw = s.subrange(from, end);
    if end < s.len() && raw.len() > 0 && raw.last() == '\r' {
        raw.drop_last()
    } else {
        raw
    }
}

/// Where the line behind the line that starts at `from` starts.
pub open spec fn next_line(s: Seq<char>, from: int) -> int {
    if line_end(s, from) >= from {
        line_end(s, from) + 1
    } else {
        from + 1
    }
}

/// Cutting off a prefix never makes a text longer.
pub proof fn lemma_strip_all_shorter(s: Seq<char>, prefix: Seq<char>)
    ensures
        strip_all(s, prefix).len() <= s.len(),
    decreases s.len(),
{
    if prefix.len() > 0 && starts_with(s, prefix) {
        lemma_strip_all_shorter(s.skip(prefix.len() as int), prefix);
    }
}

/// The end of a line lies at or behind its start, within the text; no line
/// feed stands before it, and a line feed stands at it unless the text ends
/// there.
pub proof fn lemma_line_end(s: Seq<char>, from: int)
    requires
        0 <= from <= s.len(),
    ensures
        from <= line_end(s, from) <= s.len(),
        forall|i: int| from <= i < line_end(s, from) ==> s[i] != '\n',
        line_end(s, from) < s.len() ==> s[line_end(s, from)] == '\n',
    decreases s.len() - from,
{
    if from < s.len() && s[from] != '\n' {
        lemma_line_end(s, from + 1);
    }
}

/// What is left of `s` when the white space before position `start` is cut
/// off, where nothing but white space stands there and none at `start`.
pub proof fn lemma_trim_start(s: Seq<char>, start: int)
    requires
        0 <= start <= s.len(),
        forall|i: int| 0 <= i < start ==> white_space(s[i]),
        start < s.len() ==> !white_space(s[start]),
    ensures
        trim_start(s) == s.skip(start),
    decreases start,
{
    if start == 0 {
        assert(s.skip(0) =~= s);
    } else {
        let rest = s.drop_first();
        assert forall|i: int| 0 <= i < start - 1 implies white_space(rest[i]) by {
            assert(rest[i] == s[i + 1]);
        }
        lemma_trim_start(rest, start - 1);
        assert(rest.skip(start - 1) =~= s.skip(start));
    }
}

/// What is left of `s` when the white space from position `end` on is cut
/// off, where nothing but white space stands there and none before `end`.
pub proof fn lemma_trim_end(s: Seq<char>, end: int)
    requires
        0 <= end <= s.len(),
        forall|i: int| end <= i < s.len() ==> white_space(s[i]),
        end > 0 ==> !white_space(s[end - 1]),
    ensures
        trim_end(s) == s.take(end),
    decreases s.len() - end,
{
    if end == s.len() {
        assert(s.take(end) =~= s);
    } else {
        let rest = s.drop_last();
        lemma_trim_end(rest, end);
        assert(rest.take(end) =~= s.take(end));
    }
}

/// The characters of `chars` as a string.
pub(crate) fn string_of(chars: &Vec<char>, start: usize, end: usize) -> (text: String)
    requires
        start <= end <= chars.len(),
    ensures
        text@ == chars@.subrange(start as int, end as int),
{
    let mut text = String::new();
    let mut i: usize = start;
    while i < end
        invariant
            start <= i <= end <= chars.len(),
            text@ == chars@.subrange(start as int, i as int),
        decreases end - i,
    {
        push_char(&mut text, chars[i]);
        assert(chars@.subrange(start as int, i + 1) =~= chars@.subrange(start as int, i as int).push(
            chars@[i as int],
        ));
        i = i + 1;
    }
    text
}

/// The part of `chars` between `start` and `end` that is left when the
/// white space at either end is cut off.
pub(crate) fn trim_range(chars: &Vec<char>, start: usize, end: usize) -> (range: (usize, usize))
    requires
        start <= end <= chars.len(),
    ensures
        start <= range.0 <= range.1 <= end,
        chars@.subrange(range.0 as int, range.1 as int) == trim(
            chars@.subrange(start as int, end as int),
        ),
{
    let ghost whole = chars@.subrange(start as int, end as int);
    let mut first: usize = start;
    while first < end && is_whitespace(chars[first])
        invariant
            start <= first <= end <= chars.len(),
            forall|i: int| start <= i < first ==> white_space(chars@[i]),
        decreases end - first,
    {
        first = first + 1;
    }
    let mut last: usize = end;
    while last > first && is_whitespace(chars[last - 1])
        invariant
            first <= last <= end <= chars.len(),
            forall|i: int| last <= i < end ==> white_space(chars@[i]),
        decreases last,
    {
        last = last - 1;
    }
    proof {
        lemma_trim_start(whole, first - start);
        let rest = whole.skip(first - start);
        assert(rest =~= chars@.subrange(first as int, end as int));
        lemma_trim_end(rest, last - first);
        assert(rest.take(last - first) =~= chars@.subrange(first as int, last as int));
    }
    (first, last)
}

/// Where in `chars`, from `start` on, what is left begins when `prefix` is
/// cut off as often as it stands at the start.
pub(crate) fn strip_all_from(chars: &Vec<char>, start: usize, end: usize, prefix: &Vec<char>) -> (begin: usize)
    requires
        start <= end <= chars.len(),
        prefix.len() > 0,
    ensures
        start <= begin <= end,
        chars@.subrange(begin as int, end as int) == strip_all(
            chars@.subrange(start as int, end as int),
            prefix@,
        ),
{
    let ghost whole = chars@.subrange(start as int, end as int);
    let mut begin: usize = start;
    loop
        invariant
            start <= begin <= end <= chars.len(),
            prefix.len() > 0,
            whole == chars@.subrange(start as int, end as int),
            strip_all(whole, prefix@) == strip_all(chars@.subrange(begin as int, end as int), prefix@),
        decreases end - begin,
    {
        let ghost rest = chars@.subrange(begin as int, end as int);
        if prefix.len() > end - begin {
            assert(!starts_with(rest, prefix@));
            assert(strip_all(rest, prefix@) == rest);
            return begin;
        }
        let mut j: usize = 0;
        let mut same = true;
        while j < prefix.len()
            invariant
                j <= prefix.len(),
                begin + prefix.len() <= end <= chars.len(),
                same ==> forall|k: int| 0 <= k < j ==> chars@[begin + k] == prefix@[k],
                !same ==> exists|k: int| 0 <= k < prefix.len() && chars@[begin + k] != prefix@[k],
            decreases prefix.len() - j,
        {
            if chars[begin + j] != prefix[j] {
                same = false;
            }
            j = j + 1;
        }
        if !same {
            proof {
                let k = choose|k: int| 0 <= k < prefix.len() && chars@[begin + k] != prefix@[k];
                assert(rest.take(prefix.len() as int)[k] == chars@[begin + k]);
                assert(!starts_with(rest, prefix@));
                assert(strip_all(rest, prefix@) == rest);
            }
            return begin;
        }
        proof {
            assert(rest.take(prefix.len() as int) =~= prefix@);
            assert(rest.skip(prefix.len() as int) =~= chars@.subrange(
                begin + prefix.len(),
                end as int,
            ));
        }
        begin = begin + prefix.len();
    }
}

/// The end of the line that starts at `from`.
pub(crate) fn find_line_end(chars: &Vec<char>, from: usize) -> (end: usize)
    requires
        from <= chars.len(),
    ensures
        end == line_end(chars@, from as int),
        from <= end <= chars.len(),
{
    let mut end: usize = from;
    while end < chars.len() && chars[end] != '\n'
        invariant
            from <= end <= chars.len(),
            line_end(chars@, from as int) == line_end(chars@, end as int),
        decreases chars.len() - end,
    {
        end = end + 1;
    }
    end
}


/// How many bytes the first `n` characters of `s` take in UTF-8: the byte
/// position at which character `n` starts.
pub open spec fn byte_offset(s: Seq<char>, n: int) -> nat {
    encode_utf8(s.take(n)).len()
}

/// The encoding of two texts one after the other is the encoding of the
/// first followed by the encoding of the second.
pub proof fn lemma_encode_utf8_concat(a: Seq<char>, b: Seq<char>)
    ensures
        encode_utf8(a + b) == encode_utf8(a) + encode_utf8(b),
    decreases a.len(),
{
    if a.len() == 0 {
        assert(a + b =~= b);
        assert(encode_utf8(a) + encode_utf8(b) =~= encode_utf8(b));
    } else {
        lemma_encode_utf8_concat(a.drop_first(), b);
        assert((a + b).drop_first() =~= a.drop_first() + b);
        assert(encode_utf8(a + b) =~= encode_utf8(a) + encode_utf8(b));
    }
}

/// How many bytes `c` takes in UTF-8.
pub fn utf8_width(c: char) -> (width: usize)
    ensures
        width == encode_scalar(c as u32).len(),
        1 <= width <= 4,
{
    proof {
        char_is_scalar(c);
    }
    let v = c as u32;
    if v < 0x80 {
        1
    } else if v < 0x800 {
        2
    } else if v < 0x10000 {
        3
    } else {
        4
    }
}

/// The byte position at which character `n` of `s` starts, and the length
/// of `s` in bytes where `s` has no such character.
pub fn byte_index_of(s: &str, n: usize) -> (index: usize)
    ensures
        n <= s@.len() ==> index == byte_offset(s@, n as int),
        n > s@.len() ==> index == byte_offset(s@, s@.len() as int),
{
    let total = s.as_bytes().len();
    let count = s.unicode_len();
    let mut index: usize = 0;
    let mut i: usize = 0;
    proof {
        assert(s@.take(0) =~= Seq::<char>::empty());
        assert(s@.take(s@.len() as int) =~= s@);
    }
    for ch in it: s.chars()
        invariant
            it.seq() == s@,
            i == it.index(),
            count == s@.len(),
            total == encode_utf8(s@).len(),
            i <= n ==> index == byte_offset(s@, i as int),
            i > n ==> index == byte_offset(s@, n as int),
    {
        proof {
            let before = s@.take(i as int);
            assert(s@.take(i + 1) =~= before + seq![ch]);
            lemma_encode_utf8_concat(before, seq![ch]);
            char_is_scalar(ch);
            assert(seq![ch].drop_first() =~= Seq::<char>::empty());
            assert(encode_utf8(Seq::<char>::empty()) =~= Seq::<u8>::empty());
            assert(encode_utf8(seq![ch]) =~= encode_scalar(ch as u32));
            assert(s@ =~= s@.take(i + 1) + s@.skip(i + 1));
            lemma_encode_utf8_concat(s@.take(i + 1), s@.skip(i + 1));
        }
        if i < n {
            index = index + utf8_width(ch);
        }
        i = i + 1;
    }
    index
}

} // verus!
