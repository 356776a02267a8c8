//! Scanning text: stretches of a text, trimming, splitting, searching and
//! reading numbers.

use crate::text::{decimal, digit_char, digits};
use vstd::prelude::*;
use vstd::string::StringExecFns;

verus! {

/// A stretch of a text, from the character at `start` up to but not
/// including the one at `end`.
#[derive(Clone, Copy, Debug, PartialEq, Eq, Structural)]
pub struct Span {
    pub start: usize,
    pub end: usize,
}

impl Span {
    /// Whether the stretch lies within a text of the given length.
    pub open spec fn within(self, len: nat) -> bool {
        self.start <= self.end <= len
    }

    /// The characters of the stretch.
    pub open spec fn of(self, text: Seq<char>) -> Seq<char> {
        text.subrange(self.start as int, self.end as int)
    }
}

/// The characters of a string.
pub fn chars_of(s: &str) -> (v: Vec<char>)
    ensures
        v@ == s@,
{
    let mut v: Vec<char> = Vec::new();
    for c in it: s.chars()
        invariant
            v@ == it.seq().take(it.index() as int),
            it.seq() == s@,
    {
        v.push(c);
    }
    v
}

/// The whole of a text.
pub fn whole(text: &Vec<char>) -> (span: Span)
    ensures
        span.within(text@.len()),
        span.of(text@) == text@,
{
    let span = Span { start: 0, end: text.len() };
    assert(span.of(text@) =~= text@);
    span
}

/// The stretch `span` of the text `source`, of which `text` holds the
/// characters, as a string of its own.
pub fn span_string(source: &str, text: &Vec<char>, span: Span) -> (s: String)
    requires
        text@ == source@,
        span.within(text@.len()),
    ensures
        s@ == span.of(text@),
{
    String::from_str(source.substring_char(span.start, span.end))
}

/// Whether a character is white space: a space, a tab, a line break or
/// one of the other blank characters of Unicode.
pub open spec fn is_space(c: char) -> bool {
    let u = c as u32;
    ||| 0x09 <= u <= 0x0D
    ||| u == 0x20
    ||| u == 0x85
    ||| u == 0xA0
    ||| u == 0x1680
    ||| 0x2000 <= u <= 0x200A
    ||| u == 0x2028
    ||| u == 0x2029
    ||| u == 0x202F
    ||| u == 0x205F
    ||| u == 0x3000
}

/// A class of characters to strip from the ends of a text.
#[derive(Clone, Copy, Debug, PartialEq, Eq, Structural)]
pub enum Class {
    /// White space.
    Space,
    /// One character.
    Is(char),
}

impl Class {
    /// Whether a character belongs to the class.
    pub open spec fn holds(self, c: char) -> bool {
        match self {
            Class::Space => is_space(c),
            Class::Is(d) => c == d,
        }
    }

    /// Whether a character belongs to the class.
    pub fn has(self, c: char) -> (b: bool)
        ensures
            b == self.holds(c),
    {
        match self {
            Class::Space => {
                let u = c as u32;
                (0x09 <= u && u <= 0x0D) || u == 0x20 || u == 0x85 || u == 0xA0 || u == 0x1680 || (
                0x2000 <= u && u <= 0x200A) || u == 0x2028 || u == 0x2029 || u == 0x202F || u
                    == 0x205F || u == 0x3000
            },
            Class::Is(d) => c == d,
        }
    }
}

/// A text without the characters of a class at its start.
pub open spec fn strip_start(s: Seq<char>, class: Class) -> Seq<char>
    decreases s.len(),
{
    if s.len() > 0 && class.holds(s[0]) {
        strip_start(s.drop_first(), class)
    } else {
        s
    }
}

/// A text without the characters of a class at its end.
pub open spec fn strip_end(s: Seq<char>, class: Class) -> Seq<char>
    decreases s.len(),
{
    if s.len() > 0 && class.holds(s.last()) {
        strip_end(s.drop_last(), class)
    } else {
        s
    }
}

/// A text without the characters of a class at either end.
pub open spec fn strip(s: Seq<char>, class: Class) -> Seq<char> {
    strip_end(strip_start(s, class), class)
}

/// A text without white space at either end.
pub open spec fn trim(s: Seq<char>) -> Seq<char> {
    strip(s, Class::Space)
}

/// Strips the characters of a class from the start of a stretch.
pub fn strip_start_span(text: &Vec<char>, span: Span, class: Class) -> (r: Span)
    requires
        span.within(text@.len()),
    ensures
        r.within(text@.len()),
        span.start <= r.start,
        r.end == span.end,
        r.of(text@) == strip_start(span.of(text@), class),
{
    let mut a = span.start;
    while a < span.end && class.has(text[a])
        invariant
            span.start <= a <= span.end <= text@.len(),
            strip_start(span.of(text@), class) == strip_start(
                text@.subrange(a as int, span.end as int),
                class,
            ),
        decreases span.end - a,
    {
        assert(text@.subrange(a as int, span.end as int).drop_first() =~= text@.subrange(
            a + 1,
            span.end as int,
        ));
        a += 1;
    }
    Span { start: a, end: span.end }
}

/// Strips the characters of a class from the end of a stretch.
pub fn strip_end_span(text: &Vec<char>, span: Span, class: Class) -> (r: Span)
    requires
        span.within(text@.len()),
    ensures
        r.within(text@.len()),
        r.start == span.start,
        r.end <= span.end,
        r.of(text@) == strip_end(span.of(text@), class),
{
    let mut b = span.end;
    while b > span.start && class.has(text[b - 1])
        invariant
            span.start <= b <= span.end <= text@.len(),
            strip_end(span.of(text@), class) == strip_end(
                text@.subrange(span.start as int, b as int),
                class,
            ),
        decreases b - span.start,
    {
        assert(text@.subrange(span.start as int, b as int).drop_last() =~= text@.subrange(
            span.start as int,
            b - 1,
        ));
        b -= 1;
    }
    Span { start: span.start, end: b }
}

/// Strips the characters of a class from both ends of a stretch.
pub fn strip_span(text: &Vec<char>, span: Span, class: Class) -> (r: Span)
    requires
        span.within(text@.len()),
    ensures
        r.within(text@.len()),
        span.start <= r.start,
        r.end <= span.end,
        r.of(text@) == strip(span.of(text@), class),
{
    let front = strip_start_span(text, span, class);
    strip_end_span(text, front, class)
}

/// Strips white space from both ends of a stretch.
pub fn trim_span(text: &Vec<char>, span: Span) -> (r: Span)
    requires
        span.within(text@.len()),
    ensures
        r.within(text@.len()),
        span.start <= r.start,
        r.end <= span.end,
        r.of(text@) == trim(span.of(text@)),
{
    strip_span(text, span, Class::Space)
}

/// Where a character first occurs in a text, and the length of the text
/// where it does not occur.
pub open spec fn index_of(s: Seq<char>, c: char) -> int
    decreases s.len(),
{
    if s.len() == 0 || s[0] == c {
        0
    } else {
        1 + index_of(s.drop_first(), c)
    }
}

/// `index_of` is the first place of the character, if there is one.
pub proof fn lemma_index_of(s: Seq<char>, c: char)
    ensures
        0 <= index_of(s, c) <= s.len(),
        index_of(s, c) < s.len() ==> s[index_of(s, c)] == c,
        forall|k: int| 0 <= k < index_of(s, c) ==> s[k] != c,
    decreases s.len(),
{
    if s.len() > 0 && s[0] != c {
        lemma_index_of(s.drop_first(), c);
        assert forall|k: int| 0 <= k < index_of(s, c) implies s[k] != c by {
            if k > 0 {
                assert(s.drop_first()[k - 1] == s[k]);
            }
        }
    }
}

/// A place that holds the character, after places that do not, is where
/// the character first occurs.
pub proof fn lemma_index_of_is(s: Seq<char>, c: char, at: int)
    requires
        0 <= at <= s.len(),
        at < s.len() ==> s[at] == c,
        forall|k: int| 0 <= k < at ==> s[k] != c,
    ensures
        index_of(s, c) == at,
    decreases at,
{
    if at > 0 {
        let rest = s.drop_first();
        assert forall|k: int| 0 <= k < at - 1 implies rest[k] != c by {
            assert(rest[k] == s[k + 1]);
        }
        lemma_index_of_is(rest, c, at - 1);
    }
}

/// Finds where a character first occurs in a stretch: the place in the
/// text, and the end of the stretch where it does not occur.
pub fn find_char(text: &Vec<char>, span: Span, c: char) -> (at: usize)
    requires
        span.within(text@.len()),
    ensures
        span.start <= at <= span.end,
        at - span.start == index_of(span.of(text@), c),
        at < span.end ==> text@[at as int] == c,
{
    let mut at = span.start;
    while at < span.end && text[at] != c
        invariant
            span.start <= at <= span.end <= text@.len(),
            forall|k: int| span.start <= k < at ==> text@[k] != c,
        decreases span.end - at,
    {
        at += 1;
    }
    proof {
        lemma_index_of_is(span.of(text@), c, at - span.start);
    }
    at
}

/// The pieces of a text between the occurrences of a separator. A text
/// without the separator is one piece.
pub open spec fn split(s: Seq<char>, c: char) -> Seq<Seq<char>>
    decreases s.len(),
{
    let i = index_of(s, c);
    if 0 <= i < s.len() {
        seq![s.take(i)] + split(s.skip(i + 1), c)
    } else {
        seq![s]
    }
}

/// The characters of each of a list of stretches.
pub open spec fn pieces(text: Seq<char>, spans: Seq<Span>) -> Seq<Seq<char>> {
    Seq::new(spans.len(), |i: int| spans[i].of(text))
}

/// Whether all of a list of stretches lie within a text of the given
/// length.
pub open spec fn all_within(spans: Seq<Span>, len: nat) -> bool {
    forall|i: int| 0 <= i < spans.len() ==> (#[trigger] spans[i]).within(len)
}

/// Splits a stretch at the occurrences of a separator.
pub fn split_span(text: &Vec<char>, span: Span, c: char) -> (parts: Vec<Span>)
    requires
        span.within(text@.len()),
    ensures
        all_within(parts@, text@.len()),
        pieces(text@, parts@) == split(span.of(text@), c),
        parts@.len() >= 1,
{
    let mut parts: Vec<Span> = Vec::new();
    let mut from = span.start;
    loop
        invariant_except_break
            span.start <= from <= span.end <= text@.len(),
            all_within(parts@, text@.len()),
            split(span.of(text@), c) == pieces(text@, parts@) + split(
                text@.subrange(from as int, span.end as int),
                c,
            ),
        ensures
            all_within(parts@, text@.len()),
            pieces(text@, parts@) == split(span.of(text@), c),
            parts@.len() >= 1,
        decreases span.end - from,
    {
        let rest = Span { start: from, end: span.end };
        let at = find_char(text, rest, c);
        let ghost before = parts@;
        parts.push(Span { start: from, end: at });
        proof {
            lemma_index_of(rest.of(text@), c);
            assert(rest.of(text@).take(at - from) =~= text@.subrange(from as int, at as int));
            assert(pieces(text@, parts@) =~= pieces(text@, before) + seq![
                text@.subrange(from as int, at as int),
            ]);
        }
        if at == span.end {
            break ;
        }
        proof {
            assert(rest.of(text@).skip(at - from + 1) =~= text@.subrange(at + 1, span.end as int));
        }
        from = at + 1;
    }
    parts
}

/// Cuts a stretch in two at the first occurrence of a separator: the part
/// before it and, if the separator occurs, the part after it.
pub fn split_once_span(text: &Vec<char>, span: Span, c: char) -> (r: (Span, Option<Span>))
    requires
        span.within(text@.len()),
    ensures
        r.0.within(text@.len()),
        r.0.of(text@) == span.of(text@).take(index_of(span.of(text@), c)),
        match r.1 {
            Some(rest) => {
                &&& rest.within(text@.len())
                &&& index_of(span.of(text@), c) < span.of(text@).len()
                &&& rest.of(text@) == span.of(text@).skip(index_of(span.of(text@), c) + 1)
            },
            None => index_of(span.of(text@), c) == span.of(text@).len(),
        },
{
    let at = find_char(text, span, c);
    let head = Span { start: span.start, end: at };
    assert(head.of(text@) =~= span.of(text@).take(at - span.start));
    if at < span.end {
        let rest = Span { start: at + 1, end: span.end };
        assert(rest.of(text@) =~= span.of(text@).skip(at - span.start + 1));
        (head, Some(rest))
    } else {
        (head, None)
    }
}

/// Whether a text begins with another.
pub open spec fn starts_with(s: Seq<char>, p: Seq<char>) -> bool {
    p.len() <= s.len() && s.take(p.len() as int) == p
}

/// Where a text first occurs in another, if it does.
pub open spec fn find(s: Seq<char>, p: Seq<char>) -> Option<int>
    decreases s.len(),
{
    if starts_with(s, p) {
        Some(0)
    } else if s.len() == 0 {
        None
    } else {
        match find(s.drop_first(), p) {
            Some(i) => Some(i + 1),
            None => None,
        }
    }
}

/// Whether a stretch begins with a text.
pub fn begins_with(text: &Vec<char>, span: Span, p: &Vec<char>) -> (b: bool)
    requires
        span.within(text@.len()),
    ensures
        b == starts_with(span.of(text@), p@),
{
    let n = p.len();
    if n > span.end - span.start {
        return false;
    }
    let mut k: usize = 0;
    while k < n
        invariant
            k <= n,
            n == p@.len(),
            n <= span.end - span.start,
            span.within(text@.len()),
            forall|j: int| 0 <= j < k ==> text@[span.start + j] == p@[j],
        decreases n - k,
    {
        if text[span.start + k] != p[k] {
            assert(span.of(text@).take(n as int)[k as int] != p@[k as int]);
            return false;
        }
        k += 1;
    }
    assert(span.of(text@).take(n as int) =~= p@);
    true
}

/// Whether a stretch reads exactly as a text.
pub fn span_is(text: &Vec<char>, span: Span, p: &str) -> (b: bool)
    requires
        span.within(text@.len()),
    ensures
        b == (span.of(text@) == p@),
{
    let word = chars_of(p);
    if word.len() != span.end - span.start {
        return false;
    }
    let b = begins_with(text, span, &word);
    assert(span.of(text@).take(word@.len() as int) =~= span.of(text@));
    b
}

/// Finds where a text first occurs in a stretch: the place in the text.
pub fn find_in(text: &Vec<char>, span: Span, p: &Vec<char>) -> (r: Option<usize>)
    requires
        span.within(text@.len()),
    ensures
        match r {
            Some(at) => {
                &&& span.start <= at
                &&& at + p@.len() <= span.end
                &&& find(span.of(text@), p@) == Some(at - span.start)
            },
            None => find(span.of(text@), p@).is_none(),
        },
{
    let mut at = span.start;
    loop
        invariant
            span.start <= at <= span.end <= text@.len(),
            find(span.of(text@), p@) == match find(
                text@.subrange(at as int, span.end as int),
                p@,
            ) {
                Some(i) => Some(i + at - span.start),
                None => None,
            },
        decreases span.end - at,
    {
        let rest = Span { start: at, end: span.end };
        if begins_with(text, rest, p) {
            return Some(at);
        }
        if at == span.end {
            return None;
        }
        assert(rest.of(text@).drop_first() =~= text@.subrange(at + 1, span.end as int));
        at += 1;
    }
}

/// Whether a character is a decimal digit.
pub open spec fn is_digit(c: char) -> bool {
    '0' <= c <= '9'
}

/// The value of a decimal digit.
pub open spec fn digit_value(c: char) -> int {
    c as u32 - '0' as u32
}

/// Whether a text is made of decimal digits only.
pub open spec fn all_digits(s: Seq<char>) -> bool {
    forall|i: int| 0 <= i < s.len() ==> is_digit(#[trigger] s[i])
}

/// The number that a text of decimal digits stands for.
pub open spec fn number(s: Seq<char>) -> int
    decreases s.len(),
{
    if s.len() == 0 {
        0
    } else {
        number(s.drop_last()) * 10 + digit_value(s.last())
    }
}

/// The integer that a text stands for: a sign, if any, and then at least
/// one decimal digit and nothing else.
pub open spec fn integer(s: Seq<char>) -> Option<int> {
    let signed = s.len() > 0 && (s[0] == '-' || s[0] == '+');
    let body = if signed {
        s.drop_first()
    } else {
        s
    };
    if body.len() == 0 || !all_digits(body) {
        None
    } else if signed && s[0] == '-' {
        Some(-number(body))
    } else {
        Some(number(body))
    }
}

/// The integer that a text stands for, if it lies within the given
/// bounds.
pub open spec fn integer_within(s: Seq<char>, lo: int, hi: int) -> Option<int> {
    match integer(s) {
        Some(v) => if lo <= v <= hi {
            Some(v)
        } else {
            None
        },
        None => None,
    }
}

/// The number of a text of digits is not negative.
pub proof fn lemma_number_nonnegative(s: Seq<char>)
    requires
        all_digits(s),
    ensures
        number(s) >= 0,
    decreases s.len(),
{
    if s.len() > 0 {
        assert(all_digits(s.drop_last())) by {
            assert forall|i: int| 0 <= i < s.drop_last().len() implies is_digit(
                #[trigger] s.drop_last()[i],
            ) by {
                assert(s.drop_last()[i] == s[i]);
            }
        }
        lemma_number_nonnegative(s.drop_last());
        assert(is_digit(s.last()));
    }
}

/// The decimal digits of a number are digits, and they stand for the
/// number.
pub proof fn lemma_digits_read_back(n: nat)
    ensures
        digits(n).len() >= 1,
        all_digits(digits(n)),
        number(digits(n)) == n,
    decreases n,
{
    let d = digit_char((n % 10) as int);
    assert(is_digit(d) && digit_value(d) == n % 10);
    assert(digits(n).last() == d);
    if n < 10 {
        assert(digits(n).drop_last() =~= Seq::<char>::empty());
        assert(number(digits(n).drop_last()) == 0);
        assert(number(digits(n)) == number(digits(n).drop_last()) * 10 + digit_value(d));
    } else {
        lemma_digits_read_back(n / 10);
        let front = digits(n / 10);
        assert(digits(n).drop_last() =~= front);
        assert(number(digits(n)) == number(front) * 10 + digit_value(d));
        assert forall|i: int| 0 <= i < digits(n).len() implies is_digit(
            #[trigger] digits(n)[i],
        ) by {
            if i < front.len() {
                assert(digits(n)[i] == front[i]);
            }
        }
    }
}

/// Reading the decimal text of an integer gives the integer back.
pub proof fn lemma_decimal_reads_back(v: int)
    ensures
        integer(decimal(v)) == Some(v),
{
    if v < 0 {
        lemma_digits_read_back((-v) as nat);
        assert(decimal(v).drop_first() =~= digits((-v) as nat));
        assert(decimal(v)[0] == '-');
    } else {
        lemma_digits_read_back(v as nat);
        let first = digits(v as nat)[0];
        assert(is_digit(first));
    }
}

/// Numbers from here on are too large to be told apart.
pub const DIGIT_LIMIT: i64 = 1_000_000_000_000;

/// Reads the digits of a stretch: the number they stand for, or `None`
/// where the stretch holds anything but digits. A number beyond
/// `DIGIT_LIMIT` is reported as `DIGIT_LIMIT`.
pub fn read_digits(text: &Vec<char>, span: Span) -> (r: Option<i64>)
    requires
        span.within(text@.len()),
    ensures
        match r {
            Some(v) => {
                &&& all_digits(span.of(text@))
                &&& 0 <= v <= DIGIT_LIMIT
                &&& v < DIGIT_LIMIT ==> v == number(span.of(text@))
                &&& v == DIGIT_LIMIT ==> number(span.of(text@)) >= DIGIT_LIMIT
            },
            None => !all_digits(span.of(text@)),
        },
{
    let mut acc: i64 = 0;
    let mut k = span.start;
    while k < span.end
        invariant
            span.start <= k <= span.end <= text@.len(),
            all_digits(text@.subrange(span.start as int, k as int)),
            0 <= acc <= DIGIT_LIMIT,
            acc < DIGIT_LIMIT ==> acc == number(text@.subrange(span.start as int, k as int)),
            acc == DIGIT_LIMIT ==> number(text@.subrange(span.start as int, k as int))
                >= DIGIT_LIMIT,
        decreases span.end - k,
    {
        let c = text[k];
        if !('0' <= c && c <= '9') {
            assert(!is_digit(span.of(text@)[k - span.start]));
            return None;
        }
        let d = (c as u32 - '0' as u32) as i64;
        proof {
            let upto = text@.subrange(span.start as int, k as int);
            let next = text@.subrange(span.start as int, k + 1);
            assert(next.drop_last() =~= upto);
            assert(next.last() == c);
            assert forall|i: int| 0 <= i < next.len() implies is_digit(#[trigger] next[i]) by {
                if i < upto.len() {
                    assert(next[i] == upto[i]);
                }
            }
            lemma_number_nonnegative(upto);
        }
        acc = acc * 10 + d;
        if acc > DIGIT_LIMIT {
            acc = DIGIT_LIMIT;
        }
        k += 1;
    }
    assert(text@.subrange(span.start as int, span.end as int) == span.of(text@));
    Some(acc)
}

/// Reads the integer that a stretch stands for, if it lies within the
/// given bounds.
pub fn read_integer(text: &Vec<char>, span: Span, lo: i64, hi: i64) -> (r: Option<i64>)
    requires
        span.within(text@.len()),
        -DIGIT_LIMIT < lo <= hi < DIGIT_LIMIT,
    ensures
        match r {
            Some(v) => integer_within(span.of(text@), lo as int, hi as int) == Some(v as int),
            None => integer_within(span.of(text@), lo as int, hi as int).is_none(),
        },
{
    let signed = span.start < span.end && (text[span.start] == '-' || text[span.start] == '+');
    let negative = signed && text[span.start] == '-';
    let body = if signed {
        Span { start: span.start + 1, end: span.end }
    } else {
        span
    };
    proof {
        if signed {
            assert(body.of(text@) =~= span.of(text@).drop_first());
        }
        assert(span.start < span.end ==> span.of(text@)[0] == text@[span.start as int]);
    }
    if body.start == body.end {
        return None;
    }
    match read_digits(text, body) {
        Some(v) => {
            let value = if negative {
                -v
            } else {
                v
            };
            if v < DIGIT_LIMIT && lo <= value && value <= hi {
                Some(value)
            } else {
                None
            }
        },
        None => None,
    }
}

} // verus!
