//! Size literals: a run of decimal digits followed by a unit, such as
//! `32bytes`, `20mb` or `5GB`.
//!
//! ```text
//! literal := digits unit
//! digits  := one or more ASCII decimal digits
//! unit    := "b" | "bytes" | "kb" | "mb" | "gb"
//! ```
//!
//! Letters are read without regard to case and whitespace around the literal
//! is ignored. The units are binary: `kb` is 1024 bytes, `mb` is 1024 `kb`,
//! `gb` is 1024 `mb`.

use vstd::prelude::*;

verus! {

/// Why a text is not a size literal, or names a size that cannot be held.
#[derive(Clone, Copy, Debug, PartialEq, Eq, Structural)]
pub enum SizeParseError {
    /// The text does not start with a digit.
    EmptyDigits,
    /// The digits alone name a number above `usize::MAX`.
    BadNumber,
    /// What follows the digits is not one of the units.
    UnknownUnit,
    /// The number fits, but the number of bytes it stands for does not.
    Overflow,
}

impl SizeParseError {
    /// The words in which this error is reported.
    pub open spec fn message_spec(self) -> Seq<char> {
        match self {
            SizeParseError::EmptyDigits => "Invalid number format"@,
            SizeParseError::BadNumber => "Invalid number format"@,
            SizeParseError::UnknownUnit => "Unknown unit"@,
            SizeParseError::Overflow => "Size out of range"@,
        }
    }

    /// The words in which this error is reported.
    pub fn message(&self) -> (text: &'static str)
        ensures
            text@ == self.message_spec(),
    {
        match self {
            SizeParseError::EmptyDigits => "Invalid number format",
            SizeParseError::BadNumber => "Invalid number format",
            SizeParseError::UnknownUnit => "Unknown unit",
            SizeParseError::Overflow => "Size out of range",
        }
    }
}

/// The units a size can be given in.
#[derive(Clone, Copy, Debug, PartialEq, Eq, Structural)]
pub enum Unit {
    Bytes,
    Kilobytes,
    Megabytes,
    Gigabytes,
}

impl Unit {
    /// How many bytes one of this unit is.
    pub open spec fn factor(self) -> nat {
        match self {
            Unit::Bytes => 1,
            Unit::Kilobytes => 1024,
            Unit::Megabytes => 1024 * 1024,
            Unit::Gigabytes => 1024 * 1024 * 1024,
        }
    }

    /// How many bytes one of this unit is.
    pub fn multiplier(self) -> (m: usize)
        ensures
            m == self.factor(),
    {
        match self {
            Unit::Bytes => 1,
            Unit::Kilobytes => 1024,
            Unit::Megabytes => 1048576,
            Unit::Gigabytes => 1073741824,
        }
    }
}

/// Whether `c` is one of the ten ASCII decimal digits.
pub open spec fn is_digit(c: char) -> bool {
    '0' <= c <= '9'
}

/// The number that the digit `c` stands for.
pub open spec fn digit_value(c: char) -> nat {
    (c as u32 - '0' as u32) as nat
}

/// Whether `c` is whitespace: a character with the Unicode property
/// `White_Space`.
pub open spec fn is_space(c: char) -> bool {
    let u = c as u32;
    ||| 0x09 <= u <= 0x0D
    ||| u == 0x20
    ||| u == 0x85
    ||| u == 0xA0
    ||| u == 0x1680
    ||| 0x2000 <= u <= 0x200A
    ||| u == 0x2028
    ||| u == 0x2029
    ||| u == 0x202F
    ||| u == 0x205F
    ||| u == 0x3000
}

/// The character that `c` is read as: a capital ASCII letter stands for its
/// small letter, and so does the Kelvin sign (U+212A) for `k`, the one other
/// character whose lowercase form is an ASCII letter. Every other character
/// stands for itself.
pub open spec fn fold(c: char) -> char {
    if 'A' <= c <= 'Z' {
        (c as u32 + 32) as char
    } else if c == '\u{212A}' {
        'k'
    } else {
        c
    }
}

/// `s` with every character folded.
pub open spec fn fold_case(s: Seq<char>) -> Seq<char> {
    Seq::new(s.len(), |i: int| fold(s[i]))
}

/// How many whitespace characters `s` starts with.
pub open spec fn leading_spaces(s: Seq<char>) -> nat
    decreases s.len(),
{
    if s.len() > 0 && is_space(s[0]) {
        1 + leading_spaces(s.drop_first())
    } else {
        0
    }
}

/// How many whitespace characters `s` ends with.
pub open spec fn trailing_spaces(s: Seq<char>) -> nat
    decreases s.len(),
{
    if s.len() > 0 && is_space(s.last()) {
        1 + trailing_spaces(s.drop_last())
    } else {
        0
    }
}

/// `s` without the whitespace at its two ends.
pub open spec fn trim(s: Seq<char>) -> Seq<char> {
    let front = s.skip(leading_spaces(s) as int);
    front.take(front.len() - trailing_spaces(front))
}

/// How many digits `s` starts with.
pub open spec fn digit_run(s: Seq<char>) -> nat
    decreases s.len(),
{
    if s.len() > 0 && is_digit(s[0]) {
        1 + digit_run(s.drop_first())
    } else {
        0
    }
}

/// The number that a sequence of digits is the decimal notation of. Leading
/// zeros do not change it, and the empty sequence stands for zero.
pub open spec fn decimal_value(digits: Seq<char>) -> nat
    decreases digits.len(),
{
    if digits.len() == 0 {
        0
    } else {
        10 * decimal_value(digits.drop_last()) + digit_value(digits.last())
    }
}

/// The unit that the folded word `word` names, if it names one.
pub open spec fn unit_named(word: Seq<char>) -> Option<Unit> {
    if word == seq!['b'] || word == seq!['b', 'y', 't', 'e', 's'] {
        Some(Unit::Bytes)
    } else if word == seq!['k', 'b'] {
        Some(Unit::Kilobytes)
    } else if word == seq!['m', 'b'] {
        Some(Unit::Megabytes)
    } else if word == seq!['g', 'b'] {
        Some(Unit::Gigabytes)
    } else {
        None
    }
}

/// The bytes in `number` of `unit`, where both the number and the bytes fit
/// in `usize`.
pub open spec fn size_of(number: nat, unit: Unit) -> Result<usize, SizeParseError> {
    if number > usize::MAX {
        Err(SizeParseError::BadNumber)
    } else if number * unit.factor() > usize::MAX {
        Err(SizeParseError::Overflow)
    } else {
        Ok((number * unit.factor()) as usize)
    }
}

/// What a text means as a size. The text is folded and trimmed; the digits
/// it then starts with are the number, and all that follows them is the
/// unit. The errors are tested in the order in which they are listed in
/// [`SizeParseError`], so a text with several faults has the first of them.
pub open spec fn parse_spec(text: Seq<char>) -> Result<usize, SizeParseError> {
    let body = trim(fold_case(text));
    let run = digit_run(body) as int;
    let number = decimal_value(body.take(run));
    if run == 0 {
        Err(SizeParseError::EmptyDigits)
    } else if number > usize::MAX {
        Err(SizeParseError::BadNumber)
    } else {
        match unit_named(body.skip(run)) {
            None => Err(SizeParseError::UnknownUnit),
            Some(unit) => size_of(number, unit),
        }
    }
}

fn digit(c: char) -> (b: bool)
    ensures
        b == is_digit(c),
{
    c >= '0' && c <= '9'
}

fn space(c: char) -> (b: bool)
    ensures
        b == is_space(c),
{
    let u: u32 = c as u32;
    (0x09 <= u && u <= 0x0D) || u == 0x20 || u == 0x85 || u == 0xA0 || u == 0x1680 || (0x2000 <= u
        && u <= 0x200A) || u == 0x2028 || u == 0x2029 || u == 0x202F || u == 0x205F || u == 0x3000
}

fn folded(c: char) -> (r: char)
    ensures
        r == fold(c),
{
    if c >= 'A' && c <= 'Z' {
        let low: u8 = c as u8 + 32;
        low as char
    } else if c == '\u{212A}' {
        'k'
    } else {
        c
    }
}

/// The characters of `text`, each of them folded.
fn folded_chars(text: &str) -> (out: Vec<char>)
    ensures
        out@ == fold_case(text@),
{
    let mut out: Vec<char> = Vec::new();
    for c in it: text.chars()
        invariant
            it.seq() == text@,
            out@ == fold_case(it.seq().take(it.index())),
    {
        assert(it.seq().take(it.index() + 1) == it.seq().take(it.index()).push(c));
        out.push(folded(c));
    }
    assert(text@.take(text@.len() as int) == text@);
    out
}

/// The unit that the characters of `chars` from `from` up to `to` name.
fn unit_of(chars: &Vec<char>, from: usize, to: usize) -> (r: Option<Unit>)
    requires
        from <= to <= chars.len(),
    ensures
        r == unit_named(chars@.subrange(from as int, to as int)),
{
    let ghost word = chars@.subrange(from as int, to as int);
    let len = to - from;
    proof {
        assert(seq!['b'].len() == 1);
        assert(seq!['k', 'b'].len() == 2 && seq!['k', 'b'][0] == 'k');
        assert(seq!['m', 'b'].len() == 2 && seq!['m', 'b'][0] == 'm');
        assert(seq!['g', 'b'].len() == 2 && seq!['g', 'b'][0] == 'g');
        assert(seq!['b', 'y', 't', 'e', 's'].len() == 5);
    }
    if len == 1 {
        if chars[from] == 'b' {
            assert(word =~= seq!['b']);
            Some(Unit::Bytes)
        } else {
            assert(word[0] != 'b');
            None
        }
    } else if len == 2 {
        let first = chars[from];
        if chars[from + 1] != 'b' {
            assert(word[1] != 'b');
            None
        } else if first == 'k' {
            assert(word =~= seq!['k', 'b']);
            Some(Unit::Kilobytes)
        } else if first == 'm' {
            assert(word =~= seq!['m', 'b']);
            Some(Unit::Megabytes)
        } else if first == 'g' {
            assert(word =~= seq!['g', 'b']);
            Some(Unit::Gigabytes)
        } else {
            assert(word[0] == first);
            None
        }
    } else if len == 5 {
        if chars[from] == 'b' && chars[from + 1] == 'y' && chars[from + 2] == 't' && chars[from
            + 3] == 'e' && chars[from + 4] == 's' {
            assert(word =~= seq!['b', 'y', 't', 'e', 's']);
            Some(Unit::Bytes)
        } else {
            assert(word[0] != 'b' || word[1] != 'y' || word[2] != 't' || word[3] != 'e' || word[4]
                != 's');
            None
        }
    } else {
        None
    }
}

/// A count of leading whitespace is the right one if all before it is
/// whitespace and what stands at it is not.
pub(crate) proof fn lemma_leading_spaces(s: Seq<char>, n: int)
    requires
        0 <= n <= s.len(),
        forall|i: int| 0 <= i < n ==> is_space(s[i]),
        n < s.len() ==> !is_space(s[n]),
    ensures
        leading_spaces(s) == n,
    decreases n,
{
    if n > 0 {
        let rest = s.drop_first();
        assert forall|i: int| 0 <= i < n - 1 implies is_space(rest[i]) by {
            assert(rest[i] == s[i + 1]);
        }
        lemma_leading_spaces(rest, n - 1);
    }
}

/// The same for whitespace at the end.
pub(crate) proof fn lemma_trailing_spaces(s: Seq<char>, n: int)
    requires
        0 <= n <= s.len(),
        forall|i: int| s.len() - n <= i < s.len() ==> is_space(s[i]),
        n < s.len() ==> !is_space(s[s.len() - n - 1]),
    ensures
        trailing_spaces(s) == n,
    decreases n,
{
    if n > 0 {
        let rest = s.drop_last();
        assert forall|i: int| rest.len() - (n - 1) <= i < rest.len() implies is_space(rest[i]) by {
            assert(rest[i] == s[i]);
        }
        lemma_trailing_spaces(rest, n - 1);
    }
}

/// The same for digits at the front.
pub(crate) proof fn lemma_digit_run(s: Seq<char>, n: int)
    requires
        0 <= n <= s.len(),
        forall|i: int| 0 <= i < n ==> is_digit(s[i]),
        n < s.len() ==> !is_digit(s[n]),
    ensures
        digit_run(s) == n,
    decreases n,
{
    if n > 0 {
        let rest = s.drop_first();
        assert forall|i: int| 0 <= i < n - 1 implies is_digit(rest[i]) by {
            assert(rest[i] == s[i + 1]);
        }
        lemma_digit_run(rest, n - 1);
    }
}

/// A run of digits is at least as long as any stretch of digits at the front.
proof fn lemma_digit_run_covers(s: Seq<char>, n: int)
    requires
        0 <= n <= s.len(),
        forall|i: int| 0 <= i < n ==> is_digit(s[i]),
    ensures
        n <= digit_run(s) <= s.len(),
    decreases s.len(),
{
    if s.len() > 0 && is_digit(s[0]) {
        let rest = s.drop_first();
        if n > 0 {
            assert forall|i: int| 0 <= i < n - 1 implies is_digit(rest[i]) by {
                assert(rest[i] == s[i + 1]);
            }
            lemma_digit_run_covers(rest, n - 1);
        } else {
            lemma_digit_run_covers(rest, 0);
        }
    }
}

/// More digits never name a smaller number.
proof fn lemma_decimal_grows(s: Seq<char>, a: int, b: int)
    requires
        0 <= a <= b <= s.len(),
    ensures
        decimal_value(s.take(a)) <= decimal_value(s.take(b)),
    decreases b - a,
{
    if a < b {
        lemma_decimal_grows(s, a, b - 1);
        assert(s.take(b).drop_last() == s.take(b - 1));
    }
}

/// Reads a size literal and gives the number of bytes it stands for.
///
/// The result is a function of the text alone. It is `Ok` exactly for a
/// literal of the grammar whose size fits in `usize`; every other text has
/// the one error that [`parse_spec`] gives it.
pub fn parse_size(size_str: &str) -> (r: Result<usize, SizeParseError>)
    ensures
        r == parse_spec(size_str@),
{
    let chars = folded_chars(size_str);
    let n = chars.len();
    let mut start: usize = 0;
    while start < n && space(chars[start])
        invariant
            start <= n == chars.len(),
            forall|i: int| 0 <= i < start ==> is_space(chars@[i]),
        decreases n - start,
    {
        start += 1;
    }
    let mut end: usize = n;
    while end > start && space(chars[end - 1])
        invariant
            start <= end <= n == chars.len(),
            forall|i: int| end <= i < n ==> is_space(chars@[i]),
        decreases end,
    {
        end -= 1;
    }
    let ghost body = chars@.subrange(start as int, end as int);
    proof {
        let front = chars@.skip(start as int);
        lemma_leading_spaces(chars@, start as int);
        lemma_trailing_spaces(front, n - end);
        assert(front.take(front.len() - (n - end)) =~= body);
        assert(body == trim(chars@));
    }
    let mut at: usize = start;
    let mut number: usize = 0;
    while at < end && digit(chars[at])
        invariant
            start <= at <= end <= chars.len(),
            chars@ == fold_case(size_str@),
            body == trim(chars@),
            body == chars@.subrange(start as int, end as int),
            forall|i: int| 0 <= i < at - start ==> is_digit(body[i]),
            number == decimal_value(body.take(at - start)),
        decreases end - at,
    {
        let d: usize = (chars[at] as u32 - '0' as u32) as usize;
        let ghost seen = body.take(at - start + 1);
        proof {
            assert(seen.drop_last() == body.take(at - start));
            assert(seen.last() == chars@[at as int]);
            assert(decimal_value(seen) == 10 * number + d);
        }
        let grown = match number.checked_mul(10) {
            Some(tens) => tens.checked_add(d),
            None => None,
        };
        match grown {
            Some(more) => {
                number = more;
            },
            None => {
                proof {
                    lemma_digit_run_covers(body, at - start + 1);
                    lemma_decimal_grows(body, at - start + 1, digit_run(body) as int);
                }
                return Err(SizeParseError::BadNumber);
            },
        }
        at += 1;
    }
    proof {
        lemma_digit_run(body, at - start);
        assert(body.skip(at - start) =~= chars@.subrange(at as int, end as int));
    }
    if at == start {
        return Err(SizeParseError::EmptyDigits);
    }
    match unit_of(&chars, at, end) {
        None => Err(SizeParseError::UnknownUnit),
        Some(unit) => match number.checked_mul(unit.multiplier()) {
            Some(bytes) => Ok(bytes),
            None => Err(SizeParseError::Overflow),
        },
    }
}

} // verus!
