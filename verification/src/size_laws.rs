//! What holds of every size literal.

use vstd::prelude::*;
use crate::size::{
    decimal_value, digit_run, fold_case, is_digit, is_space, leading_spaces, lemma_digit_run,
    lemma_leading_spaces, lemma_trailing_spaces, parse_spec, size_of, trailing_spaces, trim,
    unit_named, SizeParseError, Unit,
};

verus! {

/// The digit that stands for `d`, a number below ten.
pub open spec fn digit_char(d: nat) -> char {
    ('0' as u32 + d) as char
}

/// The decimal notation of `k`: no leading zeros, and `0` for zero.
pub open spec fn decimal_digits(k: nat) -> Seq<char>
    decreases k,
{
    if k < 10 {
        seq![digit_char(k)]
    } else {
        decimal_digits(k / 10).push(digit_char(k % 10))
    }
}

/// The capital of `c` where `c` is a small ASCII letter, else `c`.
pub open spec fn upper(c: char) -> char {
    if 'a' <= c <= 'z' {
        (c as u32 - 32) as char
    } else {
        c
    }
}

/// `s` with every small ASCII letter made a capital.
pub open spec fn upper_case(s: Seq<char>) -> Seq<char> {
    Seq::new(s.len(), |i: int| upper(s[i]))
}

/// Whether `s` is one or more digits and nothing else.
pub open spec fn is_number(s: Seq<char>) -> bool {
    s.len() > 0 && forall|i: int| 0 <= i < s.len() ==> is_digit(#[trigger] s[i])
}

/// The decimal notation of a number is a run of digits that names it.
pub proof fn decimal_digits_name(k: nat)
    ensures
        is_number(decimal_digits(k)),
        decimal_value(decimal_digits(k)) == k,
    decreases k,
{
    if k < 10 {
        let s = decimal_digits(k);
        assert(s.drop_last() =~= Seq::<char>::empty());
        assert(decimal_value(s.drop_last()) == 0);
    } else {
        decimal_digits_name(k / 10);
        let s = decimal_digits(k);
        assert(s.drop_last() =~= decimal_digits(k / 10));
    }
}

/// A run of digits followed by a unit, in letters of either case, is a
/// literal: it stands for the number that the digits name, in that unit.
pub proof fn literal_parses(digits: Seq<char>, word: Seq<char>)
    requires
        is_number(digits),
        unit_named(fold_case(word)) is Some,
    ensures
        parse_spec(digits + word) == size_of(
            decimal_value(digits),
            unit_named(fold_case(word))->0,
        ),
{
    let text = digits + word;
    let low = fold_case(word);
    let body = fold_case(text);
    let run = digits.len() as int;
    assert(low.len() == word.len());
    assert(low.len() == 1 || low.len() == 2 || low.len() == 5);
    assert(!is_digit(low[0]) && !is_space(low.last()));
    assert forall|i: int| 0 <= i < run implies body[i] == digits[i] by {
        assert(is_digit(digits[i]));
    }
    assert(body[run] == low[0]);
    assert(body.last() == low.last());
    assert(is_digit(body[0]));
    assert(leading_spaces(body) == 0);
    assert(body.skip(0) =~= body);
    assert(trailing_spaces(body) == 0);
    assert(body.take(body.len() as int) =~= body);
    assert(trim(body) == body);
    lemma_digit_run(body, run);
    assert(body.take(run) =~= digits);
    assert(body.skip(run) =~= low);
}

/// Unit algebra: for every number `k`, its decimal notation followed by a
/// unit stands for `k` times the unit, whenever that many bytes fit in
/// `usize`. Where `k` itself does not fit the literal is a bad number, and
/// where only the product does not it overflows.
pub proof fn unit_algebra(k: nat, word: Seq<char>, unit: Unit)
    requires
        unit_named(fold_case(word)) == Some(unit),
    ensures
        parse_spec(decimal_digits(k) + word) == size_of(k, unit),
        k * unit.factor() <= usize::MAX ==> parse_spec(decimal_digits(k) + word) == Ok::<
            usize,
            SizeParseError,
        >((k * unit.factor()) as usize),
{
    decimal_digits_name(k);
    literal_parses(decimal_digits(k), word);
    assert(k * unit.factor() >= k) by (nonlinear_arith)
        requires
            unit.factor() >= 1,
    ;
}

/// What a text is taken to pieces as: the digits that the folded and
/// trimmed text starts with, and all that follows them.
pub open spec fn pieces(text: Seq<char>) -> (Seq<char>, Seq<char>) {
    let body = trim(fold_case(text));
    (body.take(digit_run(body) as int), body.skip(digit_run(body) as int))
}

/// Only literals parse: a text that has a size is, folded and trimmed, one
/// or more digits followed by the name of a unit, and its size is the
/// number that the digits name, in that unit.
pub proof fn parsed_is_literal(text: Seq<char>)
    requires
        parse_spec(text) is Ok,
    ensures
        is_number(pieces(text).0),
        unit_named(pieces(text).1) is Some,
        trim(fold_case(text)) == pieces(text).0 + pieces(text).1,
        parse_spec(text) == size_of(decimal_value(pieces(text).0), unit_named(pieces(text).1)->0),
{
    let body = trim(fold_case(text));
    lemma_digit_run_is_digits(body);
    assert(body =~= pieces(text).0 + pieces(text).1);
}

/// The digits that a text starts with are digits, and no more of them than
/// the text is long.
proof fn lemma_digit_run_is_digits(s: Seq<char>)
    ensures
        digit_run(s) <= s.len(),
        forall|i: int| 0 <= i < digit_run(s) ==> is_digit(#[trigger] s[i]),
    decreases s.len(),
{
    if s.len() > 0 && is_digit(s[0]) {
        let rest = s.drop_first();
        lemma_digit_run_is_digits(rest);
        assert forall|i: int| 0 <= i < digit_run(s) implies is_digit(#[trigger] s[i]) by {
            if i > 0 {
                assert(s[i] == rest[i - 1]);
            }
        }
    }
}

/// Whether `s` is whitespace and nothing else.
pub open spec fn is_blank(s: Seq<char>) -> bool {
    forall|i: int| 0 <= i < s.len() ==> is_space(#[trigger] s[i])
}

/// The whitespace that a text starts with is whitespace, and what follows it
/// is not.
proof fn lemma_leading_spaces_end(s: Seq<char>)
    ensures
        leading_spaces(s) <= s.len(),
        forall|i: int| 0 <= i < leading_spaces(s) ==> is_space(#[trigger] s[i]),
        leading_spaces(s) < s.len() ==> !is_space(s[leading_spaces(s) as int]),
    decreases s.len(),
{
    if s.len() > 0 && is_space(s[0]) {
        let rest = s.drop_first();
        lemma_leading_spaces_end(rest);
        assert forall|i: int| 0 <= i < leading_spaces(s) implies is_space(#[trigger] s[i]) by {
            if i > 0 {
                assert(s[i] == rest[i - 1]);
            }
        }
        if leading_spaces(s) < s.len() {
            assert(s[leading_spaces(s) as int] == rest[leading_spaces(rest) as int]);
        }
    }
}

/// The same for the whitespace that a text ends with.
proof fn lemma_trailing_spaces_end(s: Seq<char>)
    ensures
        trailing_spaces(s) <= s.len(),
        forall|i: int| s.len() - trailing_spaces(s) <= i < s.len() ==> is_space(#[trigger] s[i]),
        trailing_spaces(s) < s.len() ==> !is_space(s[s.len() - trailing_spaces(s) - 1]),
    decreases s.len(),
{
    if s.len() > 0 && is_space(s.last()) {
        let rest = s.drop_last();
        lemma_trailing_spaces_end(rest);
        assert forall|i: int| s.len() - trailing_spaces(s) <= i < s.len() implies is_space(
            #[trigger] s[i],
        ) by {
            if i < s.len() - 1 {
                assert(s[i] == rest[i]);
            }
        }
        if trailing_spaces(s) < s.len() {
            assert(s[s.len() - trailing_spaces(s) - 1] == rest[rest.len() - trailing_spaces(rest)
                - 1]);
        }
    }
}

/// Whitespace put around a text is trimmed away with the text's own.
proof fn lemma_trim_padded(left: Seq<char>, s: Seq<char>, right: Seq<char>)
    requires
        is_blank(left),
        is_blank(right),
    ensures
        trim(left + s + right) == trim(s),
{
    let t = left + s + right;
    let a = leading_spaces(s) as int;
    lemma_leading_spaces_end(s);
    let front = s.skip(a);
    lemma_trailing_spaces_end(front);
    let b = trailing_spaces(front) as int;
    if a == s.len() {
        assert forall|i: int| 0 <= i < t.len() implies is_space(t[i]) by {
            if i < left.len() {
                assert(t[i] == left[i]);
            } else if i < left.len() + s.len() {
                assert(t[i] == s[i - left.len()]);
            } else {
                assert(t[i] == right[i - left.len() - s.len()]);
            }
        }
        lemma_leading_spaces(t, t.len() as int);
        assert(trim(t) =~= Seq::<char>::empty());
        assert(trim(s) =~= Seq::<char>::empty());
    } else {
        let m = left.len() + a;
        assert forall|i: int| 0 <= i < m implies is_space(t[i]) by {
            if i < left.len() {
                assert(t[i] == left[i]);
            } else {
                assert(t[i] == s[i - left.len()]);
            }
        }
        assert(t[m] == s[a]);
        lemma_leading_spaces(t, m);
        let back = t.skip(m);
        assert(back =~= front + right);
        assert(!is_space(front[0]));
        assert(b < front.len());
        let n = right.len() + b;
        assert forall|i: int| back.len() - n <= i < back.len() implies is_space(back[i]) by {
            if i < front.len() {
                assert(back[i] == front[i]);
            } else {
                assert(back[i] == right[i - front.len()]);
            }
        }
        assert(back[back.len() - n - 1] == front[front.len() - b - 1]);
        lemma_trailing_spaces(back, n);
        assert(back.take(back.len() - n) =~= front.take(front.len() - b));
    }
}

/// Whitespace before and after a text does not change what it means.
pub proof fn parse_ignores_padding(left: Seq<char>, text: Seq<char>, right: Seq<char>)
    requires
        is_blank(left),
        is_blank(right),
    ensures
        parse_spec(left + text + right) == parse_spec(text),
{
    assert(fold_case(left) =~= left);
    assert(fold_case(right) =~= right);
    assert(fold_case(left + text + right) =~= fold_case(left) + fold_case(text) + fold_case(right));
    lemma_trim_padded(left, fold_case(text), right);
}

/// Two texts that differ only in the case of their letters mean the same:
/// the same number of bytes, or the same error.
pub proof fn parse_ignores_case(a: Seq<char>, b: Seq<char>)
    requires
        fold_case(a) == fold_case(b),
    ensures
        parse_spec(a) == parse_spec(b),
{
}

/// A text and the same text in capitals mean the same.
pub proof fn parse_of_upper_case(text: Seq<char>)
    ensures
        parse_spec(upper_case(text)) == parse_spec(text),
{
    assert(fold_case(upper_case(text)) =~= fold_case(text));
}

} // verus!
