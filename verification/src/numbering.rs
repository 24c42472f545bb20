//! Placeholders in statement text: how they are written, counted and read
//! back, and what holds of them when texts are put together.

use vstd::prelude::*;
use crate::text::{all_digits, digits_value, is_digit, lemma_nat_text_digits, nat_text};

verus! {

/// The placeholder with the given number.
pub open spec fn placeholder(number: nat) -> Seq<char> {
    seq!['$'] + nat_text(number)
}

/// How many placeholder markers a statement text holds.
pub open spec fn placeholder_count(text: Seq<char>) -> nat
    decreases text.len(),
{
    if text.len() == 0 {
        0
    } else {
        placeholder_count(text.drop_last()) + if text.last() == '$' {
            1nat
        } else {
            0nat
        }
    }
}

/// No character of the text is a placeholder marker.
pub open spec fn is_plain(text: Seq<char>) -> bool {
    forall|i: int| 0 <= i < text.len() ==> text[i] != '$'
}

/// How many digits stand at the start of a text.
pub open spec fn digit_run(text: Seq<char>) -> nat
    decreases text.len(),
{
    if text.len() > 0 && is_digit(text[0]) {
        1 + digit_run(text.skip(1))
    } else {
        0
    }
}

/// The numbers of the placeholders of a statement text, in the order in
/// which they stand: behind each marker, the number that the digits after it
/// write.
pub open spec fn placeholder_numbers(text: Seq<char>) -> Seq<nat>
    decreases text.len(),
{
    if text.len() == 0 {
        Seq::empty()
    } else {
        let rest = text.skip(1);
        if text[0] == '$' {
            seq![digits_value(rest.take(digit_run(rest) as int))] + placeholder_numbers(rest)
        } else {
            placeholder_numbers(rest)
        }
    }
}

/// The numbers from one to `count`, in order.
pub open spec fn one_to(count: nat) -> Seq<nat> {
    Seq::new(count, |i: int| (i + 1) as nat)
}

/// Whether a text can follow a placeholder without running into its number:
/// it is empty or does not start with a digit.
pub open spec fn ends_number(text: Seq<char>) -> bool {
    text.len() == 0 || !is_digit(text[0])
}

/// Placeholder markers add up over concatenation.
pub proof fn lemma_placeholder_count_concat(a: Seq<char>, b: Seq<char>)
    ensures
        placeholder_count(a + b) == placeholder_count(a) + placeholder_count(b),
    decreases b.len(),
{
    if b.len() == 0 {
        assert(a + b =~= a);
    } else {
        assert((a + b).drop_last() =~= a + b.drop_last());
        lemma_placeholder_count_concat(a, b.drop_last());
    }
}

proof fn lemma_digit_run_bound(text: Seq<char>)
    ensures
        digit_run(text) <= text.len(),
    decreases text.len(),
{
    if text.len() > 0 && is_digit(text[0]) {
        lemma_digit_run_bound(text.skip(1));
    }
}

proof fn lemma_digit_run_of_digits(text: Seq<char>)
    requires
        all_digits(text),
    ensures
        digit_run(text) == text.len(),
    decreases text.len(),
{
    if text.len() > 0 {
        assert(is_digit(text[0]));
        assert forall|i: int| 0 <= i < text.skip(1).len() implies is_digit(
            #[trigger] text.skip(1)[i],
        ) by {
            assert(text.skip(1)[i] == text[i + 1]);
        }
        lemma_digit_run_of_digits(text.skip(1));
    }
}

proof fn lemma_digit_run_stops(a: Seq<char>, b: Seq<char>)
    requires
        ends_number(b),
    ensures
        digit_run(a + b) == digit_run(a),
    decreases a.len(),
{
    if a.len() == 0 {
        assert(a + b =~= b);
    } else if is_digit(a[0]) {
        assert((a + b).skip(1) =~= a.skip(1) + b);
        lemma_digit_run_stops(a.skip(1), b);
    }
}

/// The placeholder numbers of two texts in a row are those of the first,
/// then those of the second, where the second cannot lengthen a number at
/// the end of the first.
pub proof fn lemma_placeholder_numbers_concat(a: Seq<char>, b: Seq<char>)
    requires
        ends_number(b),
    ensures
        placeholder_numbers(a + b) == placeholder_numbers(a) + placeholder_numbers(b),
    decreases a.len(),
{
    if a.len() == 0 {
        assert(a + b =~= b);
        assert(placeholder_numbers(a) + placeholder_numbers(b) =~= placeholder_numbers(b));
    } else {
        let rest = a.skip(1);
        assert((a + b).skip(1) =~= rest + b);
        lemma_placeholder_numbers_concat(rest, b);
        if a[0] == '$' {
            lemma_digit_run_stops(rest, b);
            lemma_digit_run_bound(rest);
            assert((rest + b).take(digit_run(rest) as int) =~= rest.take(digit_run(rest) as int));
            assert(placeholder_numbers(a + b) =~= placeholder_numbers(a) + placeholder_numbers(b));
        }
    }
}

/// A text without markers holds no placeholder number.
pub proof fn lemma_plain_has_no_numbers(text: Seq<char>)
    requires
        is_plain(text),
    ensures
        placeholder_numbers(text) == Seq::<nat>::empty(),
    decreases text.len(),
{
    if text.len() > 0 {
        assert forall|i: int| 0 <= i < text.skip(1).len() implies text.skip(1)[i] != '$' by {
            assert(text.skip(1)[i] == text[i + 1]);
        }
        lemma_plain_has_no_numbers(text.skip(1));
    }
}

/// A placeholder reads as its own number.
pub proof fn lemma_placeholder_reads_back(number: nat)
    ensures
        placeholder_numbers(placeholder(number)) == seq![number],
        ends_number(placeholder(number)),
{
    let digits = nat_text(number);
    lemma_nat_text_digits(number);
    lemma_digit_run_of_digits(digits);
    assert(placeholder(number).skip(1) =~= digits);
    assert(digits.take(digits.len() as int) =~= digits);
    assert forall|i: int| 0 <= i < digits.len() implies digits[i] != '$' by {
        assert(is_digit(digits[i]));
    }
    lemma_plain_has_no_numbers(digits);
    assert(placeholder_numbers(placeholder(number)) =~= seq![number]);
}

/// A text holds as many placeholder numbers as markers.
pub proof fn lemma_numbers_match_count(text: Seq<char>)
    ensures
        placeholder_numbers(text).len() == placeholder_count(text),
    decreases text.len(),
{
    if text.len() > 0 {
        let first = seq![text[0]];
        lemma_numbers_match_count(text.skip(1));
        assert(text =~= first + text.skip(1));
        lemma_placeholder_count_concat(first, text.skip(1));
        assert(first.drop_last() =~= Seq::<char>::empty());
        assert(placeholder_count(Seq::<char>::empty()) == 0);
    }
}

/// A statement of two fixed fragments around one placeholder holds one
/// placeholder, and it reads as number one.
pub proof fn lemma_one_placeholder(before: Seq<char>, after: Seq<char>)
    requires
        is_plain(before),
        is_plain(after),
        ends_number(after),
    ensures
        placeholder_numbers(before + placeholder(1) + after) == one_to(1),
        placeholder_count(before + placeholder(1) + after) == 1,
{
    lemma_plain_has_no_numbers(before);
    lemma_plain_has_no_numbers(after);
    lemma_placeholder_reads_back(1);
    lemma_placeholder_numbers_concat(before, placeholder(1));
    lemma_placeholder_numbers_concat(before + placeholder(1), after);
    assert(placeholder_numbers(before + placeholder(1) + after) =~= one_to(1));
    lemma_numbers_match_count(before + placeholder(1) + after);
}

/// A statement of three fixed fragments around two placeholders holds two
/// placeholders, and they read as numbers one and two.
pub proof fn lemma_two_placeholders(before: Seq<char>, between: Seq<char>, after: Seq<char>)
    requires
        is_plain(before),
        is_plain(between),
        is_plain(after),
        ends_number(between),
        ends_number(after),
    ensures
        placeholder_numbers(before + placeholder(1) + between + placeholder(2) + after)
            == one_to(2),
        placeholder_count(before + placeholder(1) + between + placeholder(2) + after) == 2,
{
    let first = before + placeholder(1) + between;
    lemma_one_placeholder(before, between);
    lemma_plain_has_no_numbers(after);
    lemma_placeholder_reads_back(2);
    lemma_placeholder_numbers_concat(first, placeholder(2));
    lemma_placeholder_numbers_concat(first + placeholder(2), after);
    assert(placeholder_numbers(first + placeholder(2) + after) =~= one_to(2));
    lemma_numbers_match_count(first + placeholder(2) + after);
}

} // verus!
