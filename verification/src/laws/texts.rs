//! Texts and numerals: what is written reads back.

use vstd::prelude::*;

use crate::text;

verus! {

proof fn lemma_join_push(parts: Seq<Seq<char>>, part: Seq<char>, sep: Seq<char>)
    requires
        parts.len() > 0,
    ensures
        text::join_text(parts.push(part), sep) == text::join_text(parts, sep) + sep + part,
{
    assert(parts.push(part).drop_last() =~= parts);
}

/// Texts joined in two goes are joined with the separator between, one text alone is as it is, and
/// no texts give no text.
pub proof fn joining_splits(a: Seq<Seq<char>>, b: Seq<Seq<char>>, sep: Seq<char>)
    ensures
        text::join_text(Seq::empty(), sep) == Seq::<char>::empty(),
        a.len() == 1 ==> text::join_text(a, sep) == a[0],
        a.len() > 0 && b.len() > 0 ==> text::join_text(a + b, sep) == text::join_text(a, sep) + sep
            + text::join_text(b, sep),
    decreases b.len(),
{
    if a.len() > 0 && b.len() > 0 {
        let rest = b.drop_last();
        let whole = text::join_text(a, sep);
        if rest.len() == 0 {
            assert(a + b =~= a.push(b[0]));
            lemma_join_push(a, b[0], sep);
        } else {
            joining_splits(a, rest, sep);
            assert(a + b =~= (a + rest).push(b.last()));
            assert(b =~= rest.push(b.last()));
            lemma_join_push(a + rest, b.last(), sep);
            lemma_join_push(rest, b.last(), sep);
            assert(whole + sep + text::join_text(rest, sep) + sep + b.last() =~= whole + sep + (
            text::join_text(rest, sep) + sep + b.last()));
        }
    }
}

proof fn lemma_digit(d: nat)
    requires
        d < 10,
    ensures
        text::is_digit(text::digit_char(d)),
        text::digit_char(d) as u32 - '0' as u32 == d,
{
}

/// A number's numeral has only digits and no zero in front, and reads back as the number.
pub proof fn numerals_read_back(n: nat)
    ensures
        text::all_digits(text::decimal(n)),
        text::digits_value(text::decimal(n)) == n,
        text::decimal(n).len() > 0,
        n > 0 ==> text::decimal(n)[0] != '0',
        n <= u64::MAX ==> text::unsigned_value(text::decimal(n)) == Some(n as u64),
        n > u64::MAX ==> text::unsigned_value(text::decimal(n)) is None,
    decreases n,
{
    let s = text::decimal(n);
    lemma_digit(n % 10);
    if n < 10 {
        lemma_digit(n);
        assert(s.drop_last() =~= Seq::empty());
        assert(text::digits_value(s.drop_last()) == 0);
    } else {
        numerals_read_back(n / 10);
        assert(s.drop_last() =~= text::decimal(n / 10));
        assert(text::decimal(n / 10)[0] == s[0]);
    }
    assert(s[0] != '+') by {
        assert(text::is_digit(s[0]));
    }
}

/// Different numbers have different numerals.
pub proof fn numerals_are_told_apart(a: nat, b: nat)
    requires
        text::decimal(a) == text::decimal(b),
    ensures
        a == b,
{
    numerals_read_back(a);
    numerals_read_back(b);
}

/// A numeral may have a plus sign in front and zeros before its digits.
pub proof fn numerals_may_be_padded(digits: Seq<char>)
    requires
        text::all_digits(digits),
        digits.len() > 0,
    ensures
        text::unsigned_value(seq!['+'] + digits) == text::unsigned_value(digits),
        text::unsigned_value(seq!['0'] + digits) == text::unsigned_value(digits),
        text::digits_value(seq!['0'] + digits) == text::digits_value(digits),
    decreases digits.len(),
{
    assert(text::is_digit(digits[0]));
    assert((seq!['+'] + digits).subrange(1, digits.len() as int + 1) =~= digits);
    let padded = seq!['0'] + digits;
    assert(text::digits_value(padded) == text::digits_value(digits)) by {
        assert(padded.drop_last() =~= seq!['0'] + digits.drop_last());
        if digits.len() > 1 {
            assert(text::all_digits(digits.drop_last())) by {
                assert forall|i: int| 0 <= i < digits.drop_last().len() implies text::is_digit(
                    #[trigger] digits.drop_last()[i],
                ) by {
                    assert(text::is_digit(digits[i]));
                }
            }
            numerals_may_be_padded(digits.drop_last());
        } else {
            assert(digits.drop_last() =~= Seq::empty());
            assert(padded.drop_last().drop_last() =~= Seq::empty());
            reveal_with_fuel(text::digits_value, 3);
        }
    }
    assert(text::all_digits(padded)) by {
        assert forall|i: int| 0 <= i < padded.len() implies text::is_digit(#[trigger] padded[i]) by {
            if i > 0 {
                assert(text::is_digit(digits[i - 1]));
            }
        }
    }
}

/// What is no row of digits, but for a plus sign in front, is no number.
pub proof fn other_texts_are_no_numbers(s: Seq<char>, k: int)
    requires
        0 <= k < s.len(),
        !text::is_digit(s[k]),
        k > 0 || s[0] != '+',
    ensures
        text::unsigned_value(s) is None,
        text::unsigned_value(Seq::empty()) is None,
        text::unsigned_value(seq!['+']) is None,
{
    let digits = text::without_plus(s);
    if s[0] == '+' {
        assert(digits[k - 1] == s[k]);
    } else {
        assert(digits[k] == s[k]);
    }
}

/// Trimming takes away the white space at both ends and nothing else: what stands between comes
/// back as it is, with the white space inside it.
pub proof fn trimming_keeps_the_middle(before: Seq<char>, middle: Seq<char>, after: Seq<char>)
    requires
        text::blank(before),
        text::blank(after),
        middle.len() > 0 ==> !text::white_space(middle[0]) && !text::white_space(middle.last()),
    ensures
        text::trimmed(before + middle + after) == middle,
    decreases before.len() + after.len(),
{
    let s = before + middle + after;
    if before.len() > 0 {
        assert(s[0] == before[0]);
        assert(text::white_space(before[0]));
        assert(s.drop_first() =~= before.drop_first() + middle + after);
        assert forall|i: int| 0 <= i < before.drop_first().len() implies text::white_space(
            #[trigger] before.drop_first()[i],
        ) by {
            assert(text::white_space(before[i + 1]));
        }
        trimming_keeps_the_middle(before.drop_first(), middle, after);
    } else if middle.len() == 0 && after.len() > 0 {
        assert(s =~= after);
        assert(text::white_space(after[0]));
        assert(after.drop_first() =~= before + middle + after.drop_first());
        assert forall|i: int| 0 <= i < after.drop_first().len() implies text::white_space(
            #[trigger] after.drop_first()[i],
        ) by {
            assert(text::white_space(after[i + 1]));
        }
        trimming_keeps_the_middle(before, middle, after.drop_first());
    } else if after.len() > 0 {
        assert(s[0] == middle[0]);
        assert(s.last() == after.last());
        assert(text::white_space(after[after.len() - 1]));
        assert(s.drop_last() =~= before + middle + after.drop_last());
        assert forall|i: int| 0 <= i < after.drop_last().len() implies text::white_space(
            #[trigger] after.drop_last()[i],
        ) by {
            assert(text::white_space(after[i]));
        }
        trimming_keeps_the_middle(before, middle, after.drop_last());
    } else {
        assert(s =~= middle);
    }
}

/// Among ASCII characters, space, tab and the line breaks are white space, and nothing else is.
pub proof fn ascii_white_space(c: char)
    requires
        (c as u32) < 0x80,
    ensures
        text::white_space(c) <==> c == ' ' || c == '\t' || c == '\n' || c == '\r' || c as u32 == 0x0b
            || c as u32 == 0x0c,
{
}

/// Letter case is folded character by character: ASCII capitals become the small letters 32 places
/// on, everything else stays, and folding again changes nothing.
pub proof fn case_folds_in_place(s: Seq<char>, i: int)
    requires
        0 <= i < s.len(),
    ensures
        text::ascii_lower(s).len() == s.len(),
        'A' <= s[i] && s[i] <= 'Z' ==> text::ascii_lower(s)[i] as u32 == s[i] as u32 + 32,
        !('A' <= s[i] && s[i] <= 'Z') ==> text::ascii_lower(s)[i] == s[i],
        text::ascii_lower(text::ascii_lower(s)) == text::ascii_lower(s),
{
    assert forall|k: int| 0 <= k < s.len() implies text::ascii_lower(
        text::ascii_lower(s),
    )[k] == text::ascii_lower(s)[k] by {
        let c = s[k];
        assert('A' <= c && c <= 'Z' ==> text::ascii_lower_char(c) as u32 == c as u32 + 32);
    }
    assert(text::ascii_lower(text::ascii_lower(s)) =~= text::ascii_lower(s));
}

/// A text is found inside another exactly where the other is made of something, the text and
/// something more.
pub proof fn parts_are_found(whole: Seq<char>, part: Seq<char>, before: Seq<char>, after: Seq<char>)
    ensures
        text::has_part(before + part + after, part),
        text::has_part(whole, part) ==> exists|a: Seq<char>, b: Seq<char>|
            whole == #[trigger] (a + part + b),
{
    let joined = before + part + after;
    assert(joined.subrange(before.len() as int, before.len() as int + part.len()) =~= part);
    assert(text::part_at(joined, part, before.len() as int));
    if text::has_part(whole, part) {
        let at = choose|at: int| #[trigger] text::part_at(whole, part, at);
        let a = whole.take(at);
        let b = whole.skip(at + part.len());
        assert(whole =~= a + part + b);
    }
}

} // verus!
