//! Laws on numbers and white space in texts.
use crate::text;
use vstd::prelude::*;

verus! {

/// A number below ten is written as the one sign that stands for it.
pub proof fn law_one_digit(d: nat)
    requires
        d < 10,
    ensures
        text::decimal(d) == seq![(48 + d) as char],
{
}

/// To append a digit to a number that is not zero is to multiply it by ten and add the digit.
pub proof fn law_next_digit(n: nat, d: nat)
    requires
        n > 0,
        d < 10,
    ensures
        text::decimal(10 * n + d) == text::decimal(n) + seq![(48 + d) as char],
{
    assert((10 * n + d) / 10 == n);
    assert((10 * n + d) % 10 == d);
    assert(text::decimal(10 * n + d) =~= text::decimal(n) + seq![(48 + d) as char]);
}

/// Digits stand for the same number with zeros before them.
pub(crate) proof fn lemma_leading_zeros(zeros: nat, s: Seq<char>)
    requires
        text::all_digits(s),
    ensures
        text::all_digits(Seq::new(zeros, |i: int| '0') + s),
        text::digits_value(Seq::new(zeros, |i: int| '0') + s) == text::digits_value(s),
    decreases s.len(), zeros,
{
    let z = Seq::new(zeros, |i: int| '0');
    let t = z + s;
    assert forall|i: int| 0 <= i < t.len() implies text::is_digit(#[trigger] t[i]) by {
        if i >= zeros {
            assert(text::is_digit(s[i - zeros]));
        }
    }
    if s.len() > 0 {
        assert forall|i: int| 0 <= i < s.drop_last().len() implies text::is_digit(
            #[trigger] s.drop_last()[i],
        ) by {
            assert(text::is_digit(s[i]));
        }
        lemma_leading_zeros(zeros, s.drop_last());
        assert(t.drop_last() =~= z + s.drop_last());
        assert(t.last() == s.last());
    } else if zeros > 0 {
        let y = Seq::new((zeros - 1) as nat, |i: int| '0');
        lemma_leading_zeros((zeros - 1) as nat, s);
        assert(t.drop_last() =~= y + s);
        assert(t.last() == '0');
    } else {
        assert(t =~= s);
    }
}

/// Digits are zeros followed by the decimal form of the number that they stand for.
pub(crate) proof fn lemma_digits_split(s: Seq<char>) -> (zeros: nat)
    requires
        s.len() > 0,
        text::all_digits(s),
    ensures
        s == Seq::new(zeros, |i: int| '0') + text::decimal(text::digits_value(s)),
    decreases s.len(),
{
    if s.len() == 1 || s[0] != '0' {
        text::lemma_digits_are_decimal(s);
        assert(s =~= Seq::new(0, |i: int| '0') + s);
        0
    } else {
        let rest = s.skip(1);
        assert forall|i: int| 0 <= i < rest.len() implies text::is_digit(#[trigger] rest[i]) by {
            assert(text::is_digit(s[i + 1]));
        }
        let zeros = lemma_digits_split(rest);
        lemma_leading_zeros(1, rest);
        assert(s =~= Seq::new(1, |i: int| '0') + rest);
        assert(s =~= Seq::new(zeros + 1, |i: int| '0') + text::decimal(text::digits_value(s)));
        zeros + 1
    }
}

/// A number is read from its decimal form, with or without a plus sign and zeros before it, exactly
/// if it is not too large.
pub proof fn law_numbers_are_read(n: nat, max: nat, plus: bool, zeros: nat)
    ensures
        ({
            let sign = if plus {
                seq!['+']
            } else {
                seq![]
            };
            let s = sign + Seq::new(zeros, |i: int| '0') + text::decimal(n);
            text::parse_unsigned(s, max) == if n <= max {
                Some(n)
            } else {
                None
            }
        }),
{
    let sign: Seq<char> = if plus {
        seq!['+']
    } else {
        seq![]
    };
    let digits = Seq::new(zeros, |i: int| '0') + text::decimal(n);
    let s = sign + Seq::new(zeros, |i: int| '0') + text::decimal(n);
    text::lemma_decimal(n);
    lemma_leading_zeros(zeros, text::decimal(n));
    assert(text::is_digit(digits[0]));
    assert(s =~= sign + digits);
    if plus {
        assert(s.skip(1) =~= digits);
    } else {
        assert(s =~= digits);
    }
}

/// Nothing else is read as a number.
pub proof fn law_only_numbers_are_read(s: Seq<char>, max: nat)
    ensures
        text::parse_unsigned(s, max) matches Some(n) ==> n <= max && exists|plus: bool, zeros: nat|
            #[trigger] reads_as(s, n, plus, zeros),
{
    if text::parse_unsigned(s, max) is Some {
        let n = text::parse_unsigned(s, max)->0;
        let plus = s.len() > 0 && s[0] == '+';
        let digits = if plus {
            s.skip(1)
        } else {
            s
        };
        let zeros = lemma_digits_split(digits);
        let sign: Seq<char> = if plus {
            seq!['+']
        } else {
            seq![]
        };
        assert(s =~= sign + digits);
        assert(sign + digits =~= sign + Seq::new(zeros, |i: int| '0') + text::decimal(n));
        assert(reads_as(s, n, plus, zeros));
    }
}

/// Whether a text is a number, with or without a plus sign, and so many zeros before it.
pub open spec fn reads_as(s: Seq<char>, n: nat, plus: bool, zeros: nat) -> bool {
    s == (if plus {
        seq!['+']
    } else {
        seq![]
    }) + Seq::new(zeros, |i: int| '0') + text::decimal(n)
}

/// Whether a text is made of zeros, one at least, after a plus sign or not.
pub open spec fn is_made_of_zeros(s: Seq<char>) -> bool {
    let start = if s.len() > 0 && s[0] == '+' {
        1int
    } else {
        0int
    };
    &&& s.len() > start
    &&& forall|i: int| start <= i < s.len() ==> #[trigger] s[i] == '0'
}

/// A text is read as zero exactly if it is made of zeros.
pub proof fn law_zero_is_made_of_zeros(s: Seq<char>, max: nat)
    ensures
        text::parse_unsigned(s, max) == Some(0nat) <==> is_made_of_zeros(s),
{
    let start = if s.len() > 0 && s[0] == '+' {
        1int
    } else {
        0int
    };
    let digits = s.skip(start);
    assert(start == 0 ==> digits =~= s);
    if is_made_of_zeros(s) {
        let empty = Seq::<char>::empty();
        lemma_leading_zeros(digits.len(), empty);
        assert(digits =~= Seq::new(digits.len(), |i: int| '0') + empty);
    }
    if text::parse_unsigned(s, max) == Some(0nat) {
        let zeros = lemma_digits_split(digits);
        assert(text::decimal(0) =~= seq!['0']);
        assert forall|i: int| start <= i < s.len() implies #[trigger] s[i] == '0' by {
            assert(digits[i - start] == s[i]);
        }
    }
}

/// White space is the tabulators, the line breaks, the form feed and the blanks of Unicode, and no
/// sign that leaves a mark.
pub proof fn law_white_space(c: char)
    ensures
        (c as nat) < 128 ==> (text::is_white_space(c) <==> c == ' ' || 9 <= c as nat <= 13),
        128 <= c as nat ==> (text::is_white_space(c) <==> c == '\u{85}' || c == '\u{a0}' || c
            == '\u{1680}' || '\u{2000}' as nat <= c as nat <= '\u{200a}' as nat || c == '\u{2028}'
            || c == '\u{2029}' || c == '\u{202f}' || c == '\u{205f}' || c == '\u{3000}'),
{
}

/// What trimming at the start leaves out, and what it leaves.
proof fn lemma_trim_start(s: Seq<char>) -> (a: nat)
    ensures
        a <= s.len(),
        text::trim_start(s) == s.skip(a as int),
        forall|i: int| 0 <= i < a ==> text::is_white_space(#[trigger] s[i]),
        a < s.len() ==> !text::is_white_space(s[a as int]),
    decreases s.len(),
{
    if s.len() > 0 && text::is_white_space(s[0]) {
        let rest = s.skip(1);
        let a = lemma_trim_start(rest);
        assert(rest.skip(a as int) =~= s.skip(a as int + 1));
        assert forall|i: int| 0 <= i < a + 1 implies text::is_white_space(#[trigger] s[i]) by {
            if i > 0 {
                assert(text::is_white_space(rest[i - 1]));
            }
        }
        if a < rest.len() {
            assert(rest[a as int] == s[a as int + 1]);
        }
        a + 1
    } else {
        assert(s.skip(0) =~= s);
        0
    }
}

/// What trimming at the end leaves, and what it leaves out.
proof fn lemma_trim_end(s: Seq<char>) -> (b: nat)
    ensures
        b <= s.len(),
        text::trim_end(s) == s.take(b as int),
        forall|i: int| b <= i < s.len() ==> text::is_white_space(#[trigger] s[i]),
        b > 0 ==> !text::is_white_space(s[b - 1]),
    decreases s.len(),
{
    if s.len() > 0 && text::is_white_space(s.last()) {
        let rest = s.drop_last();
        let b = lemma_trim_end(rest);
        assert(rest.take(b as int) =~= s.take(b as int));
        assert forall|i: int| b <= i < s.len() implies text::is_white_space(#[trigger] s[i]) by {
            if i < rest.len() {
                assert(text::is_white_space(rest[i]));
            }
        }
        if b > 0 {
            assert(rest[b - 1] == s[b - 1]);
        }
        b
    } else {
        assert(s.take(s.len() as int) =~= s);
        s.len()
    }
}

/// A text is what is left of it when it is trimmed, with nothing but white space around; and what is
/// left neither begins nor ends with white space.
pub proof fn law_trimming_leaves_out_white_space(s: Seq<char>) -> (around: (nat, nat))
    ensures
        around.0 <= around.1 <= s.len(),
        text::trimmed(s) == s.subrange(around.0 as int, around.1 as int),
        forall|i: int|
            0 <= i < around.0 || around.1 <= i < s.len() ==> text::is_white_space(#[trigger] s[i]),
        text::trimmed(s).len() > 0 ==> !text::is_white_space(text::trimmed(s)[0])
            && !text::is_white_space(text::trimmed(s).last()),
{
    let a = lemma_trim_start(s);
    let t = s.skip(a as int);
    let b = lemma_trim_end(t);
    assert(t.take(b as int) =~= s.subrange(a as int, (a + b) as int));
    assert forall|i: int| 0 <= i < a || a + b <= i < s.len() implies text::is_white_space(
        #[trigger] s[i],
    ) by {
        if i >= a + b {
            assert(text::is_white_space(t[i - a]));
        }
    }
    if b > 0 {
        assert(t[0] == s[a as int]);
        assert(t[b - 1] == s[a + b - 1]);
    }
    (a, a + b)
}

} // verus!
