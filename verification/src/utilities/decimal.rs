use vstd::prelude::*;

verus! {

/// The character that stands for a digit.
pub open spec fn digit(value: nat) -> char
    recommends
        value < 10,
{
    if value == 0 {
        '0'
    } else if value == 1 {
        '1'
    } else if value == 2 {
        '2'
    } else if value == 3 {
        '3'
    } else if value == 4 {
        '4'
    } else if value == 5 {
        '5'
    } else if value == 6 {
        '6'
    } else if value == 7 {
        '7'
    } else if value == 8 {
        '8'
    } else {
        '9'
    }
}

/// A natural number written in decimal, without leading zeros.
pub open spec fn decimal(value: nat) -> Seq<char>
    decreases value,
{
    if value < 10 {
        seq![digit(value)]
    } else {
        decimal(value / 10).push(digit(value % 10))
    }
}

/// An integer written in decimal, with a minus sign where it is negative.
pub open spec fn signed_decimal(value: int) -> Seq<char> {
    if value < 0 {
        seq!['-'] + decimal((-value) as nat)
    } else {
        decimal(value as nat)
    }
}

/// The text of digits that are given from the last one to the first.
pub open spec fn reversed_digits(digits: Seq<u8>) -> Seq<char>
    decreases digits.len(),
{
    if digits.len() == 0 {
        Seq::empty()
    } else {
        seq![digit(digits.last() as nat)] + reversed_digits(digits.drop_last())
    }
}

/// Returns the text of one digit.
fn digit_text(value: u8) -> (result: &'static str)
    requires
        value < 10,
    ensures
        result@ == seq![digit(value as nat)],
{
    proof {
        reveal_strlit("0");
        reveal_strlit("1");
        reveal_strlit("2");
        reveal_strlit("3");
        reveal_strlit("4");
        reveal_strlit("5");
        reveal_strlit("6");
        reveal_strlit("7");
        reveal_strlit("8");
        reveal_strlit("9");
    }
    let result = if value == 0 {
        "0"
    } else if value == 1 {
        "1"
    } else if value == 2 {
        "2"
    } else if value == 3 {
        "3"
    } else if value == 4 {
        "4"
    } else if value == 5 {
        "5"
    } else if value == 6 {
        "6"
    } else if value == 7 {
        "7"
    } else if value == 8 {
        "8"
    } else {
        "9"
    };
    assert(result@ =~= seq![digit(value as nat)]);
    result
}

/// Appends the decimal form of `value` to `text`.
fn append_decimal(text: String, value: u64) -> (result: String)
    ensures
        result@ == text@ + decimal(value as nat),
{
    let mut digits: Vec<u8> = Vec::new();
    digits.push((value % 10) as u8);
    let mut rest: u64 = value / 10;
    proof {
        assert(digits@.drop_last() =~= Seq::<u8>::empty());
        assert(reversed_digits(digits@.drop_last()) =~= Seq::<char>::empty());
        assert(reversed_digits(digits@) =~= seq![digit((value % 10) as nat)]);
        if value >= 10 {
            assert(decimal(value as nat) =~= decimal(rest as nat) + reversed_digits(digits@));
        }
    }
    while rest > 0
        invariant
            digits@.len() > 0,
            forall|i: int| 0 <= i < digits@.len() ==> digits@[i] < 10,
            rest > 0 ==> decimal(value as nat) == decimal(rest as nat) + reversed_digits(digits@),
            rest == 0 ==> decimal(value as nat) == reversed_digits(digits@),
        decreases rest,
    {
        let ghost before = digits@;
        let ghost prior = rest;
        let last = (rest % 10) as u8;
        digits.push(last);
        rest = rest / 10;
        proof {
            assert(digits@.drop_last() =~= before);
            assert(reversed_digits(digits@) =~= seq![digit(last as nat)] + reversed_digits(before));
            if prior < 10 {
                assert(decimal(prior as nat) =~= seq![digit(last as nat)]);
                assert(decimal(value as nat) =~= reversed_digits(digits@));
            } else {
                assert(decimal(prior as nat) =~= decimal(rest as nat).push(digit(last as nat)));
                assert(decimal(value as nat) =~= decimal(rest as nat) + reversed_digits(digits@));
            }
        }
    }
    let mut result = text;
    let mut i: usize = digits.len();
    proof {
        assert(digits@.subrange(0, i as int) =~= digits@);
    }
    while i > 0
        invariant
            i <= digits@.len(),
            forall|j: int| 0 <= j < digits@.len() ==> digits@[j] < 10,
            result@ + reversed_digits(digits@.subrange(0, i as int)) == text@ + reversed_digits(
                digits@,
            ),
        decreases i,
    {
        let ghost before = result@;
        let ghost part = digits@.subrange(0, i as int);
        i = i - 1;
        result.append(digit_text(digits[i]));
        proof {
            assert(part.last() == digits@[i as int]);
            assert(part.drop_last() =~= digits@.subrange(0, i as int));
            assert(result@ + reversed_digits(digits@.subrange(0, i as int)) =~= before
                + reversed_digits(part));
        }
    }
    proof {
        assert(digits@.subrange(0, 0) =~= Seq::<u8>::empty());
        assert(result@ + Seq::<char>::empty() =~= result@);
    }
    result
}

/// Writes a number in decimal.
pub fn u64_to_decimal(value: u64) -> (result: String)
    ensures
        result@ == decimal(value as nat),
{
    let result = append_decimal(String::new(), value);
    assert(Seq::<char>::empty() + decimal(value as nat) =~= decimal(value as nat));
    result
}

/// Writes a number in decimal, with a minus sign where it is negative.
pub fn i64_to_decimal(value: i64) -> (result: String)
    ensures
        result@ == signed_decimal(value as int),
{
    if value < 0 {
        let magnitude: u64 = ((-(value + 1)) as u64) + 1;
        proof {
            reveal_strlit("-");
            assert("-"@ =~= seq!['-']);
        }
        append_decimal("-".to_owned(), magnitude)
    } else {
        u64_to_decimal(value as u64)
    }
}

} // verus!
