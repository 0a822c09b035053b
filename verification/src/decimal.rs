use vstd::prelude::*;

verus! {

/// Value of a sequence of decimal digit values, most significant first.
pub open spec fn decimal_of(digits: Seq<int>) -> int
    decreases digits.len(),
{
    if digits.len() == 0 {
        0
    } else {
        decimal_of(digits.drop_last()) * 10 + digits.last()
    }
}

/// Every element is a decimal digit value, 0 to 9.
pub open spec fn all_decimal_digits(digits: Seq<int>) -> bool {
    forall|k: int| 0 <= k < digits.len() ==> 0 <= #[trigger] digits[k] <= 9
}

/// The character of a decimal digit value.
pub open spec fn digit_char(d: int) -> char {
    ((d + 48) as u32) as char
}

/// Decimal text of `n`, without leading zeros ("0" for zero).
pub open spec fn spec_decimal_text(n: nat) -> Seq<char>
    decreases n,
{
    if n < 10 {
        seq![digit_char(n as int)]
    } else {
        spec_decimal_text(n / 10).push(digit_char((n % 10) as int))
    }
}

/// A digit string is worth at least nothing.
pub proof fn lemma_decimal_of_nonneg(digits: Seq<int>)
    requires
        all_decimal_digits(digits),
    ensures
        decimal_of(digits) >= 0,
    decreases digits.len(),
{
    if digits.len() > 0 {
        let t = digits.drop_last();
        assert(all_decimal_digits(t)) by {
            assert forall|k: int| 0 <= k < t.len() implies 0 <= #[trigger] t[k] <= 9 by {
                assert(t[k] == digits[k]);
            }
        }
        lemma_decimal_of_nonneg(t);
        assert(0 <= digits[digits.len() - 1]);
    }
}

/// A digit string is worth at least as much as any of its prefixes.
pub proof fn lemma_decimal_of_prefix(digits: Seq<int>, k: int)
    requires
        all_decimal_digits(digits),
        0 <= k <= digits.len(),
    ensures
        decimal_of(digits.take(k)) <= decimal_of(digits),
    decreases digits.len(),
{
    if k < digits.len() {
        let t = digits.drop_last();
        assert(all_decimal_digits(t)) by {
            assert forall|m: int| 0 <= m < t.len() implies 0 <= #[trigger] t[m] <= 9 by {
                assert(t[m] == digits[m]);
            }
        }
        lemma_decimal_of_prefix(t, k);
        assert(t.take(k) =~= digits.take(k));
        lemma_decimal_of_nonneg(t);
        assert(0 <= digits[digits.len() - 1]);
    } else {
        assert(digits.take(k) =~= digits);
    }
}

/// The one-character text of a decimal digit value.
fn digit_str(d: u32) -> (res: &'static str)
    requires
        d < 10,
    ensures
        res@ == seq![digit_char(d as int)],
{
    proof {
        reveal_strlit("0");
        reveal_strlit("1");
        reveal_strlit("2");
        reveal_strlit("3");
        reveal_strlit("4");
        reveal_strlit("5");
        reveal_strlit("6");
        reveal_strlit("7");
        reveal_strlit("8");
        reveal_strlit("9");
    }
    let res = if d == 0 {
        "0"
    } else if d == 1 {
        "1"
    } else if d == 2 {
        "2"
    } else if d == 3 {
        "3"
    } else if d == 4 {
        "4"
    } else if d == 5 {
        "5"
    } else if d == 6 {
        "6"
    } else if d == 7 {
        "7"
    } else if d == 8 {
        "8"
    } else {
        "9"
    };
    assert(res@ =~= seq![digit_char(d as int)]);
    res
}

/// Decimal text of `n`.
pub fn decimal_text(n: u32) -> (res: String)
    ensures
        res@ == spec_decimal_text(n as nat),
    decreases n,
{
    if n < 10 {
        String::from_str(digit_str(n))
    } else {
        let mut text = decimal_text(n / 10);
        text.append(digit_str(n % 10));
        assert(text@ =~= spec_decimal_text((n / 10) as nat).push(digit_char((n % 10) as int)));
        text
    }
}

} // verus!
