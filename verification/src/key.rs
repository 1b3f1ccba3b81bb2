//! The join key: the decimal text of a record's foreign identifier.

use vstd::prelude::*;
use vstd::string::*;

verus! {

/// The character that writes the digit `d`.
pub open spec fn digit(d: int) -> char {
    if d == 0 {
        '0'
    } else if d == 1 {
        '1'
    } else if d == 2 {
        '2'
    } else if d == 3 {
        '3'
    } else if d == 4 {
        '4'
    } else if d == 5 {
        '5'
    } else if d == 6 {
        '6'
    } else if d == 7 {
        '7'
    } else if d == 8 {
        '8'
    } else {
        '9'
    }
}

/// The decimal numeral of `n`: most significant digit first, no sign, no
/// leading zero except for zero itself.
pub open spec fn decimal(n: nat) -> Seq<char>
    decreases n,
{
    if n < 10 {
        seq![digit(n as int)]
    } else {
        decimal(n / 10).push(digit((n % 10) as int))
    }
}

/// A numeral has one digit exactly when the number is below ten.
pub proof fn decimal_len(n: nat)
    ensures
        decimal(n).len() >= 1,
        n < 10 <==> decimal(n).len() == 1,
    decreases n,
{
    if n >= 10 {
        decimal_len(n / 10);
    }
}

/// Different numbers have different numerals, so a key names one foreign
/// identifier only.
pub proof fn decimal_is_injective(a: nat, b: nat)
    ensures
        decimal(a) == decimal(b) <==> a == b,
    decreases a,
{
    if decimal(a) == decimal(b) {
        decimal_len(a);
        decimal_len(b);
        if a < 10 {
            assert(decimal(a)[0] == decimal(b)[0]);
        } else {
            let da = decimal(a / 10);
            let db = decimal(b / 10);
            assert(decimal(a).drop_last() =~= da);
            assert(decimal(b).drop_last() =~= db);
            assert(decimal(a).last() == decimal(b).last());
            decimal_is_injective(a / 10, b / 10);
        }
    }
}

fn digit_text(d: u32) -> (text: &'static str)
    requires
        d < 10,
    ensures
        text@ == seq![digit(d as int)],
{
    proof {
        reveal_strlit("0");
        reveal_strlit("1");
        reveal_strlit("2");
        reveal_strlit("3");
        reveal_strlit("4");
        reveal_strlit("5");
        reveal_strlit("6");
        reveal_strlit("7");
        reveal_strlit("8");
        reveal_strlit("9");
    }
    let text = match d {
        0 => "0",
        1 => "1",
        2 => "2",
        3 => "3",
        4 => "4",
        5 => "5",
        6 => "6",
        7 => "7",
        8 => "8",
        _ => "9",
    };
    assert(text@ =~= seq![digit(d as int)]);
    text
}

/// Writes `id` as its decimal numeral.
pub fn decimal_text(id: u32) -> (text: String)
    ensures
        text@ == decimal(id as nat),
    decreases id,
{
    if id < 10 {
        digit_text(id).to_owned()
    } else {
        let mut text = decimal_text(id / 10);
        text.append(digit_text(id % 10));
        assert(text@ =~= decimal(id as nat));
        text
    }
}

} // verus!
