//! Text helpers shared by the other modules: decimal numbers and joined lists.

use vstd::prelude::*;
use vstd::string::*;

verus! {

/// The character of one decimal digit.
pub open spec fn digit_char(d: nat) -> char {
    if d == 0 {
        '0'
    } else if d == 1 {
        '1'
    } else if d == 2 {
        '2'
    } else if d == 3 {
        '3'
    } else if d == 4 {
        '4'
    } else if d == 5 {
        '5'
    } else if d == 6 {
        '6'
    } else if d == 7 {
        '7'
    } else if d == 8 {
        '8'
    } else {
        '9'
    }
}

/// The decimal numeral of `n`, without sign or leading zeros.
pub open spec fn decimal_text(n: nat) -> Seq<char>
    decreases n,
{
    if n < 10 {
        seq![digit_char(n)]
    } else {
        decimal_text(n / 10).push(digit_char(n % 10))
    }
}

/// The views of a sequence of strings.
pub open spec fn texts(items: Seq<String>) -> Seq<Seq<char>> {
    items.map_values(|s: String| s@)
}

/// The first `count` items, each but the first preceded by `separator`.
pub open spec fn joined(items: Seq<Seq<char>>, separator: Seq<char>, count: nat) -> Seq<char>
    decreases count,
{
    if count == 0 {
        Seq::empty()
    } else if count == 1 {
        items[0]
    } else {
        joined(items, separator, (count - 1) as nat) + separator + items[count - 1]
    }
}

/// The numeral of one decimal digit.
fn digit(d: u64) -> (s: &'static str)
    requires
        d < 10,
    ensures
        s@ == seq![digit_char(d as nat)],
{
    proof {
        reveal_strlit("0");
        reveal_strlit("1");
        reveal_strlit("2");
        reveal_strlit("3");
        reveal_strlit("4");
        reveal_strlit("5");
        reveal_strlit("6");
        reveal_strlit("7");
        reveal_strlit("8");
        reveal_strlit("9");
    }
    let s = if d == 0 {
        "0"
    } else if d == 1 {
        "1"
    } else if d == 2 {
        "2"
    } else if d == 3 {
        "3"
    } else if d == 4 {
        "4"
    } else if d == 5 {
        "5"
    } else if d == 6 {
        "6"
    } else if d == 7 {
        "7"
    } else if d == 8 {
        "8"
    } else {
        "9"
    };
    assert(s@ =~= seq![digit_char(d as nat)]);
    s
}

/// Writes `n` as a decimal numeral.
pub fn decimal(n: u64) -> (text: String)
    ensures
        text@ == decimal_text(n as nat),
    decreases n,
{
    if n < 10 {
        String::from_str(digit(n))
    } else {
        let text = decimal(n / 10).concat(digit(n % 10));
        assert(text@ =~= decimal_text((n / 10) as nat).push(digit_char((n % 10) as nat)));
        text
    }
}

/// Joins `items` with `separator` between neighbours.
pub fn join(items: &Vec<String>, separator: &str) -> (text: String)
    ensures
        text@ == joined(texts(items@), separator@, items@.len()),
{
    let mut text = String::new();
    let mut i: usize = 0;
    while i < items.len()
        invariant
            i <= items@.len(),
            text@ == joined(texts(items@), separator@, i as nat),
        decreases items@.len() - i,
    {
        if i > 0 {
            text.append(separator);
        }
        text.append(items[i].as_str());
        proof {
            let t = texts(items@);
            assert(t[i as int] == items@[i as int]@);
            if i == 0 {
                assert(Seq::<char>::empty() + t[0] =~= t[0]);
            }
        }
        i = i + 1;
    }
    text
}

} // verus!
