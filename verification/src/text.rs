//! Text building blocks for statements and messages: joining with a
//! separator, and decimal numerals.

use vstd::prelude::*;
use vstd::string::StringExecFns;

verus! {

/// The views of a list of strings, in order.
pub open spec fn string_views(parts: Seq<String>) -> Seq<Seq<char>> {
    parts.map_values(|s: String| s@)
}

/// `parts` written one after another with `sep` between neighbours.
pub open spec fn joined(parts: Seq<Seq<char>>, sep: Seq<char>) -> Seq<char>
    decreases parts.len(),
{
    if parts.len() == 0 {
        Seq::empty()
    } else if parts.len() == 1 {
        parts[0]
    } else {
        joined(parts.drop_last(), sep) + sep + parts.last()
    }
}

/// `count` copies of `item`.
pub open spec fn repeated(item: Seq<char>, count: nat) -> Seq<Seq<char>> {
    Seq::new(count, |i: int| item)
}

/// The character of one decimal digit.
pub open spec fn digit_char(d: int) -> char {
    if d == 0 {
        '0'
    } else if d == 1 {
        '1'
    } else if d == 2 {
        '2'
    } else if d == 3 {
        '3'
    } else if d == 4 {
        '4'
    } else if d == 5 {
        '5'
    } else if d == 6 {
        '6'
    } else if d == 7 {
        '7'
    } else if d == 8 {
        '8'
    } else {
        '9'
    }
}

/// The decimal numeral of `n`, without leading zeros.
pub open spec fn decimal(n: nat) -> Seq<char>
    decreases n,
{
    if n < 10 {
        seq![digit_char(n as int)]
    } else {
        decimal(n / 10).push(digit_char((n % 10) as int))
    }
}

/// The decimal numeral of `i`, with a minus sign where it is negative.
pub open spec fn signed_decimal(i: int) -> Seq<char> {
    if i < 0 {
        seq!['-'] + decimal((-i) as nat)
    } else {
        decimal(i as nat)
    }
}

/// Whether two texts hold the same characters.
pub fn text_equals(a: &str, b: &str) -> (same: bool)
    ensures
        same == (a@ == b@),
{
    let left = String::from_str(a);
    let right = String::from_str(b);
    left == right
}

/// Joins `parts` with `sep` between neighbours.
pub fn join(parts: &Vec<String>, sep: &str) -> (text: String)
    ensures
        text@ == joined(string_views(parts@), sep@),
{
    let ghost views = string_views(parts@);
    let mut text = String::new();
    let mut i: usize = 0;
    while i < parts.len()
        invariant
            i <= parts.len(),
            views == string_views(parts@),
            text@ == joined(views.subrange(0, i as int), sep@),
        decreases parts.len() - i,
    {
        proof {
            assert(views.subrange(0, i + 1).drop_last() =~= views.subrange(0, i as int));
        }
        if i > 0 {
            text.append(sep);
        }
        text.append(parts[i].as_str());
        proof {
            if i == 0 {
            }
        }
        i = i + 1;
    }
    proof {
        assert(views.subrange(0, parts.len() as int) =~= views);
    }
    text
}

/// Joins `count` copies of `item` with `sep` between neighbours.
pub fn join_repeated(item: &str, count: usize, sep: &str) -> (text: String)
    ensures
        text@ == joined(repeated(item@, count as nat), sep@),
{
    let mut text = String::new();
    let mut i: usize = 0;
    while i < count
        invariant
            i <= count,
            text@ == joined(repeated(item@, i as nat), sep@),
        decreases count - i,
    {
        proof {
            assert(repeated(item@, (i + 1) as nat).drop_last() =~= repeated(item@, i as nat));
        }
        if i > 0 {
            text.append(sep);
        }
        text.append(item);
        proof {
            if i == 0 {
            }
        }
        i = i + 1;
    }
    text
}

fn digit_text(d: u64) -> (text: &'static str)
    requires
        d < 10,
    ensures
        text@ == seq![digit_char(d as int)],
{
    proof {
        reveal_strlit("0");
        reveal_strlit("1");
        reveal_strlit("2");
        reveal_strlit("3");
        reveal_strlit("4");
        reveal_strlit("5");
        reveal_strlit("6");
        reveal_strlit("7");
        reveal_strlit("8");
        reveal_strlit("9");
    }
    let text = if d == 0 {
        "0"
    } else if d == 1 {
        "1"
    } else if d == 2 {
        "2"
    } else if d == 3 {
        "3"
    } else if d == 4 {
        "4"
    } else if d == 5 {
        "5"
    } else if d == 6 {
        "6"
    } else if d == 7 {
        "7"
    } else if d == 8 {
        "8"
    } else {
        "9"
    };
    text
}

/// Writes `n` as a decimal numeral.
pub fn unsigned_to_text(n: u64) -> (text: String)
    ensures
        text@ == decimal(n as nat),
    decreases n,
{
    if n < 10 {
        String::from_str(digit_text(n))
    } else {
        let mut text = unsigned_to_text(n / 10);
        text.append(digit_text(n % 10));
        text
    }
}

/// Writes `i` as a decimal numeral, with a minus sign where it is negative.
pub fn signed_to_text(i: i64) -> (text: String)
    ensures
        text@ == signed_decimal(i as int),
{
    if i >= 0 {
        unsigned_to_text(i as u64)
    } else {
        let magnitude: u64 = if i == i64::MIN {
            9223372036854775808u64
        } else {
            (-i) as u64
        };
        proof {
            reveal_strlit("-");
        }
        let mut text = String::from_str("-");
        let digits = unsigned_to_text(magnitude);
        text.append(digits.as_str());
        text
    }
}

} // verus!
