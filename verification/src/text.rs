//! Building the texts that describe a listener: lists of addresses and
//! decimal numbers, appended to a `String`.

use vstd::prelude::*;
use vstd::string::StringExecFns;

verus! {

/// The character of a decimal digit.
pub open spec fn digit_char(d: nat) -> char {
    if d == 0 {
        '0'
    } else if d == 1 {
        '1'
    } else if d == 2 {
        '2'
    } else if d == 3 {
        '3'
    } else if d == 4 {
        '4'
    } else if d == 5 {
        '5'
    } else if d == 6 {
        '6'
    } else if d == 7 {
        '7'
    } else if d == 8 {
        '8'
    } else {
        '9'
    }
}

/// The decimal digits of a number, most significant first, without leading zeros.
pub open spec fn decimal(n: nat) -> Seq<char>
    decreases n,
{
    if n < 10 {
        seq![digit_char(n)]
    } else {
        decimal(n / 10).push(digit_char(n % 10))
    }
}

/// The items in order, each after `prefix`, with `separator` between two of them.
pub open spec fn joined(items: Seq<String>, prefix: Seq<char>, separator: Seq<char>) -> Seq<char>
    decreases items.len(),
{
    if items.len() == 0 {
        Seq::empty()
    } else if items.len() == 1 {
        prefix + items[0]@
    } else {
        joined(items.drop_last(), prefix, separator) + separator + prefix + items.last()@
    }
}

/// The text of an optional flag: `None`, `Some(true)` or `Some(false)`.
pub open spec fn flag_text(flag: Option<bool>) -> Seq<char> {
    match flag {
        None => "None"@,
        Some(true) => "Some(true)"@,
        Some(false) => "Some(false)"@,
    }
}

/// The text of an optional number: `None`, or `Some(` its decimal digits `)`.
pub open spec fn number_text(number: Option<u32>) -> Seq<char> {
    match number {
        None => "None"@,
        Some(n) => "Some("@ + decimal(n as nat) + ")"@,
    }
}

fn digit_str(d: u32) -> (r: &'static str)
    requires
        d < 10,
    ensures
        r@ == seq![digit_char(d as nat)],
{
    proof {
        reveal_strlit("0");
        reveal_strlit("1");
        reveal_strlit("2");
        reveal_strlit("3");
        reveal_strlit("4");
        reveal_strlit("5");
        reveal_strlit("6");
        reveal_strlit("7");
        reveal_strlit("8");
        reveal_strlit("9");
    }
    let r = if d == 0 {
        "0"
    } else if d == 1 {
        "1"
    } else if d == 2 {
        "2"
    } else if d == 3 {
        "3"
    } else if d == 4 {
        "4"
    } else if d == 5 {
        "5"
    } else if d == 6 {
        "6"
    } else if d == 7 {
        "7"
    } else if d == 8 {
        "8"
    } else {
        "9"
    };
    r
}

/// Appends the decimal digits of `n` to `out`.
pub fn push_decimal(out: &mut String, n: u32)
    ensures
        final(out)@ == old(out)@ + decimal(n as nat),
    decreases n,
{
    if n >= 10 {
        push_decimal(out, n / 10);
    }
    out.append(digit_str(n % 10));
}

/// Appends the items to `out`, each after `prefix`, with `separator` between
/// two of them.
pub fn push_joined(out: &mut String, items: &Vec<String>, prefix: &str, separator: &str)
    ensures
        final(out)@ == old(out)@ + joined(items@, prefix@, separator@),
{
    let mut i: usize = 0;
    while i < items.len()
        invariant
            i <= items.len(),
            out@ == old(out)@ + joined(items@.take(i as int), prefix@, separator@),
        decreases items.len() - i,
    {
        if i > 0 {
            out.append(separator);
        }
        out.append(prefix);
        out.append(items[i].as_str());
        proof {
            let done = items@.take(i as int);
            let next = items@.take(i + 1);
            assert(next.drop_last() == done);
        }
        i = i + 1;
    }
    assert(items@.take(items.len() as int) == items@);
}

/// Appends the text of an optional flag to `out`.
pub fn push_flag(out: &mut String, flag: Option<bool>)
    ensures
        final(out)@ == old(out)@ + flag_text(flag),
{
    match flag {
        None => out.append("None"),
        Some(true) => out.append("Some(true)"),
        Some(false) => out.append("Some(false)"),
    }
}

/// Appends the text of an optional number to `out`.
pub fn push_number(out: &mut String, number: Option<u32>)
    ensures
        final(out)@ == old(out)@ + number_text(number),
{
    match number {
        None => out.append("None"),
        Some(n) => {
            out.append("Some(");
            push_decimal(out, n);
            out.append(")");
        },
    }
}

} // verus!
