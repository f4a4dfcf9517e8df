use vstd::prelude::*;
use vstd::string::*;

verus! {

/// The character of one digit below sixteen.
pub open spec fn digit_char(d: nat) -> char {
    if d == 0 {
        '0'
    } else if d == 1 {
        '1'
    } else if d == 2 {
        '2'
    } else if d == 3 {
        '3'
    } else if d == 4 {
        '4'
    } else if d == 5 {
        '5'
    } else if d == 6 {
        '6'
    } else if d == 7 {
        '7'
    } else if d == 8 {
        '8'
    } else if d == 9 {
        '9'
    } else if d == 10 {
        'a'
    } else if d == 11 {
        'b'
    } else if d == 12 {
        'c'
    } else if d == 13 {
        'd'
    } else if d == 14 {
        'e'
    } else {
        'f'
    }
}

/// The number in lower-case hexadecimal, without prefix or leading zeros.
pub open spec fn hex_text(n: nat) -> Seq<char>
    decreases n,
{
    if n < 16 {
        seq![digit_char(n)]
    } else {
        hex_text(n / 16).push(digit_char(n % 16))
    }
}

/// The number in decimal, without leading zeros.
pub open spec fn decimal_text(n: nat) -> Seq<char>
    decreases n,
{
    if n < 10 {
        seq![digit_char(n)]
    } else {
        decimal_text(n / 10).push(digit_char(n % 10))
    }
}

/// The digit as a text of one character.
fn digit_str(d: u64) -> (s: &'static str)
    requires
        d < 16,
    ensures
        s@ == seq![digit_char(d as nat)],
{
    proof {
        reveal_strlit("0");
        reveal_strlit("1");
        reveal_strlit("2");
        reveal_strlit("3");
        reveal_strlit("4");
        reveal_strlit("5");
        reveal_strlit("6");
        reveal_strlit("7");
        reveal_strlit("8");
        reveal_strlit("9");
        reveal_strlit("a");
        reveal_strlit("b");
        reveal_strlit("c");
        reveal_strlit("d");
        reveal_strlit("e");
        reveal_strlit("f");
    }
    let s = if d == 0 {
        "0"
    } else if d == 1 {
        "1"
    } else if d == 2 {
        "2"
    } else if d == 3 {
        "3"
    } else if d == 4 {
        "4"
    } else if d == 5 {
        "5"
    } else if d == 6 {
        "6"
    } else if d == 7 {
        "7"
    } else if d == 8 {
        "8"
    } else if d == 9 {
        "9"
    } else if d == 10 {
        "a"
    } else if d == 11 {
        "b"
    } else if d == 12 {
        "c"
    } else if d == 13 {
        "d"
    } else if d == 14 {
        "e"
    } else {
        "f"
    };
    assert(s@ =~= seq![digit_char(d as nat)]);
    s
}

/// Writes the number in lower-case hexadecimal.
pub fn hex_string(n: u64) -> (s: String)
    ensures
        s@ == hex_text(n as nat),
{
    let mut rest: u64 = n;
    let mut low = String::new();
    assert(hex_text(n as nat) + low@ =~= hex_text(n as nat));
    while rest >= 16
        invariant
            hex_text(n as nat) == hex_text(rest as nat) + low@,
        decreases rest,
    {
        let mut next = String::from_str(digit_str(rest % 16));
        next.append(low.as_str());
        proof {
            let high = hex_text((rest / 16) as nat);
            let digit = digit_char((rest % 16) as nat);
            assert(hex_text(rest as nat) == high.push(digit));
            assert(high.push(digit) + low@ =~= high + (seq![digit] + low@));
        }
        low = next;
        rest = rest / 16;
    }
    let mut text = String::from_str(digit_str(rest));
    text.append(low.as_str());
    text
}

/// Writes the number in decimal.
pub fn decimal_string(n: u32) -> (s: String)
    ensures
        s@ == decimal_text(n as nat),
{
    let mut rest: u32 = n;
    let mut low = String::new();
    assert(decimal_text(n as nat) + low@ =~= decimal_text(n as nat));
    while rest >= 10
        invariant
            decimal_text(n as nat) == decimal_text(rest as nat) + low@,
        decreases rest,
    {
        let digit: u32 = rest % 10;
        let mut next = String::from_str(digit_str(digit as u64));
        next.append(low.as_str());
        proof {
            let high = decimal_text((rest / 10) as nat);
            let last = digit_char((rest % 10) as nat);
            assert(decimal_text(rest as nat) == high.push(last));
            assert(high.push(last) + low@ =~= high + (seq![last] + low@));
        }
        low = next;
        rest = rest / 10;
    }
    let mut text = String::from_str(digit_str(rest as u64));
    text.append(low.as_str());
    text
}

} // verus!
