//! Text helpers: decimal rendering of a number, the longer of two
//! texts, and the label of a fetched resource.

use vstd::prelude::*;
use vstd::string::StringExecFns;

verus! {

/// The character that stands for one decimal digit.
pub open spec fn digit_char(d: nat) -> char {
    if d == 0 {
        '0'
    } else if d == 1 {
        '1'
    } else if d == 2 {
        '2'
    } else if d == 3 {
        '3'
    } else if d == 4 {
        '4'
    } else if d == 5 {
        '5'
    } else if d == 6 {
        '6'
    } else if d == 7 {
        '7'
    } else if d == 8 {
        '8'
    } else {
        '9'
    }
}

/// The decimal notation of `n`, most significant digit first and without
/// leading zeros.
pub open spec fn decimal(n: nat) -> Seq<char>
    decreases n,
{
    if n < 10 {
        seq![digit_char(n)]
    } else {
        decimal(n / 10).push(digit_char(n % 10))
    }
}

/// The length of a text in bytes of its UTF-8 encoding.
pub open spec fn byte_len(s: &str) -> usize {
    s.len()
}

/// What `longest` returns: the first text only if it is strictly longer.
pub open spec fn longer_of<'a>(x: &'a str, y: &'a str) -> &'a str {
    if byte_len(x) > byte_len(y) {
        x
    } else {
        y
    }
}

/// The text of what `data_label` returns for `url`.
pub open spec fn data_label_text(url: Seq<char>) -> Seq<char> {
    "Data from "@ + url
}

fn digit_text(d: u32) -> (s: &'static str)
    requires
        d < 10,
    ensures
        s@ == seq![digit_char(d as nat)],
{
    proof {
        reveal_strlit("0");
        reveal_strlit("1");
        reveal_strlit("2");
        reveal_strlit("3");
        reveal_strlit("4");
        reveal_strlit("5");
        reveal_strlit("6");
        reveal_strlit("7");
        reveal_strlit("8");
        reveal_strlit("9");
    }
    let s = if d == 0 {
        "0"
    } else if d == 1 {
        "1"
    } else if d == 2 {
        "2"
    } else if d == 3 {
        "3"
    } else if d == 4 {
        "4"
    } else if d == 5 {
        "5"
    } else if d == 6 {
        "6"
    } else if d == 7 {
        "7"
    } else if d == 8 {
        "8"
    } else {
        "9"
    };
    assert(s@ =~= seq![digit_char(d as nat)]);
    s
}

/// Renders `n` in decimal notation.
pub fn decimal_string(n: u32) -> (s: String)
    ensures
        s@ == decimal(n as nat),
{
    let mut rest: u32 = n / 10;
    let mut s = String::from_str(digit_text(n % 10));
    assert(rest > 0 ==> decimal(n as nat) =~= decimal(rest as nat) + s@);
    while rest > 0
        invariant
            rest > 0 ==> decimal(n as nat) == decimal(rest as nat) + s@,
            rest == 0 ==> decimal(n as nat) == s@,
        decreases rest,
    {
        let digit = digit_text(rest % 10);
        s = String::from_str(digit).concat(s.as_str());
        assert(rest >= 10 ==> decimal(n as nat) =~= decimal((rest / 10) as nat) + s@);
        assert(rest < 10 ==> decimal(n as nat) =~= s@);
        rest = rest / 10;
    }
    s
}

/// Returns the longer of two texts, by their length in bytes; where both
/// are equally long, the second.
pub fn longest<'a>(x: &'a str, y: &'a str) -> (r: &'a str)
    ensures
        r == longer_of(x, y),
{
    if x.len() > y.len() {
        x
    } else {
        y
    }
}

/// The label under which the data of `url` is reported.
pub fn data_label(url: &str) -> (s: String)
    ensures
        s@ == data_label_text(url@),
{
    String::from_str("Data from ").concat(url)
}

} // verus!
