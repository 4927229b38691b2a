use vstd::prelude::*;
use vstd::string::StringExecFns;

verus! {

/// Whether `text` reads `word`.
pub fn reads(text: &str, word: &str) -> (same: bool)
    ensures
        same == (text@ == word@),
{
    text.to_owned() == word.to_owned()
}

/// A copy of `text`, where there is one.
pub fn clone_optional_string(text: &Option<String>) -> (copy: Option<String>)
    ensures
        copy.deep_view() == text.deep_view(),
{
    match text {
        Some(s) => Some(s.clone()),
        None => None,
    }
}

/// A copy of `lines`, string by string.
pub fn clone_strings(lines: &Vec<String>) -> (copy: Vec<String>)
    ensures
        copy.deep_view() == lines.deep_view(),
{
    let mut copy: Vec<String> = Vec::new();
    let mut i: usize = 0;
    while i < lines.len()
        invariant
            i <= lines.len(),
            copy.len() == i,
            forall|k: int| 0 <= k < i ==> copy@[k]@ == lines@[k]@,
        decreases lines.len() - i,
    {
        copy.push(lines[i].clone());
        i += 1;
    }
    assert(copy.deep_view() =~= lines.deep_view());
    copy
}

/// The decimal digit for a number below ten.
pub open spec fn digit(d: int) -> char {
    if d == 0 {
        '0'
    } else if d == 1 {
        '1'
    } else if d == 2 {
        '2'
    } else if d == 3 {
        '3'
    } else if d == 4 {
        '4'
    } else if d == 5 {
        '5'
    } else if d == 6 {
        '6'
    } else if d == 7 {
        '7'
    } else if d == 8 {
        '8'
    } else {
        '9'
    }
}

/// The decimal digits of a natural number, without leading zeros.
pub open spec fn digits(n: nat) -> Seq<char>
    decreases n,
{
    if n < 10 {
        seq![digit(n as int)]
    } else {
        digits(n / 10).push(digit((n % 10) as int))
    }
}

/// The number in decimal notation, with a minus sign where it is negative.
pub open spec fn decimal(n: int) -> Seq<char> {
    if n < 0 {
        seq!['-'] + digits((-n) as nat)
    } else {
        digits(n as nat)
    }
}

/// The decimal digit for a number below ten, as a text.
fn digit_text(d: u64) -> (text: &'static str)
    requires
        d < 10,
    ensures
        text@ == seq![digit(d as int)],
{
    proof {
        reveal_strlit("0");
        reveal_strlit("1");
        reveal_strlit("2");
        reveal_strlit("3");
        reveal_strlit("4");
        reveal_strlit("5");
        reveal_strlit("6");
        reveal_strlit("7");
        reveal_strlit("8");
        reveal_strlit("9");
    }
    let text = if d == 0 {
        "0"
    } else if d == 1 {
        "1"
    } else if d == 2 {
        "2"
    } else if d == 3 {
        "3"
    } else if d == 4 {
        "4"
    } else if d == 5 {
        "5"
    } else if d == 6 {
        "6"
    } else if d == 7 {
        "7"
    } else if d == 8 {
        "8"
    } else {
        "9"
    };
    assert(text@ =~= seq![digit(d as int)]);
    text
}

/// The decimal digits of `n`.
fn digits_string(n: u64) -> (text: String)
    ensures
        text@ == digits(n as nat),
{
    let mut text = digit_text(n % 10).to_owned();
    let mut rest = n / 10;
    while rest > 0
        invariant
            digits(n as nat) == (if rest > 0 {
                digits(rest as nat)
            } else {
                Seq::<char>::empty()
            }) + text@,
        decreases rest,
    {
        let ghost before = text@;
        text = digit_text(rest % 10).to_owned().concat(text.as_str());
        proof {
            if rest / 10 > 0 {
                assert(digits(rest as nat) + before =~= digits((rest / 10) as nat) + text@);
            } else {
                assert(digits(rest as nat) + before =~= text@);
            }
        }
        rest = rest / 10;
    }
    text
}

/// The number in decimal notation.
pub fn decimal_string(n: i32) -> (text: String)
    ensures
        text@ == decimal(n as int),
{
    if n < 0 {
        proof {
            reveal_strlit("-");
        }
        let magnitude = (-(n as i64)) as u64;
        let text = "-".to_owned().concat(digits_string(magnitude).as_str());
        assert(text@ =~= decimal(n as int));
        text
    } else {
        digits_string(n as u64)
    }
}

} // verus!
