//! Building blocks of the diagnostic text of packages: numbers in decimal
//! digits, and texts in quotes.
use vstd::prelude::*;
use vstd::string::StringExecFns;

verus! {

/// The character of a decimal digit.
pub open spec fn digit(value: u8) -> char
    recommends
        value < 10,
{
    (('0' as u8) + value) as char
}

/// The decimal digits of a number, without leading zeros.
pub open spec fn decimal(value: nat) -> Seq<char>
    decreases value,
{
    if value < 10 {
        seq![digit(value as u8)]
    } else {
        decimal(value / 10) + seq![digit((value % 10) as u8)]
    }
}

/// What `{:?}` writes for a text: the text in double quotes, with an escape
/// for each character that cannot stand there as it is.
pub uninterp spec fn str_debug(text: Seq<char>) -> Seq<char>;

/// `format!` with `{:?}` on a `str`, which calls `<str as Debug>::fmt`. The
/// result is the one that `str_debug` names.
#[verifier::external_body]
pub(crate) fn quoted(text: &str) -> (quoted: String)
    ensures
        quoted@ == str_debug(text@),
{
    format!("{:?}", text)
}

/// A decimal digit as text.
pub(crate) fn digit_str(value: u8) -> (text: &'static str)
    requires
        value < 10,
    ensures
        text@ == seq![digit(value)],
{
    proof {
        reveal_strlit("0");
        reveal_strlit("1");
        reveal_strlit("2");
        reveal_strlit("3");
        reveal_strlit("4");
        reveal_strlit("5");
        reveal_strlit("6");
        reveal_strlit("7");
        reveal_strlit("8");
        reveal_strlit("9");
    }
    let text = match value {
        0 => "0",
        1 => "1",
        2 => "2",
        3 => "3",
        4 => "4",
        5 => "5",
        6 => "6",
        7 => "7",
        8 => "8",
        _ => "9",
    };
    assert(text@ =~= seq![digit(value)]);
    text
}

/// A number in decimal digits, without leading zeros.
pub fn decimal_string(value: u32) -> (text: String)
    ensures
        text@ == decimal(value as nat),
    decreases value,
{
    if value < 10 {
        String::from_str(digit_str(value as u8))
    } else {
        let mut text = decimal_string(value / 10);
        text.append(digit_str((value % 10) as u8));
        text
    }
}

} // verus!
