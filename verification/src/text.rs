//! Decimal text of unsigned integers.

use vstd::prelude::*;
use vstd::string::StringExecFns;

verus! {

/// The character that stands for the digit `d`.
pub open spec fn digit(d: nat) -> char
    recommends
        d < 10,
{
    if d == 0 {
        '0'
    } else if d == 1 {
        '1'
    } else if d == 2 {
        '2'
    } else if d == 3 {
        '3'
    } else if d == 4 {
        '4'
    } else if d == 5 {
        '5'
    } else if d == 6 {
        '6'
    } else if d == 7 {
        '7'
    } else if d == 8 {
        '8'
    } else {
        '9'
    }
}

/// The decimal numeral of `n`: no sign, no leading zero, `"0"` for zero.
pub open spec fn decimal(n: nat) -> Seq<char>
    decreases n,
{
    if n < 10 {
        seq![digit(n)]
    } else {
        decimal(n / 10).push(digit(n % 10))
    }
}

fn digit_text(d: u64) -> (s: &'static str)
    requires
        d < 10,
    ensures
        s@ == seq![digit(d as nat)],
{
    proof {
        reveal_strlit("0");
        reveal_strlit("1");
        reveal_strlit("2");
        reveal_strlit("3");
        reveal_strlit("4");
        reveal_strlit("5");
        reveal_strlit("6");
        reveal_strlit("7");
        reveal_strlit("8");
        reveal_strlit("9");
    }
    let s = if d == 0 {
        "0"
    } else if d == 1 {
        "1"
    } else if d == 2 {
        "2"
    } else if d == 3 {
        "3"
    } else if d == 4 {
        "4"
    } else if d == 5 {
        "5"
    } else if d == 6 {
        "6"
    } else if d == 7 {
        "7"
    } else if d == 8 {
        "8"
    } else {
        "9"
    };
    assert(s@ =~= seq![digit(d as nat)]);
    s
}

/// Writes `n` as a decimal numeral.
pub fn decimal_text(n: u64) -> (s: String)
    ensures
        s@ == decimal(n as nat),
    decreases n,
{
    if n < 10 {
        digit_text(n).to_owned()
    } else {
        let mut s = decimal_text(n / 10);
        s.append(digit_text(n % 10));
        assert(s@ =~= decimal((n / 10) as nat).push(digit((n % 10) as nat)));
        s
    }
}

/// A path that names one item: what stands before the number, the number in decimal,
/// what stands after it.
pub open spec fn item_path(before: Seq<char>, id: u64, after: Seq<char>) -> Seq<char> {
    before + decimal(id as nat) + after
}

/// Writes the path that names one item.
pub fn numbered(before: &str, id: u64, after: &str) -> (path: String)
    ensures
        path@ == item_path(before@, id, after@),
{
    let mut path = before.to_owned();
    path.append(decimal_text(id).as_str());
    path.append(after);
    path
}

/// The text that `Debug` of std writes for a string: the string between double
/// quotes, with the characters that cannot stand there escaped.
pub uninterp spec fn debug_quoted(text: Seq<char>) -> Seq<char>;

/// Formats a string with `{:?}`, that is with `Debug` of std for `str`. The result
/// depends on the string alone; `debug_quoted` is its name.
#[verifier::external_body]
pub(crate) fn quoted(text: &str) -> (s: String)
    ensures
        s@ == debug_quoted(text@),
{
    format!("{:?}", text)
}

/// Whether `text` is what `cause` shows of itself: the text that its `Display` writes.
pub open spec fn shown<T: core::fmt::Display>(cause: T, text: Seq<char>) -> bool {
    exists|written: String| #[trigger]
        vstd::string::to_string_from_display_ensures::<T>(&cause, written) && written@ == text
}

/// Writes what `cause` shows of itself behind a label.
pub fn labelled_cause<T: core::fmt::Display>(label: &str, cause: &T) -> (s: String)
    ensures
        exists|text: Seq<char>| shown(*cause, text) && s@ == label@ + text,
{
    let written = cause.to_string();
    let mut s = label.to_owned();
    s.append(written.as_str());
    assert(shown(*cause, written@));
    s
}

/// Writes a text behind a label.
pub fn labelled(label: &str, detail: &str) -> (s: String)
    ensures
        s@ == label@ + detail@,
{
    let mut s = label.to_owned();
    s.append(detail);
    s
}

} // verus!
