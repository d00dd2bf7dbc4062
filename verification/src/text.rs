//! Building blocks of the messages: decimal numbers, quoted text, and what it
//! means for one text to occur in another.

use vstd::prelude::*;

verus! {

/// The character that writes the digit `d`, for `d` from 0 to 9: the digits
/// follow each other from `'0'` on.
pub open spec fn digit_char(d: nat) -> char {
    ('0' as u32 + d) as char
}

/// `n` written in decimal: no sign, no leading zero, `"0"` for zero.
pub open spec fn decimal(n: nat) -> Seq<char>
    decreases n,
{
    if n < 10 {
        seq![digit_char(n)]
    } else {
        decimal(n / 10).push(digit_char(n % 10))
    }
}

/// A character that a quoted text shows as it is: a printable ASCII
/// character other than the double quote and the backslash.
pub open spec fn plain_char(c: char) -> bool {
    0x20 <= c as u32 <= 0x7e && c != '"' && c != '\\'
}

/// A text of plain characters only.
pub open spec fn plain_text(text: Seq<char>) -> bool {
    forall|i: int| 0 <= i < text.len() ==> plain_char(#[trigger] text[i])
}

/// `text` between two double quotes. For a plain text this is the text as a
/// string literal, since nothing in it needs an escape.
pub open spec fn quoted(text: Seq<char>) -> Seq<char> {
    seq!['"'] + text + seq!['"']
}

/// A decimal number is a plain text.
pub proof fn lemma_decimal_is_plain(n: nat)
    ensures
        plain_text(decimal(n)),
    decreases n,
{
    if n >= 10 {
        lemma_decimal_is_plain(n / 10);
    }
}

/// `part` stands somewhere in `whole`, as one unbroken run of characters.
pub open spec fn occurs_in(part: Seq<char>, whole: Seq<char>) -> bool {
    exists|at: int| occurs_at(part, whole, at)
}

/// `part` stands in `whole` from position `at` on.
pub open spec fn occurs_at(part: Seq<char>, whole: Seq<char>, at: int) -> bool {
    &&& 0 <= at
    &&& at + part.len() <= whole.len()
    &&& whole.subrange(at, at + part.len()) == part
}

/// A text occurs in every text that is built around it.
pub proof fn lemma_occurs_between(before: Seq<char>, part: Seq<char>, after: Seq<char>)
    ensures
        occurs_in(part, before + part + after),
        before.is_prefix_of(before + part + after),
{
    let whole = before + part + after;
    let at = before.len() as int;
    assert(whole.subrange(at, at + part.len()) =~= part);
    assert(occurs_at(part, whole, at));
    assert(whole.subrange(0, before.len() as int) =~= before);
}

/// The digit `d` as text.
fn digit_text(d: u8) -> (r: &'static str)
    requires
        d < 10,
    ensures
        r@ == seq![digit_char(d as nat)],
{
    proof {
        reveal_strlit("0");
        reveal_strlit("1");
        reveal_strlit("2");
        reveal_strlit("3");
        reveal_strlit("4");
        reveal_strlit("5");
        reveal_strlit("6");
        reveal_strlit("7");
        reveal_strlit("8");
        reveal_strlit("9");
    }
    let r = match d {
        0 => "0",
        1 => "1",
        2 => "2",
        3 => "3",
        4 => "4",
        5 => "5",
        6 => "6",
        7 => "7",
        8 => "8",
        _ => "9",
    };
    assert(r@ =~= seq![digit_char(d as nat)]);
    r
}

/// The decimal text of a byte.
pub fn decimal_text(n: u8) -> (r: String)
    ensures
        r@ == decimal(n as nat),
{
    let mut r = String::new();
    if n >= 100 {
        r.append(digit_text(n / 100));
    }
    if n >= 10 {
        r.append(digit_text((n / 10) % 10));
    }
    r.append(digit_text(n % 10));
    proof {
        let v = n as nat;
        let tens = v / 10;
        if v < 10 {
            assert(v % 10 == v);
        } else if v < 100 {
            assert(tens < 10 && tens % 10 == tens);
            assert(decimal(tens) == seq![digit_char(tens)]);
        } else {
            assert(tens >= 10 && tens / 10 == v / 100 && v / 100 < 10);
            assert(decimal(tens / 10) == seq![digit_char(tens / 10)]);
            assert(decimal(tens) == decimal(tens / 10).push(digit_char(tens % 10)));
        }
        assert(r@ =~= decimal(v));
    }
    r
}

/// The plain text `text` as a string literal.
pub(crate) fn quote(text: &str) -> (r: String)
    requires
        plain_text(text@),
    ensures
        r@ == quoted(text@),
{
    proof {
        reveal_strlit("\"");
    }
    let mut r = String::from_str("\"");
    r.append(text);
    r.append("\"");
    assert(r@ =~= quoted(text@));
    r
}

} // verus!
