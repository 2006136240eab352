//! What a detector reports, and how the numbers inside a message are
//! written.

use vstd::prelude::*;

verus! {

/// One finding on a line: where it is and what it says. The message
/// opens with the code of the rule that was broken.
#[derive(PartialEq, Debug, Clone)]
pub struct Error {
    /// Offset into the line, counted in Unicode scalar values from zero.
    pub column_number: usize,
    /// The rule's code followed by a description.
    pub error_message: String,
}

/// The mathematical content of an `Error`.
pub struct Diagnostic {
    /// Offset into the line, counted in Unicode scalar values from zero.
    pub column: nat,
    /// The characters of the message.
    pub message: Seq<char>,
}

impl View for Error {
    type V = Diagnostic;

    open spec fn view(&self) -> Diagnostic {
        Diagnostic { column: self.column_number as nat, message: self.error_message@ }
    }
}

/// The content of a detector's answer when it reports at most one finding.
pub open spec fn finding(r: Option<Error>) -> Option<Diagnostic> {
    match r {
        Some(e) => Some(e@),
        None => None,
    }
}

/// The content of a list of answers, entry by entry.
pub open spec fn findings(r: Seq<Option<Error>>) -> Seq<Option<Diagnostic>> {
    r.map_values(|e: Option<Error>| finding(e))
}

/// A finding at `column` that says `message`.
pub fn report(column: usize, message: &str) -> (e: Error)
    ensures
        e@ == (Diagnostic { column: column as nat, message: message@ }),
{
    Error { column_number: column, error_message: String::from_str(message) }
}

/// The decimal digit for `d`.
pub open spec fn digit(d: nat) -> char {
    if d == 0 {
        '0'
    } else if d == 1 {
        '1'
    } else if d == 2 {
        '2'
    } else if d == 3 {
        '3'
    } else if d == 4 {
        '4'
    } else if d == 5 {
        '5'
    } else if d == 6 {
        '6'
    } else if d == 7 {
        '7'
    } else if d == 8 {
        '8'
    } else {
        '9'
    }
}

/// `n` written in decimal, without sign or leading zeros.
pub open spec fn decimal(n: nat) -> Seq<char>
    decreases n,
{
    if n < 10 {
        seq![digit(n)]
    } else {
        decimal(n / 10).push(digit(n % 10))
    }
}

fn digit_text(d: usize) -> (s: &'static str)
    requires
        d < 10,
    ensures
        s@ == seq![digit(d as nat)],
{
    proof {
        reveal_strlit("0");
        reveal_strlit("1");
        reveal_strlit("2");
        reveal_strlit("3");
        reveal_strlit("4");
        reveal_strlit("5");
        reveal_strlit("6");
        reveal_strlit("7");
        reveal_strlit("8");
        reveal_strlit("9");
    }
    let s = if d == 0 {
        "0"
    } else if d == 1 {
        "1"
    } else if d == 2 {
        "2"
    } else if d == 3 {
        "3"
    } else if d == 4 {
        "4"
    } else if d == 5 {
        "5"
    } else if d == 6 {
        "6"
    } else if d == 7 {
        "7"
    } else if d == 8 {
        "8"
    } else {
        "9"
    };
    assert(s@ =~= seq![digit(d as nat)]);
    s
}

/// Writes `n` in decimal.
pub fn decimal_text(n: usize) -> (s: String)
    ensures
        s@ == decimal(n as nat),
    decreases n,
{
    if n < 10 {
        String::from_str(digit_text(n))
    } else {
        let mut s = decimal_text(n / 10);
        s.append(digit_text(n % 10));
        assert(s@ =~= decimal(n as nat));
        s
    }
}

} // verus!
