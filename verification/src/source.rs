//! A whole source text, line after line: the context that each line is
//! checked in, and the findings of all lines.

use vstd::prelude::*;
use crate::context::{increment_blank_lines, next_blank_run};
use crate::diagnostic::{findings, Diagnostic, Error};
use crate::engine::{checker, line_findings, texts};

verus! {

/// What a line is checked against besides its own text.
pub struct LineContext<'a> {
    /// The number of the line, counted from one.
    pub line_number: usize,
    /// How many lines the text holds.
    pub total_lines: usize,
    /// The line before, or the empty string for the first line.
    pub previous_line: &'a str,
    /// How many empty lines stand directly before the line.
    pub blank_run: usize,
}

/// The mathematical content of a `LineContext`.
pub struct Context {
    /// The number of the line, counted from one.
    pub line_number: nat,
    /// How many lines the text holds.
    pub total_lines: nat,
    /// The characters of the line before.
    pub previous_line: Seq<char>,
    /// How many empty lines stand directly before the line.
    pub blank_run: nat,
}

impl<'a> View for LineContext<'a> {
    type V = Context;

    open spec fn view(&self) -> Context {
        Context {
            line_number: self.line_number as nat,
            total_lines: self.total_lines as nat,
            previous_line: self.previous_line@,
            blank_run: self.blank_run as nat,
        }
    }
}

/// The context of the first line of a text of `total_lines` lines.
pub open spec fn first_context(total_lines: nat) -> Context {
    Context { line_number: 1, total_lines, previous_line: Seq::empty(), blank_run: 0 }
}

/// The context of the line that follows `line`, which was checked in
/// `context`.
pub open spec fn next_context(context: Context, line: Seq<char>) -> Context {
    Context {
        line_number: context.line_number + 1,
        total_lines: context.total_lines,
        previous_line: line,
        blank_run: next_blank_run(line, context.blank_run),
    }
}

/// The context of line `i` of `lines`, counted from zero, as it comes out
/// of the lines before it.
pub open spec fn context_at(lines: Seq<Seq<char>>, i: nat) -> Context
    decreases i,
{
    if i == 0 {
        first_context(lines.len())
    } else {
        next_context(context_at(lines, (i - 1) as nat), lines[i - 1])
    }
}

/// What is reported of a line that is checked in `context`.
pub open spec fn context_findings(context: Context, line: Seq<char>) -> Seq<Option<Diagnostic>> {
    line_findings(
        line,
        context.line_number,
        context.total_lines,
        context.previous_line,
        context.blank_run,
    )
}

impl<'a> LineContext<'a> {
    /// The context of the first line.
    pub fn start(total_lines: usize) -> (context: LineContext<'static>)
        ensures
            context@ == first_context(total_lines as nat),
    {
        proof {
            reveal_strlit("");
        }
        let context = LineContext { line_number: 1, total_lines, previous_line: "", blank_run: 0 };
        assert(context.previous_line@ =~= Seq::<char>::empty());
        context
    }

    /// The context of the line after `line`.
    pub fn advance(&self, line: &'a str) -> (context: LineContext<'a>)
        requires
            self.line_number < usize::MAX,
            line@.len() == 0 ==> self.blank_run < usize::MAX,
        ensures
            context@ == next_context(self@, line@),
    {
        LineContext {
            line_number: self.line_number + 1,
            total_lines: self.total_lines,
            previous_line: line,
            blank_run: increment_blank_lines(line, &self.blank_run),
        }
    }

    /// Runs every detector on `line`.
    pub fn check(&self, line: &str) -> (r: Vec<Option<Error>>)
        ensures
            findings(r@) == context_findings(self@, line@),
    {
        checker(line, self.line_number, self.total_lines, self.previous_line, self.blank_run)
    }
}

/// The context of a line knows the line's number, the line before it, and
/// the length of the run of empty lines that ends just before it.
pub proof fn context_looks_back(lines: Seq<Seq<char>>, i: nat)
    requires
        i <= lines.len(),
    ensures
        context_at(lines, i).line_number == i + 1,
        context_at(lines, i).total_lines == lines.len(),
        context_at(lines, i).previous_line == if i == 0 {
            Seq::<char>::empty()
        } else {
            lines[i - 1]
        },
        context_at(lines, i).blank_run <= i,
        forall|j: int| i - context_at(lines, i).blank_run <= j < i ==> (#[trigger] lines[j]).len() == 0,
        context_at(lines, i).blank_run < i ==> lines[i - context_at(lines, i).blank_run - 1].len()
            > 0,
    decreases i,
{
    if i > 0 {
        context_looks_back(lines, (i - 1) as nat);
    }
}

/// The findings of each list, list by list.
pub open spec fn all_findings(lists: Seq<Vec<Option<Error>>>) -> Seq<Seq<Option<Diagnostic>>> {
    lists.map_values(|list: Vec<Option<Error>>| findings(list@))
}

/// Checks every line of a text in turn, each in the context that the
/// lines before it leave, and gives the findings line by line.
pub fn check_lines(lines: &Vec<String>) -> (r: Vec<Vec<Option<Error>>>)
    ensures
        r@.len() == lines@.len(),
        forall|i: int|
            0 <= i < lines@.len() ==> #[trigger] all_findings(r@)[i] == context_findings(
                context_at(texts(lines@), i as nat),
                lines@[i]@,
            ),
{
    let total = lines.len();
    let mut out: Vec<Vec<Option<Error>>> = Vec::new();
    let mut context = LineContext::start(total);
    let mut i: usize = 0;
    while i < total
        invariant
            total == lines@.len(),
            i <= total,
            out@.len() == i,
            i < total ==> context@ == context_at(texts(lines@), i as nat),
            forall|k: int|
                0 <= k < i ==> #[trigger] all_findings(out@)[k] == context_findings(
                    context_at(texts(lines@), k as nat),
                    lines@[k]@,
                ),
        decreases total - i,
    {
        let line = lines[i].as_str();
        let found = context.check(line);
        let ghost earlier = out@;
        out.push(found);
        proof {
            context_looks_back(texts(lines@), i as nat);
            assert forall|k: int| 0 <= k < i + 1 implies #[trigger] all_findings(out@)[k]
                == context_findings(context_at(texts(lines@), k as nat), lines@[k]@) by {
                if k < i {
                    assert(all_findings(out@)[k] == all_findings(earlier)[k]);
                }
            }
        }
        if total - i > 1 {
            context = context.advance(line);
            assert(texts(lines@)[i as int] == line@);
        }
        i += 1;
    }
    out
}

} // verus!
