//! Errors that can be reported to the user, and how a chain of them is
//! written out.

use crate::text::{decimal, decimal_string};
use vstd::prelude::*;

verus! {

/// An error that knows the code with which the process is to exit.
pub trait ErrorCode {
    /// The exit code of the process that ends with this error.
    fn error_code(&self) -> u8;
}

/// An error of this project: it can be written out with its causes, and it
/// has an exit code.
pub trait MonprofError: ErrorCode {
    /// The message of this error.
    fn message(&self) -> String;

    /// The messages of the errors that led to this one: that of its direct
    /// cause first, then that of the cause's cause, and so on.
    fn causes(&self) -> Vec<String>;
}

/// The first line of a report: the error's own message.
pub open spec fn headline(message: Seq<char>) -> Seq<char> {
    "ERROR: "@ + message
}

/// The line of a cause: a tab, the cause's number, a colon and its message.
pub open spec fn cause_line(number: nat, message: Seq<char>) -> Seq<char> {
    seq!['\t'] + decimal(number) + ": "@ + message
}

/// The lines that report an error: its headline and, if it has causes, an
/// empty line, the line `Caused by:` and one line for each cause, numbered
/// from 0.
pub open spec fn error_chain(message: Seq<char>, causes: Seq<Seq<char>>) -> Seq<Seq<char>> {
    if causes.len() == 0 {
        seq![headline(message)]
    } else {
        seq![headline(message), Seq::<char>::empty(), "Caused by:"@] + Seq::new(
            causes.len(),
            |number: int| cause_line(number as nat, causes[number]),
        )
    }
}

/// Writes the lines that report an error with the given message and causes.
pub fn error_chain_lines(message: &str, causes: &Vec<String>) -> (lines: Vec<String>)
    ensures
        lines.deep_view() == error_chain(message@, causes.deep_view()),
{
    let mut lines: Vec<String> = Vec::new();
    let mut first: String = "ERROR: ".to_owned();
    first.append(message);
    lines.push(first);
    if causes.len() > 0 {
        lines.push(String::new());
        lines.push("Caused by:".to_owned());
        let mut number: usize = 0;
        while number < causes.len()
            invariant
                number <= causes.len(),
                lines@.len() == 3 + number,
                lines@[0]@ == headline(message@),
                lines@[1]@ == Seq::<char>::empty(),
                lines@[2]@ == "Caused by:"@,
                forall|k: int|
                    0 <= k < number ==> (#[trigger] lines@[3 + k])@ == cause_line(
                        k as nat,
                        causes@[k]@,
                    ),
            decreases causes.len() - number,
        {
            let mut line = String::new();
            line.push('\t');
            line.append(decimal_string(number as u64).as_str());
            line.append(": ");
            line.append(causes[number].as_str());
            lines.push(line);
            number += 1;
        }
    }
    proof {
        let written = lines.deep_view();
        let wanted = error_chain(message@, causes.deep_view());
        assert forall|at: int| 0 <= at < written.len() implies written[at] == wanted[at] by {
            if at >= 3 {
                assert(lines@[3 + (at - 3)]@ == cause_line((at - 3) as nat, causes@[at - 3]@));
            }
        }
    }
    lines
}

/// Writes the lines that report `error`: see `error_chain`, of which this
/// is the value for the message and the causes that `error` gives.
pub fn print_error_chain<E: MonprofError + ?Sized>(error: &E) -> (lines: Vec<String>)
    ensures
        exists|message: Seq<char>, causes: Seq<Seq<char>>|
            lines.deep_view() == error_chain(message, causes),
{
    let message = error.message();
    let causes = error.causes();
    error_chain_lines(message.as_str(), &causes)
}

} // verus!
