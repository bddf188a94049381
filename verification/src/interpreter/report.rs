//! What a run leaves behind, and the lines that show it.

use vstd::prelude::*;
use vstd::string::*;
use crate::interpreter::semantics::Step;
use crate::types::error::RuntimeError;
use crate::types::primitive_value::PrimitiveValue;
use crate::types::primitive_value::ValueView;
use crate::types::text::decimal_nat;
use crate::types::text::u128_to_string;

verus! {

/// The mathematical value of a list of printed items.
pub open spec fn printed_view(output: Seq<Option<PrimitiveValue>>) -> Seq<Option<ValueView>> {
    Seq::new(
        output.len(),
        |i: int|
            match output[i] {
                Some(value) => Some(value@),
                None => None,
            },
    )
}

/// What a run of a program left behind: the values it printed, in order,
/// and the error that ended it, if one did.
#[derive(Debug, PartialEq, Eq)]
pub struct Report {
    pub printed: Vec<Option<PrimitiveValue>>,
    pub error: Option<RuntimeError>,
}

/// The line that a printed item is shown as: the text of a value, or two
/// single quotes for nothing.
pub open spec fn printed_text(item: Option<ValueView>) -> Seq<char> {
    match item {
        Some(value) => value.text(),
        None => "''"@,
    }
}

/// The line that reports a run that took `elapsed_millis` milliseconds and
/// ended without an error.
pub open spec fn done_text(elapsed_millis: nat) -> Seq<char> {
    "Done in "@ + decimal_nat(elapsed_millis) + "ms"@
}

/// The line that a printed item is shown as.
pub fn printed_line(item: &Option<PrimitiveValue>) -> (line: String)
    ensures
        line@ == printed_text(
            match *item {
                Some(value) => Some(value@),
                None => None,
            },
        ),
{
    match item {
        Some(value) => value.to_string(),
        None => String::from_str("''"),
    }
}

impl Report {
    /// The last line of a run that took `elapsed_millis` milliseconds: the
    /// error that ended it, or the time it took.
    pub fn last_line(&self, elapsed_millis: u128) -> (line: String)
        ensures
            line@ == match self.error {
                Some(error) => "Runtime Error! "@ + error@,
                None => done_text(elapsed_millis as nat),
            },
    {
        match &self.error {
            Some(error) => error.report(),
            None => {
                let mut line = String::from_str("Done in ");
                let elapsed = u128_to_string(elapsed_millis);
                line.append(elapsed.as_str());
                line.append("ms");
                line
            },
        }
    }
}

/// Whether `report` is what `step` leaves behind.
pub open spec fn report_is(report: Report, step: Step) -> bool {
    &&& printed_view(report.printed@) == step.printed
    &&& match report.error {
        Some(error) => step.flow == Err::<Option<ValueView>, Seq<char>>(error@),
        None => step.flow is Ok,
    }
}

} // verus!
