//! What the agent says about a message it has received.

use vstd::prelude::*;
use vstd::string::*;

verus! {

/// A line for one of the standard streams.
#[derive(Debug)]
pub enum Report {
    /// A line for the standard output.
    Out(String),
    /// A line for the standard error.
    Error(String),
}

/// Decides what to report about a received message, given the name of the
/// action that the message asks for, if it names one.
pub fn handle(name: Option<String>) -> (report: Report)
    ensures
        name matches Some(action) ==> (report matches Report::Out(line) && line@
            == "requested to execute the '"@ + action@ + "' action"@),
        name is None ==> (report matches Report::Error(line) && line@
            == "missing action name to execute"@),
{
    match name {
        Some(name) => {
            let mut line = "requested to execute the '".to_owned();
            line.append(name.as_str());
            line.append("' action");
            Report::Out(line)
        },
        None => Report::Error("missing action name to execute".to_owned()),
    }
}

} // verus!
