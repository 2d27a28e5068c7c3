use vstd::prelude::*;
use vstd::string::*;
use crate::text::{dec_str, push_decimal, str_eq};

verus! {

/// How results are printed.
#[derive(Debug, Clone, Copy, PartialEq, Eq, Structural)]
pub enum OutputMode {
    Human,
    Json,
}

/// A value to be printed as JSON.
pub struct JsonOutput<T>(pub T);

/// Something that renders itself for an output mode.
pub trait OutputFormatter {
    fn format(&self, mode: OutputMode) -> String;
}

/// The one-line status text: `Running (PID: n)`, `Running` or `Stopped`.
pub open spec fn status_text(running: bool, pid: Option<u32>) -> Seq<char> {
    if running {
        match pid {
            Some(p) => "Running (PID: "@ + dec_str(p as nat) + ")"@,
            None => "Running"@,
        }
    } else {
        "Stopped"@
    }
}

/// The one-line status text for a VM.
pub fn format_status(running: bool, pid: Option<u32>) -> (r: String)
    ensures
        r@ == status_text(running, pid),
{
    if running {
        match pid {
            Some(p) => {
                let mut s = String::from_str("Running (PID: ");
                push_decimal(&mut s, p as u64);
                s.append(")");
                s
            },
            None => String::from_str("Running"),
        }
    } else {
        String::from_str("Stopped")
    }
}

/// An error line: `Error: ` and the message.
pub fn format_error(msg: &str) -> (r: String)
    ensures
        r@ == "Error: "@ + msg@,
{
    let mut s = String::from_str("Error: ");
    s.append(msg);
    s
}

/// A success line: a check mark, a space and the message.
pub fn format_success(msg: &str) -> (r: String)
    ensures
        r@ == "\u{2713} "@ + msg@,
{
    let mut s = String::from_str("\u{2713} ");
    s.append(msg);
    s
}

/// The output mode named on the command line: `json`, else human.
pub fn output_mode_from(name: &str) -> (r: OutputMode)
    ensures
        r == (if name@ == "json"@ { OutputMode::Json } else { OutputMode::Human }),
{
    if str_eq(name, "json") {
        OutputMode::Json
    } else {
        OutputMode::Human
    }
}

} // verus!
