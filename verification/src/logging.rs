//! The report written when a call into the windowing layer fails.
use vstd::prelude::*;

verus! {

/// The first line of the report: which call failed, and the error.
pub open spec fn failure_line(method_name: Seq<char>, err: Seq<char>) -> Seq<char> {
    method_name + "() failed: "@ + err
}

/// A line naming one cause of the error.
pub open spec fn cause_line(cause: Seq<char>) -> Seq<char> {
    "  Caused by: "@ + cause
}

/// The lines reporting that the call `method_name` failed with `err`, whose
/// chain of underlying causes is `causes` (the error itself not included):
/// first the failure, then one line per cause, in order.
pub fn log_error(method_name: &str, err: &str, causes: &Vec<String>) -> (lines: Vec<String>)
    ensures
        lines@.len() == causes@.len() + 1,
        lines@[0]@ == failure_line(method_name@, err@),
        forall|k: int| 0 <= k < causes@.len() ==> #[trigger] lines@[k + 1]@ == cause_line(causes@[k]@),
{
    let mut first = method_name.to_owned();
    first.append("() failed: ");
    first.append(err);
    let mut lines: Vec<String> = Vec::new();
    lines.push(first);
    let mut k: usize = 0;
    while k < causes.len()
        invariant
            k <= causes@.len(),
            lines@.len() == k + 1,
            lines@[0]@ == failure_line(method_name@, err@),
            forall|k2: int| 0 <= k2 < k ==> #[trigger] lines@[k2 + 1]@ == cause_line(causes@[k2]@),
        decreases causes@.len() - k,
    {
        let mut line = "  Caused by: ".to_owned();
        line.append(causes[k].as_str());
        lines.push(line);
        k = k + 1;
    }
    lines
}

} // verus!
