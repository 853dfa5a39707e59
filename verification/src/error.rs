//! Errors that remember where they came from.

use vstd::prelude::*;

verus! {

/// An error in words: the name of its type, what it says, and the spans of work in
/// which it came up.
#[derive(Debug)]
pub struct TError {
    pub kind: String,
    pub source: String,
    pub span_trace: String,
}

impl TError {
    /// The error as it is shown.
    pub fn to_string(&self) -> (r: String)
        ensures
            r@ == "["@ + self.kind@ + "] "@ + self.source@ + "\nSpan Trace:\n"@
                + self.span_trace@,
    {
        let mut r = "[".to_owned();
        r.append(self.kind.as_str());
        r.append("] ");
        r.append(self.source.as_str());
        r.append("\nSpan Trace:\n");
        r.append(self.span_trace.as_str());
        r
    }
}

} // verus!
