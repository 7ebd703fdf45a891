//! The failure that a tool reports.

use vstd::prelude::*;

verus! {

/// A tool execution failure: a message for the reader of the tool's result.
#[derive(Clone, Debug, PartialEq, Eq)]
pub struct ToolError(String);

impl View for ToolError {
    type V = Seq<char>;

    closed spec fn view(&self) -> Seq<char> {
        self.0@
    }
}

impl ToolError {
    /// A failure with the given message.
    pub fn new(message: String) -> (r: ToolError)
        ensures
            r@ == message@,
    {
        ToolError(message)
    }

    /// The message, as the failure is displayed.
    pub fn to_string(&self) -> (r: String)
        ensures
            r@ == self@,
    {
        self.0.clone()
    }
}

/// A tool's result, as text either way.
pub open spec fn result_view(result: Result<String, ToolError>) -> Result<Seq<char>, Seq<char>> {
    match result {
        Ok(text) => Ok(text@),
        Err(error) => Err(error@),
    }
}

} // verus!
