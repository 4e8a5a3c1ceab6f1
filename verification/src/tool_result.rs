//! The outcome of one tool call, as handed back to the agent.

use vstd::prelude::*;
use crate::text::opt_view;

verus! {

/// Result of a tool call: success flag, output text, optional error text.
#[derive(Debug, Clone)]
pub struct ToolResult {
    pub success: bool,
    pub output: String,
    pub error: Option<String>,
}

pub struct ToolResultView {
    pub success: bool,
    pub output: Seq<char>,
    pub error: Option<Seq<char>>,
}

impl View for ToolResult {
    type V = ToolResultView;

    open spec fn view(&self) -> ToolResultView {
        ToolResultView { success: self.success, output: self.output@, error: opt_view(self.error) }
    }
}

/// A successful result with output `out`.
pub open spec fn ok_view(out: Seq<char>) -> ToolResultView {
    ToolResultView { success: true, output: out, error: None }
}

/// A failed result with empty output and error `err`.
pub open spec fn fail_view(err: Seq<char>) -> ToolResultView {
    ToolResultView { success: false, output: Seq::empty(), error: Some(err) }
}

impl ToolResult {
    /// Success with `output`.
    pub fn ok(output: String) -> (r: Self)
        ensures
            r@ == ok_view(output@),
    {
        ToolResult { success: true, output, error: None }
    }

    /// Failure with `error` and no output.
    pub fn fail(error: String) -> (r: Self)
        ensures
            r@ == fail_view(error@),
    {
        let r = ToolResult { success: false, output: String::new(), error: Some(error) };
        assert(r@.output =~= Seq::<char>::empty());
        r
    }
}

} // verus!
