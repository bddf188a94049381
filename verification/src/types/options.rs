//! Settings of the evaluator.

use vstd::prelude::*;

verus! {

/// How deep procedure calls may nest unless the caller says otherwise:
/// as deep as can be counted, which no run reaches. The language sets no
/// limit of its own; a caller who wants runaway recursion to end in a
/// runtime error sets a smaller one.
pub const DEFAULT_CALL_DEPTH: usize = usize::MAX;

/// Settings of the evaluator.
#[derive(Clone, Copy, Debug, PartialEq, Eq)]
pub struct Options {
    /// Whether the run is a debugging run.
    pub debug: bool,
    /// How deep procedure calls may nest before evaluation fails.
    pub call_depth: usize,
}

impl Options {
    /// The settings of a debugging run.
    pub fn debug() -> (options: Options)
        ensures
            options == (Options { debug: true, call_depth: DEFAULT_CALL_DEPTH }),
    {
        Options { debug: true, call_depth: DEFAULT_CALL_DEPTH }
    }

    /// The settings of an ordinary run.
    pub fn default() -> (options: Options)
        ensures
            options == (Options { debug: false, call_depth: DEFAULT_CALL_DEPTH }),
    {
        Options { debug: false, call_depth: DEFAULT_CALL_DEPTH }
    }
}

} // verus!
