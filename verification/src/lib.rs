//! Rendering bridge for a units-aware interpreter engine: a markup model of
//! style-tagged text fragments, a style classifier, an HTML string renderer,
//! an output-node renderer, a color-writer adapter for diagnostic emission,
//! and a session facade around the engine.

use vstd::prelude::*;

pub mod classify;
pub mod engine;
pub mod escape;
pub mod html;
pub mod markup;
pub mod node;
pub mod session;

verus! {

/// Error raised when the host cannot provide a rendering environment
/// (for example, no live document is available).
#[derive(Clone, Debug)]
pub enum KernelError {
    DOMError(String),
}

impl KernelError {
    /// Human-readable description of the error.
    pub fn message(&self) -> (r: String)
        ensures
            r@ == "DOMError: "@ + self->DOMError_0@,
    {
        match self {
            KernelError::DOMError(s) => {
                let mut out = String::new();
                out.append("DOMError: ");
                out.append(s.as_str());
                out
            },
        }
    }
}

/// Outcome of one interpretation call rendered to a flat string,
/// together with the error flag of the run.
#[derive(Clone, Debug)]
pub struct InterpreterOutput {
    pub output: String,
    pub is_error: bool,
}

impl InterpreterOutput {
    pub fn new(output: String, is_error: bool) -> (r: InterpreterOutput)
        ensures
            r.output@ == output@,
            r.is_error == is_error,
    {
        InterpreterOutput { output, is_error }
    }

    pub fn output(&self) -> (r: String)
        ensures
            r@ == self.output@,
    {
        self.output.clone()
    }
}

/// Error flag of an interpretation call, without the rendered output.
#[derive(Clone, Copy, Debug)]
pub struct InterpreterDetails {
    pub is_error: bool,
}

/// Category of a completion suggestion.
#[derive(Clone, Copy, Debug, PartialEq, Eq, Structural)]
pub enum CompletionType {
    Unknown,
    Funtion,
    CommonMetricPrefix,
    Keyword,
    VariableName,
    UnicodeInput,
    FunctionName,
    DimensionName,
    UnitRepresentation,
}

/// A completion suggestion together with its category.
#[derive(Clone, Debug)]
pub struct TypedCompletion {
    pub text: String,
    pub ctype: CompletionType,
}

} // verus!
