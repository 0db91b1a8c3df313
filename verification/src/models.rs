//! Caller-facing data: the validated request, the success and error results.

use vstd::prelude::*;

verus! {

/// Error reported by input validation: the caller's value was empty.
#[derive(Debug, Clone, PartialEq, Eq, Structural)]
pub enum ValidationError {
    EmptyValue,
}

impl ValidationError {
    /// The human-readable description of the error.
    pub fn message(&self) -> (r: String)
        ensures
            r@ == "値が空です"@,
    {
        "値が空です".to_owned()
    }
}

/// The step count used when the caller does not give one.
pub fn default_steps() -> (r: u32)
    ensures
        r == 6,
{
    6
}

/// An image-generation request: a text prompt and a step count.
#[derive(Debug, Clone)]
pub struct InputData {
    pub prompt: String,
    pub steps: u32,
}

impl InputData {
    /// Builds a request, filling in the default step count when none is given.
    pub fn new(prompt: String, steps: Option<u32>) -> (r: InputData)
        ensures
            r.prompt@ == prompt@,
            r.steps == (match steps {
                Some(s) => s,
                None => 6u32,
            }),
    {
        let s: u32 = match steps {
            Some(s) => s,
            None => default_steps(),
        };
        InputData { prompt, steps: s }
    }

    /// Accepts every request whose prompt is non-empty; rejects exactly the
    /// empty prompt, whatever the step count.
    pub fn validate(&self) -> (r: Result<(), ValidationError>)
        ensures
            r is Ok <==> self.prompt@.len() > 0,
            r is Err ==> r == Result::<(), ValidationError>::Err(ValidationError::EmptyValue),
    {
        if self.prompt.as_str().is_empty() {
            Err(ValidationError::EmptyValue)
        } else {
            Ok(())
        }
    }
}

/// A successful generation result: raw image bytes.
#[derive(Debug, Clone)]
pub struct OutputData {
    pub result: Vec<u8>,
}

impl OutputData {
    pub fn new(result: Vec<u8>) -> (r: OutputData)
        ensures
            r.result@ == result@,
    {
        OutputData { result }
    }
}

/// A failed generation result: a human-readable message.
#[derive(Debug, Clone)]
pub struct OutputErrorData {
    pub error_message: String,
}

impl OutputErrorData {
    pub fn new(error_message: String) -> (r: OutputErrorData)
        ensures
            r.error_message@ == error_message@,
    {
        OutputErrorData { error_message }
    }
}

} // verus!
