//! The ways an update can fail.

use vstd::prelude::*;
use vstd::string::*;

verus! {

/// The step of an update that failed.
#[derive(Clone, Copy, Debug, PartialEq, Eq, Structural)]
pub enum Step {
    Read,
    Parse,
    Write,
}

/// A failed update: the step that failed, the path of the manifest it failed
/// on, and, for a text that is not valid TOML, what the parser found wrong.
#[derive(Clone, Debug, PartialEq, Eq)]
pub struct UpdateError {
    pub step: Step,
    pub path: String,
    pub cause: Option<toml_edit::TomlError>,
}

/// The message for a failure of `step` on the manifest at `path`.
pub open spec fn failure_message(step: Step, path: Seq<char>) -> Seq<char> {
    (match step {
        Step::Read => "Failed to read the `"@,
        Step::Parse => "Failed to parse the `"@,
        Step::Write => "Failed to write the `"@,
    }) + path + "` file"@
}

impl UpdateError {
    /// The failure of `step` on the manifest at `path`, with no cause.
    pub fn new(step: Step, path: &str) -> (e: UpdateError)
        ensures
            e.step == step,
            e.path@ == path@,
            e.cause is None,
    {
        UpdateError { step, path: String::from_str(path), cause: None }
    }

    /// The failure to parse the manifest at `path`, with what the parser
    /// reported.
    pub fn parse(path: &str, cause: toml_edit::TomlError) -> (e: UpdateError)
        ensures
            e.step == Step::Parse,
            e.path@ == path@,
            e.cause == Some(cause),
    {
        UpdateError { step: Step::Parse, path: String::from_str(path), cause: Some(cause) }
    }

    /// The message shown to the user, which names the step and the path.
    pub fn message(&self) -> (r: String)
        ensures
            r@ == failure_message(self.step, self.path@),
    {
        let head = match self.step {
            Step::Read => "Failed to read the `",
            Step::Parse => "Failed to parse the `",
            Step::Write => "Failed to write the `",
        };
        let mut r = String::from_str(head);
        r.append(self.path.as_str());
        r.append("` file");
        r
    }
}

/// Turns the outcome of a step into a result: what the step produced, or the
/// failure of that step on the manifest at `path`.
pub fn attribute<T>(outcome: Option<T>, step: Step, path: &str) -> (r: Result<T, UpdateError>)
    ensures
        match outcome {
            Some(value) => r == Ok::<T, UpdateError>(value),
            None => r is Err && r->Err_0.step == step && r->Err_0.path@ == path@
                && r->Err_0.cause is None,
        },
{
    match outcome {
        Some(value) => Ok(value),
        None => Err(UpdateError::new(step, path)),
    }
}

/// Turns the outcome of parsing into a result: what was parsed, or the failure
/// to parse the manifest at `path`, which keeps the parser's report.
pub fn attribute_parse<T>(outcome: Result<T, toml_edit::TomlError>, path: &str) -> (r: Result<
    T,
    UpdateError,
>)
    ensures
        match outcome {
            Ok(value) => r == Ok::<T, UpdateError>(value),
            Err(cause) => r is Err && r->Err_0.step == Step::Parse && r->Err_0.path@ == path@
                && r->Err_0.cause == Some(cause),
        },
{
    match outcome {
        Ok(value) => Ok(value),
        Err(cause) => Err(UpdateError::parse(path, cause)),
    }
}

} // verus!
