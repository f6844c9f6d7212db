//! The request for the version of the toolkit.

use vstd::prelude::*;

verus! {

/// The request: it holds nothing.
#[derive(Clone, Copy, Debug, PartialEq, Eq, Structural)]
pub struct Input {}

/// The answer.
#[derive(Clone, Debug, PartialEq, Eq)]
pub struct Output {
    /// The version of the toolkit.
    pub package_version: String,
    /// The hash of the commit that the toolkit was built from.
    pub last_commit_hash: String,
}

/// This request cannot fail: the error has no values that matter.
#[derive(Clone, Copy, Debug, PartialEq, Eq, Structural)]
pub struct Error;

/// Answers the request.
pub struct Handler;

impl Handler {
    /// The request needs no preparation.
    pub fn pre_process(input: Input) -> (prepared: Result<Input, Error>)
        ensures
            prepared == Ok::<Input, Error>(input),
    {
        Ok(input)
    }

    /// The answer, from what the build knows of itself.
    pub fn handle(_input: &Input, package_version: String, last_commit_hash: String) -> (output:
        Result<Output, Error>)
        ensures
            output == Ok::<Output, Error>(Output { package_version, last_commit_hash }),
    {
        Ok(Output { package_version, last_commit_hash })
    }

    /// The answer is given as it is.
    pub fn post_process(_input: &Input, output: Output) -> (processed: Result<Output, Error>)
        ensures
            processed == Ok::<Output, Error>(output),
    {
        Ok(output)
    }
}

} // verus!
