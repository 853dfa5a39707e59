//! The parts of a pipeline's configuration that the tool reads.

use vstd::prelude::*;

verus! {

/// One step of a job. `source` is the step as it was configured: it travels
/// with the step and is never looked into.
#[derive(Debug)]
pub struct StepConfig<S> {
    pub name: String,
    pub command: String,
    pub source: S,
}

/// A job: the image that its sandbox is made of, and its steps in order. The image
/// is handed on as it was configured.
#[derive(Debug)]
pub struct JobConfig<I, S> {
    pub name: String,
    pub image: I,
    pub steps: Vec<StepConfig<S>>,
}

/// Where the repository under test is published.
#[derive(Debug)]
pub struct GitRemote {
    pub url: String,
    pub branch: String,
}

/// The identifier of a debug session, as the number that a UUID is.
pub type DebugSessionId = u128;

} // verus!
