use vstd::prelude::*;

verus! {

/// The ways in which handling one job, or the worker as a whole, can fail.
#[derive(Debug, Clone, Copy, PartialEq, Eq, Structural)]
pub enum SqipError {
    /// The message body is not a usable job document.
    MalformedJob,
    /// An image could not be fetched or stored.
    Retrieval,
    /// The placeholder generator failed or returned unusable output.
    Generation,
    /// The queue connection, channel or consumer stream failed.
    TransportFatal,
}

impl SqipError {
    /// Whether this failure concerns a single job only, leaving the worker running.
    pub open spec fn spec_is_job_local(self) -> bool {
        self == SqipError::Retrieval || self == SqipError::Generation
    }

    pub fn is_job_local(&self) -> (r: bool)
        ensures
            r == self.spec_is_job_local(),
    {
        match self {
            SqipError::Retrieval | SqipError::Generation => true,
            _ => false,
        }
    }
}

} // verus!
