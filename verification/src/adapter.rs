use vstd::prelude::*;

verus! {

/// A handle standing for an externally owned asynchronous sequence of opaque
/// host values. The embedding keeps the real stream and pairs it with this
/// handle; the multiplexer only tracks its ownership and lifecycle.
#[derive(Debug, PartialEq, Eq, Structural)]
pub struct ExternalSource {
}

/// The error returned when a caller tries to merge an external stream whose
/// underlying sequence was already taken by an earlier merge.
#[derive(Clone, Copy, Debug, PartialEq, Eq, Structural)]
pub enum MergeError {
    StreamAlreadyTaken,
}

impl MergeError {
    /// A human-readable description of the error.
    pub fn message(&self) -> (r: &'static str)
        ensures
            r@ == "stream already taken"@,
    {
        "stream already taken"
    }
}

/// A one-shot wrapper around an externally owned stream of host values.
///
/// Ownership of the underlying sequence is transferred out exactly once, on
/// the first `take`; afterwards the wrapper stays in a consumed state and
/// every further `take` fails with the reuse error rather than silently
/// handing out an empty stream.
#[derive(Debug)]
pub struct ExternalEventStream {
    pub stream: Option<ExternalSource>,
}

impl ExternalEventStream {
    /// Whether the underlying stream is still here, that is, has not been
    /// taken by a merge yet.
    pub open spec fn available(self) -> bool {
        self.stream is Some
    }

    /// Removes and returns the underlying stream, leaving the wrapper in a
    /// consumed state; fails with the reuse error on every call after the
    /// first, and leaves the wrapper unchanged in that case.
    pub fn take(&mut self) -> (r: Result<ExternalSource, MergeError>)
        ensures
            old(self).available() ==> r is Ok && !final(self).available(),
            !old(self).available() ==> {
                &&& r == Result::<ExternalSource, MergeError>::Err(MergeError::StreamAlreadyTaken)
                &&& *final(self) == *old(self)
            },
    {
        match self.stream.take() {
            Some(source) => Ok(source),
            None => Err(MergeError::StreamAlreadyTaken),
        }
    }
}

impl From<ExternalSource> for ExternalEventStream {
    /// Wraps an externally owned stream as a one-shot adapter whose
    /// underlying sequence is still available.
    fn from(value: ExternalSource) -> (r: ExternalEventStream) {
        ExternalEventStream { stream: Some(value) }
    }
}

impl vstd::std_specs::convert::FromSpecImpl<ExternalSource> for ExternalEventStream {
    open spec fn obeys_from_spec() -> bool {
        true
    }

    open spec fn from_spec(value: ExternalSource) -> ExternalEventStream {
        ExternalEventStream { stream: Some(value) }
    }
}

} // verus!
