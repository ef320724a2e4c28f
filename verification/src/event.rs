use vstd::prelude::*;

verus! {

/// An opaque host-side value carried through the merge untouched.
///
/// The multiplexer never looks inside an externally supplied item; the
/// embedding keeps the real host object and hands the multiplexer a token
/// standing for it.
#[derive(Clone, Copy, Debug, PartialEq, Eq, Structural)]
pub struct HostValue {
    pub token: u64,
}

/// An event produced by the dataflow runtime itself: an input arrival, an
/// input-closed notification, a stop signal, or an upstream error.
#[derive(Clone, Debug, PartialEq, Eq)]
pub enum NativeEvent {
    Input { id: String, data: Vec<u8> },
    InputClosed { id: String },
    Stop,
    Error { message: String },
}

/// One item of a merged stream, tagged by the source that produced it:
/// the dataflow runtime, or an externally supplied stream.
#[derive(Clone, Debug, PartialEq, Eq)]
pub enum MergedEvent<T> {
    Dora(NativeEvent),
    External(T),
}

impl<T> MergedEvent<MergedEvent<T>> {
    /// What `flatten` returns: native events pass through, and exactly one
    /// layer of external wrapping is removed.
    pub open spec fn flatten_spec(self) -> MergedEvent<T> {
        match self {
            MergedEvent::Dora(e) => MergedEvent::Dora(e),
            MergedEvent::External(inner) => inner,
        }
    }

    /// Removes exactly one layer of external wrapping, so that the item shape
    /// a consumer observes stays flat no matter how many merges produced the
    /// stream. Total: every nested item flattens.
    pub fn flatten(self) -> (r: MergedEvent<T>)
        ensures
            r == self.flatten_spec(),
    {
        match self {
            MergedEvent::Dora(e) => MergedEvent::Dora(e),
            MergedEvent::External(inner) => inner,
        }
    }
}

impl<T> MergedEvent<T> {
    /// What `rewrap` returns: the one-layer wrapping a re-merge applies to an
    /// item of the existing merged stream before the flattening stage.
    pub open spec fn rewrap_spec(self) -> MergedEvent<MergedEvent<T>> {
        match self {
            MergedEvent::Dora(e) => MergedEvent::Dora(e),
            MergedEvent::External(x) => MergedEvent::External(MergedEvent::External(x)),
        }
    }

    /// Wraps an item of an already-merged stream for composition with a new
    /// external stream: native events stay native, and an external item gains
    /// exactly one layer of wrapping, which the flattening stage removes.
    pub fn rewrap(self) -> (r: MergedEvent<MergedEvent<T>>)
        ensures
            r == self.rewrap_spec(),
    {
        match self {
            MergedEvent::Dora(e) => MergedEvent::Dora(e),
            MergedEvent::External(x) => MergedEvent::External(MergedEvent::External(x)),
        }
    }
}

/// The wrapping construction guarantees exactly one layer of nesting, so the
/// flattening stage undoes it exactly: an item of an already-merged stream
/// passes a further merge unchanged.
pub proof fn lemma_flatten_rewrap_identity<T>(e: MergedEvent<T>)
    ensures
        e.rewrap_spec().flatten_spec() == e,
{
}

/// A new external item enters a composed stream under one layer of wrapping,
/// and the flattening stage hands it on as a plainly tagged external item:
/// repeated merges never produce a nested item shape.
pub proof fn lemma_flatten_new_external<T>(x: T)
    ensures
        MergedEvent::External(MergedEvent::External(x)).flatten_spec()
            == MergedEvent::<T>::External(x),
{
}

} // verus!
