use vstd::prelude::*;

use crate::adapter::ExternalSource;
use crate::event::HostValue;
use crate::event::MergedEvent;
use crate::event::NativeEvent;

verus! {

/// What one receive decision yields: one merged item in arrival order, the
/// terminal end-of-stream signal, or the report that nothing has arrived yet
/// while some producer is still open (the embedding then blocks on the
/// underlying sources and delivers the next arrival before asking again).
#[derive(Clone, Debug, PartialEq, Eq)]
pub enum NextEvent {
    Event(MergedEvent<HostValue>),
    EndOfStream,
    Pending,
}

/// The node's native event source: events that have arrived from the
/// dataflow runtime and are not yet consumed, in arrival order, and whether
/// the runtime has closed the stream.
#[derive(Debug)]
pub struct EventQueue {
    pub queue: Vec<NativeEvent>,
    pub closed: bool,
}

/// A merged event source: the items that have arrived across all merged
/// producers and are not yet consumed, in arrival order and tagged by
/// origin, plus the liveness of each side — whether the native stream is
/// still open, and how many merged external streams are still open.
#[derive(Debug)]
pub struct MergedQueue {
    pub queue: Vec<MergedEvent<HostValue>>,
    pub native_closed: bool,
    pub externals_open: usize,
}

/// The node's active event source: either the native stream alone, or a
/// previously merged combination of the native stream with one or more
/// external streams, already flattened to a single polymorphic stream.
#[derive(Debug)]
pub enum Events {
    Dora(EventQueue),
    Merged(MergedQueue),
}

/// The mathematical state of an event source: the pending items in arrival
/// order, uniformly tagged by origin, and the liveness of the producers.
#[verifier::ext_equal]
pub ghost struct EventsModel {
    pub queued: Seq<MergedEvent<HostValue>>,
    pub native_open: bool,
    pub externals_open: nat,
    pub merged: bool,
}

impl EventsModel {
    /// All producers are exhausted and every arrived item was consumed: the
    /// terminal state, from which only end-of-stream can be observed.
    pub open spec fn exhausted(self) -> bool {
        &&& !self.native_open
        &&& self.externals_open == 0
        &&& self.queued.len() == 0
    }

    /// One native event arrives: it joins the pending items, tagged as
    /// coming from the dataflow runtime.
    pub open spec fn push_native(self, e: NativeEvent) -> EventsModel {
        EventsModel {
            queued: self.queued.push(MergedEvent::Dora(e)),
            native_open: self.native_open,
            externals_open: self.externals_open,
            merged: self.merged,
        }
    }

    /// One external item arrives: it joins the pending items under exactly
    /// one layer of external tagging, however many merges built the source.
    pub open spec fn push_external(self, x: HostValue) -> EventsModel {
        EventsModel {
            queued: self.queued.push(MergedEvent::External(x)),
            native_open: self.native_open,
            externals_open: self.externals_open,
            merged: self.merged,
        }
    }

    /// The dataflow runtime closes the native stream.
    pub open spec fn close_native(self) -> EventsModel {
        EventsModel {
            queued: self.queued,
            native_open: false,
            externals_open: self.externals_open,
            merged: self.merged,
        }
    }

    /// One merged external stream is exhausted.
    pub open spec fn close_external(self) -> EventsModel {
        EventsModel {
            queued: self.queued,
            native_open: self.native_open,
            externals_open: (self.externals_open - 1) as nat,
            merged: self.merged,
        }
    }

    /// A merge with one further external stream: the pending items are kept
    /// as they are — no item is dropped, duplicated or reordered by the
    /// swap — and one more external producer is open.
    pub open spec fn merge(self) -> EventsModel {
        EventsModel {
            queued: self.queued,
            native_open: self.native_open,
            externals_open: self.externals_open + 1,
            merged: true,
        }
    }

    /// One receive decision: the first pending item if any item has arrived,
    /// the terminal signal if all producers are exhausted, and otherwise the
    /// report that the caller must wait for an arrival. Exactly one item
    /// leaves the pending sequence when an item is yielded; the state is
    /// untouched in the two other cases.
    pub open spec fn recv(self) -> (EventsModel, NextEvent) {
        if self.queued.len() > 0 {
            (
                EventsModel {
                    queued: self.queued.drop_first(),
                    native_open: self.native_open,
                    externals_open: self.externals_open,
                    merged: self.merged,
                },
                NextEvent::Event(self.queued[0]),
            )
        } else if self.exhausted() {
            (self, NextEvent::EndOfStream)
        } else {
            (self, NextEvent::Pending)
        }
    }
}

impl View for Events {
    type V = EventsModel;

    open spec fn view(&self) -> EventsModel {
        match self {
            Events::Dora(q) => EventsModel {
                queued: q.queue@.map(|i: int, e: NativeEvent| MergedEvent::Dora(e)),
                native_open: !q.closed,
                externals_open: 0,
                merged: false,
            },
            Events::Merged(m) => EventsModel {
                queued: m.queue@,
                native_open: !m.native_closed,
                externals_open: m.externals_open as nat,
                merged: true,
            },
        }
    }
}

impl Events {
    /// The native-only event source a node starts with: no item has arrived
    /// yet, the native stream is open, and nothing was merged.
    pub fn new() -> (r: Events)
        ensures
            r@.queued.len() == 0,
            r@.native_open,
            r@.externals_open == 0,
            !r@.merged,
    {
        Events::Dora(EventQueue { queue: Vec::new(), closed: false })
    }

    /// The receive decision of the synchronous bridge: yields the first
    /// arrived item, or the terminal end-of-stream signal, or asks the
    /// embedding to wait for an arrival — never more than one item per call.
    pub fn recv(&mut self) -> (r: NextEvent)
        ensures
            final(self)@ == old(self)@.recv().0,
            r == old(self)@.recv().1,
            old(self)@.exhausted() ==> r == NextEvent::EndOfStream && final(self)@ == old(self)@,
    {
        match self {
            Events::Dora(q) => {
                if q.queue.len() > 0 {
                    let e = q.queue.remove(0);
                    proof {
                        assert(q.queue@.map(|i: int, ev: NativeEvent| MergedEvent::<HostValue>::Dora(ev))
                            =~= old(self)@.queued.drop_first());
                    }
                    NextEvent::Event(MergedEvent::Dora(e))
                } else if q.closed {
                    NextEvent::EndOfStream
                } else {
                    NextEvent::Pending
                }
            },
            Events::Merged(m) => {
                if m.queue.len() > 0 {
                    let e = m.queue.remove(0);
                    proof {
                        assert(m.queue@ =~= old(self)@.queued.drop_first());
                    }
                    NextEvent::Event(e)
                } else if m.native_closed && m.externals_open == 0 {
                    NextEvent::EndOfStream
                } else {
                    NextEvent::Pending
                }
            },
        }
    }

    /// Delivers one arrived native event into the source.
    pub fn push_native(&mut self, e: NativeEvent)
        requires
            old(self)@.native_open,
        ensures
            final(self)@ == old(self)@.push_native(e),
    {
        match self {
            Events::Dora(q) => {
                q.queue.push(e);
                proof {
                    assert(q.queue@.map(|i: int, ev: NativeEvent| MergedEvent::<HostValue>::Dora(ev))
                        =~= old(self)@.queued.push(MergedEvent::Dora(e)));
                }
            },
            Events::Merged(m) => {
                m.queue.push(MergedEvent::Dora(e));
            },
        }
    }

    /// Delivers one arrived external item into a merged source.
    pub fn push_external(&mut self, x: HostValue)
        requires
            old(self)@.externals_open > 0,
        ensures
            final(self)@ == old(self)@.push_external(x),
    {
        match self {
            Events::Dora(_) => {
                proof {
                    assert(false);
                }
            },
            Events::Merged(m) => {
                m.queue.push(MergedEvent::External(x));
            },
        }
    }

    /// Records that the dataflow runtime closed the native stream; the
    /// pending items stay consumable.
    pub fn close_native(&mut self)
        requires
            old(self)@.native_open,
        ensures
            final(self)@ == old(self)@.close_native(),
    {
        match self {
            Events::Dora(q) => {
                q.closed = true;
            },
            Events::Merged(m) => {
                m.native_closed = true;
            },
        }
    }

    /// Records that one merged external stream is exhausted; the pending
    /// items stay consumable.
    pub fn close_external(&mut self)
        requires
            old(self)@.externals_open > 0,
        ensures
            final(self)@ == old(self)@.close_external(),
    {
        match self {
            Events::Dora(_) => {
                proof {
                    assert(false);
                }
            },
            Events::Merged(m) => {
                m.externals_open = m.externals_open - 1;
            },
        }
    }

    /// Combines this source with one further external stream into a merged
    /// source whose items stay uniformly tagged, in arrival order.
    ///
    /// A native source is lifted item by item under the native tag. An
    /// already-merged source passes the explicit flattening stage: each item
    /// is rewrapped the way composition nests it and flattened back, so the
    /// observable item shape stays flat however many merges are applied, and
    /// no pending item is lost.
    pub fn merge_external(self, external: ExternalSource) -> (r: Events)
        requires
            self@.externals_open < usize::MAX as nat,
        ensures
            r@ == self@.merge(),
    {
        let ExternalSource {} = external;
        let ghost prior = self@;
        match self {
            Events::Dora(mut q) => {
                let ghost orig = q.queue@;
                let mut out: Vec<MergedEvent<HostValue>> = Vec::new();
                while q.queue.len() > 0
                    invariant
                        out@.len() + q.queue@.len() == orig.len(),
                        q.queue@ == orig.subrange(out@.len() as int, orig.len() as int),
                        out@ == orig.subrange(0, out@.len() as int).map(
                            |i: int, e: NativeEvent| MergedEvent::<HostValue>::Dora(e),
                        ),
                        q.closed == !prior.native_open,
                    decreases q.queue@.len(),
                {
                    let e = q.queue.remove(0);
                    out.push(MergedEvent::Dora(e));
                    proof {
                        assert(q.queue@ =~= orig.subrange(out@.len() as int, orig.len() as int));
                        assert(out@ =~= orig.subrange(0, out@.len() as int).map(
                            |i: int, e: NativeEvent| MergedEvent::<HostValue>::Dora(e),
                        ));
                    }
                }
                let r = Events::Merged(
                    MergedQueue { queue: out, native_closed: q.closed, externals_open: 1 },
                );
                proof {
                    assert(orig.subrange(0, orig.len() as int) =~= orig);
                    assert(r@.queued =~= prior.queued);
                    assert(r@ =~= prior.merge());
                }
                r
            },
            Events::Merged(mut m) => {
                let ghost orig = m.queue@;
                let mut out: Vec<MergedEvent<HostValue>> = Vec::new();
                while m.queue.len() > 0
                    invariant
                        out@.len() + m.queue@.len() == orig.len(),
                        m.queue@ == orig.subrange(out@.len() as int, orig.len() as int),
                        out@ == orig.subrange(0, out@.len() as int),
                        m.externals_open as nat == prior.externals_open,
                        m.externals_open < usize::MAX,
                        m.native_closed == !prior.native_open,
                    decreases m.queue@.len(),
                {
                    let e = m.queue.remove(0);
                    out.push(e.rewrap().flatten());
                    proof {
                        assert(m.queue@ =~= orig.subrange(out@.len() as int, orig.len() as int));
                        assert(out@ =~= orig.subrange(0, out@.len() as int));
                    }
                }
                let r = Events::Merged(
                    MergedQueue {
                        queue: out,
                        native_closed: m.native_closed,
                        externals_open: m.externals_open + 1,
                    },
                );
                proof {
                    assert(orig.subrange(0, orig.len() as int) =~= orig);
                    assert(r@.queued =~= prior.queued);
                    assert(r@ =~= prior.merge());
                }
                r
            },
        }
    }
}

} // verus!
