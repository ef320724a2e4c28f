use vstd::prelude::*;

use crate::adapter::ExternalEventStream;
use crate::adapter::MergeError;
use crate::events::Events;
use crate::events::MergedQueue;
use crate::events::NextEvent;
use crate::output::DataType;
use crate::output::MetadataValue;
use crate::output::OutputMessage;
use crate::output::metadata_entries;

verus! {

/// The error returned when the underlying channel rejects an output send:
/// the output identifier is not among the node's declared outputs, or the
/// channel to the dataflow runtime is closed.
#[derive(Clone, Copy, Debug, PartialEq, Eq, Structural)]
pub enum SendError {
    UnknownOutput,
    ChannelClosed,
}

impl SendError {
    /// A human-readable description of the error.
    pub fn message(&self) -> (r: &'static str)
        ensures
            *self is UnknownOutput ==> r@ == "failed to send output: unknown output id"@,
            *self is ChannelClosed ==> r@ == "failed to send output: channel closed"@,
    {
        match self {
            SendError::UnknownOutput => "failed to send output: unknown output id",
            SendError::ChannelClosed => "failed to send output: channel closed",
        }
    }
}

/// The node's channel to the dataflow runtime: the node's own identifier,
/// the dataflow descriptor the node was started with, the set of outputs the
/// node declares, whether the channel is still open, and the messages
/// enqueued for delivery to downstream consumers, oldest first.
#[derive(Debug)]
pub struct NodeChannel {
    pub id: String,
    pub descriptor: String,
    pub outputs: Vec<String>,
    pub open: bool,
    pub sent: Vec<OutputMessage>,
}

impl NodeChannel {
    /// Whether the channel accepts a send under the given output identifier:
    /// the identifier is declared by the node.
    pub open spec fn declares(self, id: Seq<char>) -> bool {
        exists|i: int| 0 <= i < self.outputs@.len() && self.outputs@[i]@ == id
    }
}

/// The node handle: the process-scoped owner of the channel to the dataflow
/// runtime and of the currently active event source. All receives go through
/// the active source; all sends go through the channel.
#[derive(Debug)]
pub struct Node {
    pub events: Events,
    pub node: NodeChannel,
}

impl Node {
    /// A freshly constructed node handle: the given identity, descriptor and
    /// declared outputs, an open channel with nothing enqueued, and a
    /// native-only event source with nothing pending.
    ///
    /// The embedding discovers these values from the ambient configuration
    /// before constructing the handle, and reports an initialization error
    /// of its own when that configuration is missing.
    pub fn new(id: String, descriptor: String, outputs: Vec<String>) -> (r: Node)
        ensures
            r.node.id == id,
            r.node.descriptor == descriptor,
            r.node.outputs == outputs,
            r.node.open,
            r.node.sent@.len() == 0,
            r.events@.queued.len() == 0,
            r.events@.native_open,
            r.events@.externals_open == 0,
            !r.events@.merged,
    {
        Node {
            events: Events::new(),
            node: NodeChannel { id, descriptor, outputs, open: true, sent: Vec::new() },
        }
    }

    /// The node's own identifier.
    pub fn id(&self) -> (r: String)
        ensures
            r == self.node.id,
    {
        self.node.id.clone()
    }

    /// The dataflow descriptor this node was started with, read-only.
    pub fn dataflow_descriptor(&self) -> (r: &String)
        ensures
            r == self.node.descriptor,
    {
        &self.node.descriptor
    }

    /// The next event of the active source, or the terminal end-of-stream
    /// signal, or the report that the embedding must wait for an arrival.
    /// Exactly zero or one item per call; the channel is untouched.
    pub fn next(&mut self) -> (r: NextEvent)
        ensures
            final(self).events@ == old(self).events@.recv().0,
            r == old(self).events@.recv().1,
            final(self).node == old(self).node,
    {
        self.events.recv()
    }

    /// Replaces the active event source with its merge with the stream taken
    /// from the given external adapter.
    ///
    /// The source is taken out and an empty placeholder put in its place for
    /// the swap window; this is safe because no receive is in flight — the
    /// handle is exclusively owned. On success the pending items are exactly
    /// those pending before, the adapter is consumed, and one more external
    /// producer is open. If the adapter's stream was already taken the reuse
    /// error is returned and nothing changes — no pending event is lost.
    pub fn merge_external_events(&mut self, external_events: &mut ExternalEventStream) -> (r:
        Result<(), MergeError>)
        requires
            old(self).events@.externals_open < usize::MAX as nat,
        ensures
            old(external_events).available() ==> {
                &&& r is Ok
                &&& !final(external_events).available()
                &&& final(self).events@ == old(self).events@.merge()
                &&& final(self).node == old(self).node
            },
            !old(external_events).available() ==> {
                &&& r == Result::<(), MergeError>::Err(MergeError::StreamAlreadyTaken)
                &&& *final(self) == *old(self)
                &&& *final(external_events) == *old(external_events)
            },
    {
        let stream = match external_events.take() {
            Ok(stream) => stream,
            Err(e) => {
                return Err(e);
            },
        };
        // take out the event source and temporarily replace it with an empty
        // placeholder for the duration of the swap
        let placeholder = Events::Merged(
            MergedQueue { queue: Vec::new(), native_closed: true, externals_open: 0 },
        );
        let mut events = placeholder;
        core::mem::swap(&mut self.events, &mut events);
        // install the merged source
        self.events = events.merge_external(stream);
        Ok(())
    }

    /// Sends one output: enqueues on the channel exactly one message carrying
    /// the given identifier, the payload bytes unaltered, the columnar type
    /// descriptor, and the metadata (an absent metadata argument is an empty
    /// mapping). Fails, changing nothing, with `UnknownOutput` when the
    /// identifier is not among the declared outputs, and with
    /// `ChannelClosed` when the channel is closed.
    pub fn send_output(
        &mut self,
        output_id: String,
        data: Vec<u8>,
        data_type: DataType,
        metadata: Option<Vec<(String, MetadataValue)>>,
    ) -> (r: Result<(), SendError>)
        ensures
            send_contract(*old(self), *final(self), r, output_id@, data@, data_type, metadata),
    {
        let len = data.len();
        self.send_output_slice(output_id, len, data_type, data.as_slice(), metadata)
    }

    /// The slice form of the send path: obtains a destination buffer of the
    /// declared length inside the channel, fills it from the payload — the
    /// write-into-buffer step, byte for byte — and enqueues the message with
    /// its type descriptor and metadata.
    pub fn send_output_slice(
        &mut self,
        output_id: String,
        len: usize,
        data_type: DataType,
        data: &[u8],
        metadata: Option<Vec<(String, MetadataValue)>>,
    ) -> (r: Result<(), SendError>)
        requires
            data@.len() == len,
        ensures
            send_contract(*old(self), *final(self), r, output_id@, data@, data_type, metadata),
    {
        if !self.node.open {
            return Err(SendError::ChannelClosed);
        }
        if !self.declares_output(&output_id) {
            return Err(SendError::UnknownOutput);
        }
        // the destination buffer of the declared length, owned by the channel
        let mut buffer: Vec<u8> = Vec::with_capacity(len);
        let mut i: usize = 0;
        while i < len
            invariant
                i <= len,
                len == data@.len(),
                buffer@ == data@.take(i as int),
            decreases len - i,
        {
            buffer.push(data[i]);
            i = i + 1;
            proof {
                assert(buffer@ =~= data@.take(i as int));
            }
        }
        proof {
            assert(buffer@ =~= data@);
        }
        let entries = match metadata {
            Some(entries) => entries,
            None => Vec::new(),
        };
        let message = OutputMessage { output_id, data: buffer, data_type, metadata: entries };
        self.node.sent.push(message);
        proof {
            assert(self.node.sent@.subrange(0, old(self).node.sent@.len() as int)
                =~= old(self).node.sent@);
            assert(self.node.sent@.last().metadata@ =~= metadata_entries(metadata));
        }
        Ok(())
    }

    /// Whether the given identifier is among the node's declared outputs.
    pub fn declares_output(&self, output_id: &String) -> (r: bool)
        ensures
            r == self.node.declares(output_id@),
    {
        let mut i: usize = 0;
        while i < self.node.outputs.len()
            invariant
                i <= self.node.outputs@.len(),
                forall|j: int| 0 <= j < i ==> self.node.outputs@[j]@ != output_id@,
            decreases self.node.outputs@.len() - i,
        {
            if self.node.outputs[i].eq(output_id) {
                return true;
            }
            i = i + 1;
        }
        false
    }

    /// Removes and returns the messages enqueued on the channel, oldest
    /// first; the embedding delivers them into the dataflow graph.
    pub fn drain_outputs(&mut self) -> (r: Vec<OutputMessage>)
        ensures
            r == old(self).node.sent,
            final(self).node.sent@.len() == 0,
            final(self).node.id == old(self).node.id,
            final(self).node.descriptor == old(self).node.descriptor,
            final(self).node.outputs == old(self).node.outputs,
            final(self).node.open == old(self).node.open,
            final(self).events == old(self).events,
    {
        let mut drained: Vec<OutputMessage> = Vec::new();
        core::mem::swap(&mut self.node.sent, &mut drained);
        drained
    }
}

/// What a send settles to: with an open channel and a declared identifier,
/// exactly one message is appended to the enqueued messages, carrying that
/// identifier, those exact bytes, that type descriptor and those metadata
/// entries, and nothing else of the node changes; otherwise the exact error
/// tells which condition failed and the node is unchanged. The event source
/// is never touched by a send.
pub open spec fn send_contract(
    pre: Node,
    post: Node,
    r: Result<(), SendError>,
    output_id: Seq<char>,
    data: Seq<u8>,
    data_type: DataType,
    metadata: Option<Vec<(String, MetadataValue)>>,
) -> bool {
    &&& (r is Ok <==> pre.node.open && pre.node.declares(output_id))
    &&& (r is Ok ==> {
        &&& post.node.sent@.len() == pre.node.sent@.len() + 1
        &&& post.node.sent@.subrange(0, pre.node.sent@.len() as int) == pre.node.sent@
        &&& post.node.sent@.last().output_id@ == output_id
        &&& post.node.sent@.last().data@ == data
        &&& post.node.sent@.last().data_type == data_type
        &&& post.node.sent@.last().metadata@ == metadata_entries(metadata)
        &&& post.node.id == pre.node.id
        &&& post.node.descriptor == pre.node.descriptor
        &&& post.node.outputs == pre.node.outputs
        &&& post.node.open == pre.node.open
        &&& post.events == pre.events
    })
    &&& (r == Result::<(), SendError>::Err(SendError::ChannelClosed) <==> !pre.node.open)
    &&& (r == Result::<(), SendError>::Err(SendError::UnknownOutput) <==> pre.node.open
        && !pre.node.declares(output_id))
    &&& (r is Err ==> post == pre)
}

} // verus!
