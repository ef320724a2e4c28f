use dora_node::adapter::ExternalEventStream;
use dora_node::adapter::ExternalSource;
use dora_node::adapter::MergeError;
use dora_node::event::HostValue;
use dora_node::event::MergedEvent;
use dora_node::event::NativeEvent;
use dora_node::events::Events;
use dora_node::events::NextEvent;
use dora_node::node::Node;

fn input(id: &str, data: Vec<u8>) -> NativeEvent {
    NativeEvent::Input { id: id.to_string(), data }
}

fn host(token: u64) -> HostValue {
    HostValue { token }
}

#[test]
fn merge_preserves_interleaved_arrival_order() {
    let mut events = Events::new().merge_external(ExternalSource {});
    events.push_native(input("image", vec![1]));
    events.push_external(host(10));
    events.push_native(input("image", vec![2]));
    events.push_external(host(11));

    assert_eq!(events.recv(), NextEvent::Event(MergedEvent::Dora(input("image", vec![1]))));
    assert_eq!(events.recv(), NextEvent::Event(MergedEvent::External(host(10))));
    assert_eq!(events.recv(), NextEvent::Event(MergedEvent::Dora(input("image", vec![2]))));
    assert_eq!(events.recv(), NextEvent::Event(MergedEvent::External(host(11))));
    assert_eq!(events.recv(), NextEvent::Pending);
}

#[test]
fn repeated_merge_matches_single_combined_merge() {
    // merging adapter A, then later adapter B
    let mut twice = Events::new().merge_external(ExternalSource {}).merge_external(
        ExternalSource {},
    );
    // merging one combined adapter up front
    let mut once = Events::new().merge_external(ExternalSource {});

    let arrivals = [100u64, 101, 102];
    for t in arrivals {
        twice.push_external(host(t));
        once.push_external(host(t));
    }
    twice.push_native(NativeEvent::Stop);
    once.push_native(NativeEvent::Stop);

    for _ in 0..4 {
        assert_eq!(twice.recv(), once.recv());
    }
    assert_eq!(twice.recv(), NextEvent::Pending);
    assert_eq!(once.recv(), NextEvent::Pending);
}

#[test]
fn flatten_removes_exactly_one_layer() {
    let nested: MergedEvent<MergedEvent<HostValue>> = MergedEvent::External(MergedEvent::External(
        host(7),
    ));
    assert_eq!(nested.flatten(), MergedEvent::External(host(7)));

    let native: MergedEvent<MergedEvent<HostValue>> = MergedEvent::Dora(NativeEvent::Stop);
    assert_eq!(native.flatten(), MergedEvent::Dora(NativeEvent::Stop));

    let rewrapped = MergedEvent::<HostValue>::External(host(8)).rewrap();
    assert_eq!(rewrapped.flatten(), MergedEvent::External(host(8)));
}

#[test]
fn adapter_stream_taken_twice_fails_second_time() {
    let mut adapter = ExternalEventStream::from(ExternalSource {});
    assert!(adapter.take().is_ok());
    assert_eq!(adapter.take(), Err(MergeError::StreamAlreadyTaken));
    assert_eq!(adapter.take(), Err(MergeError::StreamAlreadyTaken));
}

#[test]
fn merge_error_describes_itself() {
    assert_eq!(MergeError::StreamAlreadyTaken.message(), "stream already taken");
}

#[test]
fn adapter_reuse_across_merges_fails() {
    let mut node = Node::new("n".to_string(), String::new(), Vec::new());
    let mut adapter = ExternalEventStream::from(ExternalSource {});
    assert_eq!(node.merge_external_events(&mut adapter), Ok(()));
    assert_eq!(
        node.merge_external_events(&mut adapter),
        Err(MergeError::StreamAlreadyTaken)
    );
}

#[test]
fn drained_external_leaves_other_source_items() {
    let mut events = Events::new().merge_external(ExternalSource {});
    events.push_external(host(1));
    events.close_external();
    assert_eq!(events.recv(), NextEvent::Event(MergedEvent::External(host(1))));

    events.push_native(NativeEvent::Stop);
    assert_eq!(events.recv(), NextEvent::Event(MergedEvent::Dora(NativeEvent::Stop)));
    events.close_native();
    assert_eq!(events.recv(), NextEvent::EndOfStream);
}

#[test]
fn receive_yields_at_most_one_item_per_call() {
    let mut events = Events::new();
    events.push_native(input("a", vec![1]));
    events.push_native(input("b", vec![2]));

    assert_eq!(events.recv(), NextEvent::Event(MergedEvent::Dora(input("a", vec![1]))));
    // the second item was not flushed by the first call
    assert_eq!(events.recv(), NextEvent::Event(MergedEvent::Dora(input("b", vec![2]))));
    assert_eq!(events.recv(), NextEvent::Pending);
}

#[test]
fn end_of_stream_is_idempotent() {
    let mut native_only = Events::new();
    native_only.close_native();
    for _ in 0..5 {
        assert_eq!(native_only.recv(), NextEvent::EndOfStream);
    }

    let mut merged = Events::new().merge_external(ExternalSource {});
    merged.push_external(host(3));
    merged.close_native();
    merged.close_external();
    assert_eq!(merged.recv(), NextEvent::Event(MergedEvent::External(host(3))));
    for _ in 0..5 {
        assert_eq!(merged.recv(), NextEvent::EndOfStream);
    }
}

#[test]
fn merge_while_events_are_pending_keeps_them_first() {
    let mut node = Node::new("n".to_string(), String::new(), Vec::new());
    node.events.push_native(input("queued", vec![9]));
    node.events.push_native(NativeEvent::InputClosed { id: "queued".to_string() });

    let mut adapter = ExternalEventStream::from(ExternalSource {});
    assert_eq!(node.merge_external_events(&mut adapter), Ok(()));
    // an external item injected after the swap must come after the queued events
    node.events.push_external(host(42));

    assert_eq!(node.next(), NextEvent::Event(MergedEvent::Dora(input("queued", vec![9]))));
    assert_eq!(
        node.next(),
        NextEvent::Event(MergedEvent::Dora(NativeEvent::InputClosed {
            id: "queued".to_string()
        }))
    );
    assert_eq!(node.next(), NextEvent::Event(MergedEvent::External(host(42))));
    assert_eq!(node.next(), NextEvent::Pending);
}

#[test]
fn merge_keeps_native_event_representation() {
    // native events are handled the same whether or not a merge ever happened
    let mut plain = Events::new();
    let mut merged = Events::new().merge_external(ExternalSource {});
    plain.push_native(NativeEvent::Error { message: "boom".to_string() });
    merged.push_native(NativeEvent::Error { message: "boom".to_string() });
    assert_eq!(plain.recv(), merged.recv());
}
