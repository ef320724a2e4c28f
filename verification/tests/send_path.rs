use dora_node::node::Node;
use dora_node::node::SendError;
use dora_node::output::DataType;
use dora_node::output::MetadataValue;

fn temperature_node() -> Node {
    Node::new(
        "sensor".to_string(),
        "nodes:\n  - id: sensor\n".to_string(),
        vec!["temperature".to_string(), "status".to_string()],
    )
}

#[test]
fn send_round_trip_keeps_bytes_type_and_metadata() {
    let mut node = temperature_node();
    let metadata = vec![(
        "unit".to_string(),
        MetadataValue::Text("celsius".to_string()),
    )];
    let sent = node.send_output(
        "temperature".to_string(),
        vec![0x01, 0x02, 0x03, 0x04],
        DataType::Float32,
        Some(metadata),
    );
    assert_eq!(sent, Ok(()));

    // exactly one enqueued message, with nothing altered and nothing lost
    assert_eq!(node.node.sent.len(), 1);
    let message = &node.node.sent[0];
    assert_eq!(message.output_id, "temperature".to_string());
    assert_eq!(message.data, vec![0x01, 0x02, 0x03, 0x04]);
    assert_eq!(message.data_type, DataType::Float32);
    assert_eq!(message.metadata.len(), 1);
    assert_eq!(message.metadata[0].0, "unit".to_string());
    assert_eq!(
        message.metadata[0].1,
        MetadataValue::Text("celsius".to_string())
    );
}

#[test]
fn absent_metadata_is_an_empty_mapping() {
    let mut node = temperature_node();
    assert_eq!(
        node.send_output("status".to_string(), vec![1], DataType::UInt8, None),
        Ok(())
    );
    assert_eq!(node.node.sent.len(), 1);
    assert!(node.node.sent[0].metadata.is_empty());
}

#[test]
fn send_to_undeclared_output_fails() {
    let mut node = temperature_node();
    let sent = node.send_output("humidity".to_string(), vec![5], DataType::UInt8, None);
    assert_eq!(sent, Err(SendError::UnknownOutput));
    assert!(node.node.sent.is_empty());
}

#[test]
fn send_on_closed_channel_fails() {
    let mut node = temperature_node();
    node.node.open = false;
    let sent = node.send_output("temperature".to_string(), vec![5], DataType::UInt8, None);
    assert_eq!(sent, Err(SendError::ChannelClosed));
    assert!(node.node.sent.is_empty());
}

#[test]
fn send_output_slice_copies_the_declared_length() {
    let mut node = temperature_node();
    let payload: [u8; 3] = [7, 8, 9];
    let sent = node.send_output_slice(
        "status".to_string(),
        payload.len(),
        DataType::Binary,
        &payload,
        None,
    );
    assert_eq!(sent, Ok(()));
    assert_eq!(node.node.sent[0].data, vec![7, 8, 9]);
    assert_eq!(node.node.sent[0].data_type, DataType::Binary);
}

#[test]
fn sends_queue_in_order_and_drain() {
    let mut node = temperature_node();
    assert_eq!(
        node.send_output("temperature".to_string(), vec![1], DataType::UInt8, None),
        Ok(())
    );
    assert_eq!(
        node.send_output("status".to_string(), vec![2], DataType::UInt8, None),
        Ok(())
    );
    let drained = node.drain_outputs();
    assert_eq!(drained.len(), 2);
    assert_eq!(drained[0].output_id, "temperature".to_string());
    assert_eq!(drained[1].output_id, "status".to_string());
    assert!(node.node.sent.is_empty());
}

#[test]
fn send_errors_describe_themselves() {
    assert_eq!(
        SendError::UnknownOutput.message(),
        "failed to send output: unknown output id"
    );
    assert_eq!(
        SendError::ChannelClosed.message(),
        "failed to send output: channel closed"
    );
}

#[test]
fn identity_and_descriptor_are_exposed() {
    let node = temperature_node();
    assert_eq!(node.id(), "sensor".to_string());
    assert_eq!(
        node.dataflow_descriptor(),
        &"nodes:\n  - id: sensor\n".to_string()
    );
}

#[test]
fn send_does_not_touch_the_receive_path() {
    let mut node = temperature_node();
    node.events.push_native(dora_node::event::NativeEvent::Stop);
    assert_eq!(
        node.send_output("status".to_string(), vec![0], DataType::UInt8, None),
        Ok(())
    );
    assert_eq!(
        node.next(),
        dora_node::events::NextEvent::Event(dora_node::event::MergedEvent::Dora(
            dora_node::event::NativeEvent::Stop
        ))
    );
}
