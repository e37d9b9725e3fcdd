//! Transport/dispatch kernel tests: bounded delivery, backpressure
//! isolation, error fan-out, shutdown, and subscriber lag.

use havendrive::connection::{
    BroadcastChannel, CanError, CanSimple, CanSimpleListener, Command, DynamicCanListener,
    ListenerStep, BROADCAST_CAPACITY, LISTENER_QUEUE_CAPACITY, SEND_QUEUE_CAPACITY,
};
use havendrive::messages::{CanMessageTrait, MessageFilter, RawCanMessage};
use havendrive::myactuator_v3_msgs::{MyActuatorCanMessage, SpeedControlCommand};
use havendrive::odrive_msgs::{HeartbeatMessage, OdriveCanMessage};

fn v3_frame(node: u32, cmd: u8, tail: [u8; 4]) -> RawCanMessage {
    RawCanMessage {
        arbitration_id: 0x240 + node,
        data: vec![cmd, 0, 0, 0, tail[0], tail[1], tail[2], tail[3]],
        is_extended_id: false,
    }
}

#[test]
fn default_capacities() {
    assert_eq!(SEND_QUEUE_CAPACITY, 32);
    assert_eq!(BROADCAST_CAPACITY, 256);
    assert_eq!(LISTENER_QUEUE_CAPACITY, 32);
}

#[test]
fn listener_fifo_drops_oldest_on_overflow() {
    // A suspended consumer: publish more matching frames than the FIFO
    // capacity; exactly `capacity` frames stay, always the most recent.
    let mut l = CanSimpleListener::new(MessageFilter::MyActuatorCmd(0xA2), 2, 0);
    for k in 0..5u8 {
        let f = v3_frame(1, 0xA2, [k, 0, 0, 0]);
        l.on_message_received(&f);
    }
    let a: SpeedControlCommand = l.get_message().unwrap();
    assert_eq!(a.speed_raw, 3);
    let b: SpeedControlCommand = l.get_message().unwrap();
    assert_eq!(b.speed_raw, 4);
    assert!(l.get_message::<SpeedControlCommand>().is_none());
}

#[test]
fn listener_ignores_non_matching_frames() {
    let mut l = CanSimpleListener::new(MessageFilter::MyActuatorCmd(0xA2), 4, 0);
    l.on_message_received(&v3_frame(1, 0xA1, [0, 0, 0, 0]));
    assert!(l.get_message::<SpeedControlCommand>().is_none());
}

#[test]
fn publisher_never_blocks_on_slow_consumer() {
    // Backpressure isolation: a listener that never consumes does not
    // stop the read path from publishing; the publish counter keeps
    // increasing past every capacity in the system.
    let mut bus = CanSimple::new(2, 4);
    let _h = bus.register::<HeartbeatMessage>(2);
    for k in 0..100u32 {
        bus.handle_frame_received(RawCanMessage {
            arbitration_id: (3 << 5) | 0x01,
            data: vec![0, 0, 0, 0, 8, 0, (k % 2) as u8],
            is_extended_id: false,
        });
        assert_eq!(bus.published_count(), (k + 1) as u64);
    }
}

#[test]
fn late_subscriber_sees_only_later_frames() {
    let mut bus = CanSimple::new(2, 16);
    for k in 0..3u8 {
        bus.handle_frame_received(v3_frame(1, 0xA2, [k, 0, 0, 0]));
    }
    // Registered after three frames: none of them is delivered.
    let h = bus.register::<SpeedControlCommand>(8);
    assert_eq!(bus.dispatch_step(h), ListenerStep::Idle);
    bus.handle_frame_received(v3_frame(1, 0xA2, [9, 0, 0, 0]));
    assert_eq!(bus.dispatch_step(h), ListenerStep::Delivered);
    let m: SpeedControlCommand = bus.get_message(h).unwrap();
    assert_eq!(m.speed_raw, 9);
    assert!(bus.get_message::<SpeedControlCommand>(h).is_none());
}

#[test]
fn lagged_subscriber_skips_to_oldest_retained() {
    // Broadcast window of 2: a subscriber that sleeps through 5 frames
    // loses the oldest three and resumes at the oldest retained frame.
    let mut bus = CanSimple::new(2, 2);
    let h = bus.register::<SpeedControlCommand>(8);
    for k in 0..5u8 {
        bus.handle_frame_received(v3_frame(1, 0xA2, [k, 0, 0, 0]));
    }
    assert_eq!(bus.dispatch_step(h), ListenerStep::Delivered);
    assert_eq!(bus.dispatch_step(h), ListenerStep::Delivered);
    assert_eq!(bus.dispatch_step(h), ListenerStep::Idle);
    let a: SpeedControlCommand = bus.get_message(h).unwrap();
    let b: SpeedControlCommand = bus.get_message(h).unwrap();
    assert_eq!(a.speed_raw, 3);
    assert_eq!(b.speed_raw, 4);
}

#[test]
fn error_fan_out_reaches_every_listener() {
    // A bus fault lands in every registered listener's error slot, and
    // each listener's next consume step surfaces it.
    let mut bus = CanSimple::new(2, 4);
    let h1 = bus.register::<HeartbeatMessage>(2);
    let h2 = bus.register::<SpeedControlCommand>(2);
    bus.handle_io_error(5);
    assert_eq!(bus.dispatch_step(h1), ListenerStep::Failed(CanError::BusFault(5)));
    assert_eq!(bus.dispatch_step(h2), ListenerStep::Failed(CanError::BusFault(5)));
    // The slot is read destructively: a second step runs normally.
    assert_eq!(bus.dispatch_step(h1), ListenerStep::Idle);
}

#[test]
fn error_slot_is_set_at_most_once() {
    let mut l = CanSimpleListener::new(MessageFilter::OdriveFamily, 2, 0);
    l.on_error(CanError::BusFault(1));
    l.on_error(CanError::BusFault(2));
    let ch = BroadcastChannel::new(2);
    assert_eq!(l.consume_step(&ch), ListenerStep::Failed(CanError::BusFault(1)));
}

#[test]
fn stop_is_observed_and_idempotent() {
    let mut l = CanSimpleListener::new(MessageFilter::OdriveFamily, 2, 0);
    l.stop();
    l.stop();
    let ch = BroadcastChannel::new(2);
    assert_eq!(l.consume_step(&ch), ListenerStep::Stopped);
}

#[test]
fn shutdown_closes_send_queue_and_stops_listeners() {
    let mut bus = CanSimple::new(4, 4);
    let h = bus.register::<HeartbeatMessage>(2);
    assert!(bus.send(&SpeedControlCommand::new(1, 50)).is_ok());
    bus.shutdown();
    // A send after shutdown reports the closed queue.
    assert_eq!(
        bus.send(&SpeedControlCommand::new(1, 50)),
        Err(CanError::ChannelClosed)
    );
    assert!(bus.is_closed());
    assert_eq!(bus.dispatch_step(h), ListenerStep::Stopped);
    // The sentinel follows the frame queued before the shutdown.
    let drained = bus.drain_pending();
    assert_eq!(drained.len(), 2);
    assert!(matches!(drained[0], Command::Send(_)));
    assert!(matches!(drained[1], Command::Shutdown));
}

#[test]
fn send_validates_arbitration_range() {
    let mut bus = CanSimple::new(8, 4);
    // Family-A node 0x40 needs more than the 11-bit standard id.
    let out_of_range = OdriveCanMessage::new(0x40, 0);
    assert_eq!(bus.send(&out_of_range), Err(CanError::InvalidArbitrationId));
    // A command beyond five bits encodes to a value inside the 11-bit
    // range, but overlaps the node bits: invalid for the family.
    let cmd_out_of_range = OdriveCanMessage::new(0, 0x20);
    assert_eq!(bus.send(&cmd_out_of_range), Err(CanError::InvalidArbitrationId));
    let ok = OdriveCanMessage::new(0x3F, 0x1F);
    assert!(bus.send(&ok).is_ok());
    // A family-B node outside the 32-slot window would silently take
    // another node's wire id; the send path rejects it synchronously.
    let b_out_of_window = SpeedControlCommand::new(0x25, 100);
    assert_eq!(bus.send(&b_out_of_window), Err(CanError::InvalidArbitrationId));
    assert!(bus.send(&SpeedControlCommand::new(0x1F, 100)).is_ok());
}

#[test]
fn send_reports_full_queue() {
    let mut bus = CanSimple::new(1, 4);
    assert!(bus.send(&SpeedControlCommand::new(1, 1)).is_ok());
    assert_eq!(
        bus.send(&SpeedControlCommand::new(1, 2)),
        Err(CanError::SendQueueFull)
    );
    // Draining frees the queue again.
    let drained = bus.drain_pending();
    assert_eq!(drained.len(), 1);
    assert!(bus.send(&SpeedControlCommand::new(1, 3)).is_ok());
}

#[test]
fn sent_frames_drain_in_fifo_order() {
    let mut bus = CanSimple::new(8, 4);
    bus.send(&SpeedControlCommand::new(1, 10)).unwrap();
    bus.send(&SpeedControlCommand::new(2, 20)).unwrap();
    let drained = bus.drain_pending();
    let ids: Vec<u32> = drained
        .iter()
        .map(|c| match c {
            Command::Send(f) => f.arbitration_id,
            Command::Shutdown => 0,
        })
        .collect();
    assert_eq!(ids, vec![0x141, 0x142]);
}

#[test]
fn base_family_listener_observes_all_family_frames() {
    let mut bus = CanSimple::new(2, 8);
    let h = bus.register::<MyActuatorCanMessage>(8);
    bus.handle_frame_received(v3_frame(1, 0xA1, [0, 0, 0, 0]));
    bus.handle_frame_received(v3_frame(2, 0x9A, [0, 0, 0, 0]));
    assert_eq!(bus.dispatch_step(h), ListenerStep::Delivered);
    assert_eq!(bus.dispatch_step(h), ListenerStep::Delivered);
    let a: MyActuatorCanMessage = bus.get_message(h).unwrap();
    let b: MyActuatorCanMessage = bus.get_message(h).unwrap();
    assert_eq!(a.node_id(), 1);
    assert_eq!(b.node_id(), 2);
}

#[test]
fn take_error_empties_the_slot() {
    let mut l = CanSimpleListener::new(MessageFilter::OdriveFamily, 2, 0);
    l.on_error(CanError::BusFault(9));
    assert_eq!(l.take_error(), Some(CanError::BusFault(9)));
    assert_eq!(l.take_error(), None);
}
