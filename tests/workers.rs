use std::sync::mpsc;
use std::time::Duration;

use serial_midi_bridge::lifecycle::{Lifecycle, Phase};
use serial_midi_bridge::line_source::{LineAction, LineEvent, LineSource, LineState};
use serial_midi_bridge::ports::{select_usb_ports, DetectedPort, PortInfo, PortKind, UsbInfo};
use serial_midi_bridge::sound::{NoteMessage, SoundAction, SoundEvent, SoundState, SoundWorker};
use serial_midi_bridge::translate::Policy;

fn note(note: u8, velocity: u8) -> NoteMessage {
    NoteMessage { status: 0x90, note, velocity }
}

fn streaming_worker(policy: Policy) -> SoundWorker {
    let mut worker = SoundWorker::new(policy);
    assert_eq!(worker.step(SoundEvent::PortsListed { count: 2 }), SoundAction::ConnectFirstPort);
    assert_eq!(worker.step(SoundEvent::Connected), SoundAction::Receive);
    assert_eq!(worker.state, SoundState::Streaming);
    worker
}

fn fields(values: &[&str]) -> Vec<String> {
    values.iter().map(|v| v.to_string()).collect()
}

#[test]
fn note_message_bytes() {
    assert_eq!(note(60, 63).to_bytes(), [0x90, 60, 63]);
}

#[test]
fn sound_worker_ends_without_ports() {
    let mut worker = SoundWorker::new(Policy::ProportionalScale);
    assert_eq!(worker.step(SoundEvent::PortsListed { count: 0 }), SoundAction::Finish);
    assert!(worker.is_finished());
}

#[test]
fn sound_worker_ends_when_output_or_connection_fails() {
    let mut worker = SoundWorker::new(Policy::ProportionalScale);
    assert_eq!(worker.step(SoundEvent::OutputUnavailable), SoundAction::Finish);
    assert!(worker.is_finished());
    let mut worker = SoundWorker::new(Policy::ProportionalScale);
    worker.step(SoundEvent::PortsListed { count: 1 });
    assert_eq!(worker.step(SoundEvent::ConnectFailed), SoundAction::Finish);
    assert!(worker.is_finished());
}

#[test]
fn sound_worker_plays_each_record() {
    let mut worker = streaming_worker(Policy::ProportionalScale);
    let action = worker.step(SoundEvent::Received(fields(&["500", "250"])));
    assert_eq!(action, SoundAction::Send(note(60, 63), note(67, 31)));
    let mut worker = streaming_worker(Policy::DirectClamp);
    let action = worker.step(SoundEvent::Received(fields(&["200", "90"])));
    assert_eq!(action, SoundAction::Send(note(60, 127), note(67, 90)));
    assert!(!worker.is_finished());
}

#[test]
fn start_then_stop_silences_once_and_ends() {
    let mut lifecycle: Lifecycle<mpsc::Sender<Vec<String>>> = Lifecycle::new();
    let (tx, rx) = mpsc::channel::<Vec<String>>();
    assert!(lifecycle.start(tx).is_none());
    let mut worker = streaming_worker(Policy::ProportionalScale);
    let mut source = LineSource::new();
    assert!(matches!(source.step(LineEvent::Opened), LineAction::Poll));

    drop(lifecycle.stop());
    assert!(lifecycle.shutdown_requested());

    let mut actions = Vec::new();
    loop {
        let event = match rx.recv() {
            Ok(record) => SoundEvent::Received(record),
            Err(_) => SoundEvent::QueueClosed,
        };
        let action = worker.step(event);
        actions.push(action);
        if worker.is_finished() {
            break;
        }
    }
    assert_eq!(actions, vec![SoundAction::SendAndFinish(note(60, 0), note(67, 0))]);
    assert_eq!(worker.step(SoundEvent::QueueClosed), SoundAction::Finish);

    let action = source.step(LineEvent::Polled { stop_requested: lifecycle.shutdown_requested() });
    assert!(matches!(action, LineAction::Finish));
    assert!(matches!(source.step(LineEvent::LineRead("1\t2\n".to_string())), LineAction::Finish));
    assert_eq!(source.state, LineState::Finished);
}

#[test]
fn records_arrive_in_order() {
    let (tx, rx) = mpsc::channel::<Vec<String>>();
    let mut source = LineSource::new();
    source.step(LineEvent::Opened);
    for line in ["100\t0\n", "200\t1000\n", "300\t500\n"] {
        source.step(LineEvent::Polled { stop_requested: false });
        match source.step(LineEvent::LineRead(line.to_string())) {
            LineAction::Deliver(record) => tx.send(record).unwrap(),
            other => panic!("expected a record, got {other:?}"),
        }
        source.step(LineEvent::Delivered);
    }
    drop(tx);
    let mut worker = streaming_worker(Policy::ProportionalScale);
    let mut played = Vec::new();
    for record in rx.iter() {
        played.push(worker.step(SoundEvent::Received(record)));
    }
    assert_eq!(
        played,
        vec![
            SoundAction::Send(note(60, 12), note(67, 0)),
            SoundAction::Send(note(60, 25), note(67, 127)),
            SoundAction::Send(note(60, 38), note(67, 63)),
        ]
    );
}

#[test]
fn dropping_producer_closes_the_queue() {
    let (tx, rx) = mpsc::channel::<Vec<String>>();
    let mut worker = streaming_worker(Policy::ProportionalScale);
    let mut lifecycle = Lifecycle::new();
    lifecycle.start(tx);
    assert!(matches!(rx.recv_timeout(Duration::from_millis(10)), Err(mpsc::RecvTimeoutError::Timeout)));
    drop(lifecycle.stop());
    let event = match rx.recv_timeout(Duration::from_secs(5)) {
        Ok(record) => SoundEvent::Received(record),
        Err(mpsc::RecvTimeoutError::Disconnected) => SoundEvent::QueueClosed,
        Err(mpsc::RecvTimeoutError::Timeout) => panic!("the queue stayed open"),
    };
    assert_eq!(worker.step(event), SoundAction::SendAndFinish(note(60, 0), note(67, 0)));
    assert!(worker.is_finished());
}

#[test]
fn line_source_publishes_and_polls() {
    let mut source = LineSource::new();
    assert!(matches!(source.step(LineEvent::Opened), LineAction::Poll));
    assert!(matches!(source.step(LineEvent::Polled { stop_requested: false }), LineAction::Read));
    assert!(matches!(source.step(LineEvent::ReadTimedOut), LineAction::Poll));
    source.step(LineEvent::Polled { stop_requested: false });
    assert!(matches!(source.step(LineEvent::LineRead("\r\n".to_string())), LineAction::Poll));
    source.step(LineEvent::Polled { stop_requested: false });
    match source.step(LineEvent::LineRead("1\t2\n".to_string())) {
        LineAction::Deliver(record) => assert_eq!(record, vec!["1".to_string(), "2".to_string()]),
        other => panic!("expected a record, got {other:?}"),
    }
    assert!(matches!(source.step(LineEvent::Delivered), LineAction::Poll));
    assert_eq!(source.state, LineState::Polling);
}

#[test]
fn line_source_failures_end_the_run() {
    let mut source = LineSource::new();
    assert!(matches!(source.step(LineEvent::OpenFailed), LineAction::Finish));
    assert!(source.is_finished());

    for failure in [LineEvent::PublishFailed, LineEvent::ForwardFailed] {
        let mut source = LineSource::new();
        source.step(LineEvent::Opened);
        source.step(LineEvent::Polled { stop_requested: false });
        source.step(LineEvent::LineRead("5\n".to_string()));
        assert!(matches!(source.step(failure), LineAction::Finish));
        assert!(source.is_finished());
    }

    let mut source = LineSource::new();
    source.step(LineEvent::Opened);
    source.step(LineEvent::Polled { stop_requested: false });
    assert!(matches!(source.step(LineEvent::ReadFailed), LineAction::Finish));
}

#[test]
fn second_start_wins() {
    let mut lifecycle: Lifecycle<&str> = Lifecycle::new();
    assert_eq!(lifecycle.phase(), Phase::Idle);
    assert_eq!(lifecycle.start("first"), None);
    assert_eq!(lifecycle.start("second"), Some("first"));
    assert_eq!(lifecycle.phase(), Phase::Running);
    assert!(!lifecycle.shutdown_requested());
    assert_eq!(lifecycle.stop(), Some("second"));
    assert_eq!(lifecycle.phase(), Phase::Stopping);
    assert!(!lifecycle.has_producer());
    assert_eq!(lifecycle.stop(), None);
    assert_eq!(lifecycle.start("third"), None);
    assert_eq!(lifecycle.phase(), Phase::Running);
    assert!(!lifecycle.shutdown_requested());
}

#[test]
fn only_usb_ports_are_offered() {
    let usb = UsbInfo::new(0x2341, 0x0043, Some("Uno".to_string()), None, Some("85".to_string()));
    let ports = vec![
        DetectedPort::new("/dev/ttyS0".to_string(), PortKind::Unknown),
        DetectedPort::new("/dev/ttyUSB0".to_string(), PortKind::Usb(usb.clone())),
        DetectedPort::new("/dev/rfcomm0".to_string(), PortKind::Bluetooth),
        DetectedPort::new("/dev/ttyACM0".to_string(), PortKind::Usb(usb.clone())),
        DetectedPort::new("/dev/pci".to_string(), PortKind::Pci),
    ];
    let offered = select_usb_ports(ports);
    assert_eq!(
        offered,
        vec![
            PortInfo { port_name: "/dev/ttyUSB0".to_string(), port_type: Some(usb.clone()) },
            PortInfo { port_name: "/dev/ttyACM0".to_string(), port_type: Some(usb) },
        ]
    );
    assert!(select_usb_ports(Vec::new()).is_empty());
}
