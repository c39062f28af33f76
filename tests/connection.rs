use my_midi::connection::{DeviceAction, DeviceEvent, DeviceManager, Phase};

fn ports(names: &[&str]) -> DeviceEvent {
    DeviceEvent::Ports(names.iter().map(|n| n.to_string()).collect())
}

fn connected(name: &str) -> (DeviceManager, u64) {
    let mut m = DeviceManager::new();
    m.step(DeviceEvent::Start);
    let actions = m.step(ports(&[name, "other"]));
    let handle = match actions.as_slice() {
        [DeviceAction::Open { index: 0, handle }] => *handle,
        other => panic!("unexpected actions {:?}", other),
    };
    m.step(DeviceEvent::Opened);
    (m, handle)
}

#[test]
fn start_lists_ports() {
    let mut m = DeviceManager::new();
    assert!(matches!(m.phase(), Phase::Disconnected));
    let actions = m.step(DeviceEvent::Start);
    assert!(matches!(actions.as_slice(), [DeviceAction::ListPorts]));
    assert!(matches!(m.phase(), Phase::Connecting));
}

#[test]
fn no_ports_waits_five_seconds_then_lists_again() {
    let mut m = DeviceManager::new();
    m.step(DeviceEvent::Start);
    let actions = m.step(ports(&[]));
    assert!(matches!(actions.as_slice(), [DeviceAction::Wait { millis: 5000 }]));
    assert!(matches!(m.phase(), Phase::Connecting));
    let actions = m.step(DeviceEvent::TimerFired);
    assert!(matches!(actions.as_slice(), [DeviceAction::ListPorts]));
    let actions = m.step(DeviceEvent::ListFailed);
    assert!(matches!(actions.as_slice(), [DeviceAction::Wait { millis: 5000 }]));
}

#[test]
fn first_port_is_opened_and_announced() {
    let mut m = DeviceManager::new();
    m.step(DeviceEvent::Start);
    let actions = m.step(ports(&["MPK Mini Play", "Other Device"]));
    assert!(matches!(actions.as_slice(), [DeviceAction::Open { index: 0, handle: 0 }]));
    assert!(m.accepts(0));
    let actions = m.step(DeviceEvent::Opened);
    match actions.as_slice() {
        [DeviceAction::Notify { title, body }, DeviceAction::Wait { millis: 1000 }] => {
            assert_eq!(title, "MyMIDI");
            assert_eq!(body, "Listening on MPK Mini Play");
        }
        other => panic!("unexpected actions {:?}", other),
    }
    match m.phase() {
        Phase::Connected { port, handle } => {
            assert_eq!(port, "MPK Mini Play");
            assert_eq!(*handle, 0);
        }
        other => panic!("unexpected phase {:?}", other),
    }
}

#[test]
fn open_failure_retries_with_backoff() {
    let mut m = DeviceManager::new();
    m.step(DeviceEvent::Start);
    m.step(ports(&["A"]));
    let actions = m.step(DeviceEvent::OpenFailed);
    assert!(matches!(actions.as_slice(), [DeviceAction::Wait { millis: 5000 }]));
    assert!(matches!(m.phase(), Phase::Connecting));
    assert!(!m.accepts(0));
}

#[test]
fn monitor_keeps_watching_while_the_port_is_present() {
    let (mut m, handle) = connected("A");
    let actions = m.step(DeviceEvent::TimerFired);
    assert!(matches!(actions.as_slice(), [DeviceAction::ListPorts]));
    let actions = m.step(ports(&["B", "A"]));
    assert!(matches!(actions.as_slice(), [DeviceAction::Wait { millis: 1000 }]));
    let actions = m.step(DeviceEvent::ListFailed);
    assert!(matches!(actions.as_slice(), [DeviceAction::Wait { millis: 1000 }]));
    assert!(m.accepts(handle));
}

#[test]
fn lost_port_closes_the_handle_and_reconnects() {
    let (mut m, handle) = connected("A");
    m.step(DeviceEvent::TimerFired);
    let actions = m.step(ports(&["B"]));
    match actions.as_slice() {
        [DeviceAction::Notify { title, body }, DeviceAction::Close { handle: closed }, DeviceAction::ListPorts] => {
            assert_eq!(title, "MyMIDI");
            assert_eq!(body, "MIDI disconnected. Standing by.");
            assert_eq!(*closed, handle);
        }
        other => panic!("unexpected actions {:?}", other),
    }
    assert!(matches!(m.phase(), Phase::Connecting));
    assert!(!m.accepts(handle));

    let actions = m.step(ports(&["B"]));
    let new_handle = match actions.as_slice() {
        [DeviceAction::Open { index: 0, handle }] => *handle,
        other => panic!("unexpected actions {:?}", other),
    };
    assert_ne!(new_handle, handle);
    m.step(DeviceEvent::Opened);
    assert!(m.accepts(new_handle));
    assert!(!m.accepts(handle));
}

#[test]
fn empty_listing_while_connected_is_a_loss() {
    let (mut m, handle) = connected("A");
    let actions = m.step(ports(&[]));
    assert!(matches!(actions.as_slice(), [DeviceAction::Notify { .. }, DeviceAction::Close { .. }, DeviceAction::ListPorts]));
    assert!(!m.accepts(handle));
}

#[test]
fn transport_failure_stops_for_good() {
    let (mut m, handle) = connected("A");
    let actions = m.step(DeviceEvent::TransportFailed);
    match actions.as_slice() {
        [DeviceAction::Close { handle: closed }, DeviceAction::Stop] => assert_eq!(*closed, handle),
        other => panic!("unexpected actions {:?}", other),
    }
    assert!(matches!(m.phase(), Phase::Stopped));
    assert!(m.step(DeviceEvent::Start).is_empty());
    assert!(m.step(ports(&["A"])).is_empty());

    let mut m = DeviceManager::new();
    let actions = m.step(DeviceEvent::TransportFailed);
    assert!(matches!(actions.as_slice(), [DeviceAction::Stop]));
}

#[test]
fn events_out_of_turn_change_nothing() {
    let mut m = DeviceManager::new();
    assert!(m.step(DeviceEvent::Opened).is_empty());
    assert!(m.step(ports(&["A"])).is_empty());
    assert!(matches!(m.phase(), Phase::Disconnected));
}
