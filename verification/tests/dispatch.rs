use electrode::codec::Packet;
use electrode::dispatch::{handle_event, Event, Step};
use electrode::lifecycle::RunFlag;
use electrode::queue::RelayQueue;

fn packet(topic: &[u8], payload: &[u8]) -> Packet {
    Packet { topic: topic.to_vec(), payload: payload.to_vec() }
}

#[test]
fn tick_with_empty_queue_emits_nothing() {
    let mut q = RelayQueue::new(10);
    let mut flag = RunFlag::new();
    let step = handle_event(&mut q, &mut flag, Event::Input {
        id: b"tick".to_vec(),
        payload: Vec::new(),
    });
    match step {
        Step::Emits(drained) => assert!(drained.is_empty()),
        _ => panic!("a tick must drain the queue"),
    }
    assert!(flag.is_running());
}

#[test]
fn tick_drains_in_arrival_order() {
    let mut q = RelayQueue::new(10);
    let mut flag = RunFlag::new();
    assert!(q.push(packet(b"a", &[1])));
    assert!(q.push(packet(b"b", &[2])));
    assert!(q.push(packet(b"c", &[3])));
    let step = handle_event(&mut q, &mut flag, Event::Input {
        id: b"tick".to_vec(),
        payload: Vec::new(),
    });
    match step {
        Step::Emits(drained) => {
            assert_eq!(drained.len(), 3);
            assert_eq!(drained[0].topic, b"a".to_vec());
            assert_eq!(drained[1].topic, b"b".to_vec());
            assert_eq!(drained[2].topic, b"c".to_vec());
        }
        _ => panic!("a tick must drain the queue"),
    }
    assert_eq!(q.len(), 0);
}

#[test]
fn non_tick_input_is_forwarded() {
    let mut q = RelayQueue::new(10);
    let mut flag = RunFlag::new();
    assert!(q.push(packet(b"queued", &[9])));
    let step = handle_event(&mut q, &mut flag, Event::Input {
        id: b"camera/frame".to_vec(),
        payload: vec![0x01, 0x02, 0x03],
    });
    match step {
        Step::Forward(p) => {
            assert_eq!(p.topic, b"camera/frame".to_vec());
            assert_eq!(p.payload, vec![0x01, 0x02, 0x03]);
        }
        _ => panic!("a non-tick input must be forwarded"),
    }
    // The queue is untouched by a forward.
    assert_eq!(q.len(), 1);
}

#[test]
fn forwarded_packet_encodes_to_expected_frame() {
    let mut q = RelayQueue::new(10);
    let mut flag = RunFlag::new();
    let step = handle_event(&mut q, &mut flag, Event::Input {
        id: b"camera/frame".to_vec(),
        payload: vec![0x01, 0x02, 0x03],
    });
    let p = match step {
        Step::Forward(p) => p,
        _ => panic!("a non-tick input must be forwarded"),
    };
    let frame = electrode::codec::encode(&p.topic, &p.payload).unwrap();
    let mut expected = vec![0x0Cu8];
    expected.extend_from_slice(b"camera/frame");
    expected.extend_from_slice(&[0x01, 0x02, 0x03]);
    assert_eq!(frame, expected);
}

#[test]
fn stop_lowers_the_flag_and_quits() {
    let mut q = RelayQueue::new(10);
    let mut flag = RunFlag::new();
    let step = handle_event(&mut q, &mut flag, Event::Stop);
    assert!(matches!(step, Step::Quit));
    assert!(!flag.is_running());
}

#[test]
fn no_event_is_handled_after_stop() {
    let mut q = RelayQueue::new(10);
    let mut flag = RunFlag::new();
    assert!(q.push(packet(b"a", &[1])));
    let _ = handle_event(&mut q, &mut flag, Event::Stop);
    // After the stop signal, ticks and inputs do nothing: nothing is
    // emitted, nothing is forwarded, the queue is left alone.
    let step = handle_event(&mut q, &mut flag, Event::Input {
        id: b"tick".to_vec(),
        payload: Vec::new(),
    });
    assert!(matches!(step, Step::Idle));
    assert_eq!(q.len(), 1);
    let step = handle_event(&mut q, &mut flag, Event::Input {
        id: b"other".to_vec(),
        payload: vec![1],
    });
    assert!(matches!(step, Step::Idle));
    assert!(!flag.is_running());
}
