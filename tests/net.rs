use helios_host::error::HostError;
use helios_host::net::{receive_frames, register_nic, send_frame, Frame, FrameQueues, NicTable};
use serde_json::Value;

fn frame(text: &str) -> Frame {
    Frame::from_value(serde_json::from_str::<Value>(text).unwrap())
}

fn values(frames: Vec<Frame>) -> Vec<Value> {
    frames.into_iter().map(Frame::into_value).collect()
}

fn fabric(pairs: &[(&str, &str)]) -> (NicTable, FrameQueues) {
    let mut nics = NicTable::new();
    let mut queues = FrameQueues::new();
    for (id, mac) in pairs {
        register_nic(&mut nics, &mut queues, id.to_string(), mac.to_string());
    }
    (nics, queues)
}

#[test]
fn nic_broadcast() {
    let (nics, mut queues) = fabric(&[("a", "AA"), ("b", "BB"), ("c", "CC")]);
    let f = r#"{"dst":"ZZ","p":1}"#;
    send_frame(&nics, &mut queues, &"a".to_string(), frame(f)).unwrap();
    let expected: Value = serde_json::from_str(f).unwrap();
    assert_eq!(values(receive_frames(&nics, &mut queues, &"b".to_string())), vec![expected.clone()]);
    assert_eq!(values(receive_frames(&nics, &mut queues, &"c".to_string())), vec![expected]);
    assert!(receive_frames(&nics, &mut queues, &"a".to_string()).is_empty());
}

#[test]
fn unicast_reaches_only_destination() {
    let (nics, mut queues) = fabric(&[("a", "AA"), ("b", "BB"), ("c", "CC")]);
    send_frame(&nics, &mut queues, &"a".to_string(), frame(r#"{"dst":"CC","n":5}"#)).unwrap();
    assert!(receive_frames(&nics, &mut queues, &"b".to_string()).is_empty());
    let got = values(receive_frames(&nics, &mut queues, &"c".to_string()));
    assert_eq!(got.len(), 1);
    assert_eq!(got[0]["n"], Value::from(5));
    assert!(receive_frames(&nics, &mut queues, &"a".to_string()).is_empty());
}

#[test]
fn unicast_to_self() {
    let (nics, mut queues) = fabric(&[("a", "AA"), ("b", "BB")]);
    send_frame(&nics, &mut queues, &"a".to_string(), frame(r#"{"dst":"AA"}"#)).unwrap();
    assert_eq!(receive_frames(&nics, &mut queues, &"a".to_string()).len(), 1);
    assert!(receive_frames(&nics, &mut queues, &"b".to_string()).is_empty());
}

#[test]
fn frames_arrive_in_order_then_queue_empties() {
    let (nics, mut queues) = fabric(&[("a", "AA"), ("b", "BB")]);
    send_frame(&nics, &mut queues, &"a".to_string(), frame(r#"{"dst":"BB","k":1}"#)).unwrap();
    send_frame(&nics, &mut queues, &"a".to_string(), frame(r#"{"dst":"QQ","k":2}"#)).unwrap();
    send_frame(&nics, &mut queues, &"a".to_string(), frame(r#"{"dst":"BB","k":3}"#)).unwrap();
    let got = values(receive_frames(&nics, &mut queues, &"b".to_string()));
    let ks: Vec<Value> = got.iter().map(|v| v["k"].clone()).collect();
    assert_eq!(ks, vec![Value::from(1), Value::from(2), Value::from(3)]);
    assert!(receive_frames(&nics, &mut queues, &"b".to_string()).is_empty());
}

#[test]
fn broadcast_leaves_sender_queue_unchanged() {
    let (nics, mut queues) = fabric(&[("a", "AA"), ("b", "BB")]);
    send_frame(&nics, &mut queues, &"b".to_string(), frame(r#"{"dst":"AA","k":1}"#)).unwrap();
    send_frame(&nics, &mut queues, &"a".to_string(), frame(r#"{"p":2}"#)).unwrap();
    let got = values(receive_frames(&nics, &mut queues, &"a".to_string()));
    assert_eq!(got.len(), 1);
    assert_eq!(got[0]["k"], Value::from(1));
    assert_eq!(receive_frames(&nics, &mut queues, &"b".to_string()).len(), 1);
}

#[test]
fn send_from_unknown_nic_fails() {
    let (nics, mut queues) = fabric(&[("a", "AA"), ("b", "BB")]);
    let e = send_frame(&nics, &mut queues, &"zz".to_string(), frame(r#"{"dst":"ZZ"}"#)).unwrap_err();
    assert_eq!(e, HostError::UnknownNic);
    assert_eq!(e.message(), "unknown nic");
    assert!(receive_frames(&nics, &mut queues, &"a".to_string()).is_empty());
    assert!(receive_frames(&nics, &mut queues, &"b".to_string()).is_empty());
}

#[test]
fn receive_on_unknown_nic_is_empty() {
    let (nics, mut queues) = fabric(&[("a", "AA")]);
    assert!(receive_frames(&nics, &mut queues, &"nope".to_string()).is_empty());
}

#[test]
fn reregistering_keeps_queue_and_rebinds() {
    let (mut nics, mut queues) = fabric(&[("a", "AA"), ("b", "BB")]);
    send_frame(&nics, &mut queues, &"a".to_string(), frame(r#"{"dst":"BB"}"#)).unwrap();
    register_nic(&mut nics, &mut queues, "b".to_string(), "BB".to_string());
    assert_eq!(receive_frames(&nics, &mut queues, &"b".to_string()).len(), 1);
    register_nic(&mut nics, &mut queues, "b".to_string(), "AA".to_string());
    assert_eq!(nics.mac_of(&"b".to_string()), Some("AA".to_string()));
}

#[test]
fn frame_destination_is_read_from_json() {
    let f = frame(r#"{"dst":"CC","p":1}"#);
    assert_eq!(f.dst(), "CC");
    let g = frame(r#"{"p":1}"#);
    assert_eq!(g.dst(), "");
    let h = frame(r#"{"dst":7}"#);
    assert_eq!(h.dst(), "");
    let copy = f.duplicate();
    assert_eq!(copy.dst(), "CC");
    assert_eq!(copy.value(), f.value());
}

#[test]
fn frames_from_several_senders_keep_submission_order() {
    let (nics, mut queues) = fabric(&[("a", "AA"), ("b", "BB"), ("c", "CC")]);
    send_frame(&nics, &mut queues, &"a".to_string(), frame(r#"{"dst":"CC","k":1}"#)).unwrap();
    send_frame(&nics, &mut queues, &"c".to_string(), frame(r#"{"dst":"ZZ","k":2}"#)).unwrap();
    send_frame(&nics, &mut queues, &"b".to_string(), frame(r#"{"k":3}"#)).unwrap();
    send_frame(&nics, &mut queues, &"a".to_string(), frame(r#"{"dst":"BB","k":4}"#)).unwrap();
    send_frame(&nics, &mut queues, &"b".to_string(), frame(r#"{"dst":"CC","k":5}"#)).unwrap();
    let ks = |got: Vec<Value>| -> Vec<Value> { got.iter().map(|v| v["k"].clone()).collect() };
    let c = ks(values(receive_frames(&nics, &mut queues, &"c".to_string())));
    assert_eq!(c, vec![Value::from(1), Value::from(3), Value::from(5)]);
    let b = ks(values(receive_frames(&nics, &mut queues, &"b".to_string())));
    assert_eq!(b, vec![Value::from(2), Value::from(4)]);
    let a = ks(values(receive_frames(&nics, &mut queues, &"a".to_string())));
    assert_eq!(a, vec![Value::from(2), Value::from(3)]);
    assert!(receive_frames(&nics, &mut queues, &"c".to_string()).is_empty());
}
