use serde_json::Value;
use std::sync::Arc;
use uplink::config::{Config, Stats, StreamConfig, Streams};
use uplink::package::RecvError;
use uplink::stream::{Batch, Stream};
use uplink::tcpjson::{Bridge, Command, Error, Frame, Payload, Point, Step};

fn stream(name: &str, topic: &str, buf_size: usize) -> StreamConfig {
    StreamConfig { name: name.to_owned(), topic: topic.to_owned(), buf_size }
}

fn config(names: &[&str], flush_period: Option<u64>) -> Config {
    let mut streams = Streams::new();
    for name in names {
        streams.insert(stream(name, &format!("/streams/{name}"), 10));
    }
    Config {
        project_id: "demo".to_owned(),
        device_id: "123".to_owned(),
        broker: "localhost".to_owned(),
        port: 1883,
        bridge_port: 5555,
        authentication: false,
        max_packet_size: 1024 * 1024,
        max_inflight: 100,
        keep_alive: 60,
        flush_period,
        streams,
        persistence: None,
        download_path: None,
        stats: Stats { enabled: false, process_names: vec![] },
    }
}

fn connected(streams: &[&str]) -> Bridge {
    let mut bridge = Bridge::new(Arc::new(config(streams, None)));
    bridge.start();
    bridge.on_bind(Ok(()));
    assert!(matches!(bridge.on_accept(Ok(())), Step::Collect { .. }));
    bridge
}

fn point(stream: &str, sequence: u32) -> Frame {
    Frame::Point(Payload {
        stream: stream.to_owned(),
        sequence,
        timestamp: 12345,
        payload: serde_json::from_str("{\"data\": 100}").unwrap(),
    })
}

fn action(id: &str) -> Result<Command, RecvError> {
    Ok(Command { action_id: id.to_owned(), serialized: Ok(b"{}".to_vec()) })
}

/// Hands a point to the bridge; whether its stream was new, if it was taken at all.
fn send(bridge: &mut Bridge, stream: &str) -> Option<bool> {
    match bridge.on_frame(point(stream, 1)) {
        Step::Fill { payload, open } => {
            assert_eq!(payload.stream, stream);
            Some(open.is_some())
        }
        Step::Wait => None,
        step => panic!("Unexpected: {:?}", step),
    }
}

#[test]
fn listens_on_all_interfaces() {
    let mut bridge = Bridge::new(Arc::new(config(&[], None)));
    match bridge.start() {
        Step::Bind(address) => assert_eq!(address, "0.0.0.0:5555"),
        step => panic!("Unexpected: {:?}", step),
    }
    match bridge.on_bind(Err("in use".to_owned())) {
        Step::Stop(e) => assert_eq!(e.message(), "Io error in use"),
        step => panic!("Unexpected: {:?}", step),
    }
}

#[test]
fn actions_fail_while_the_bridge_is_down() {
    let mut bridge = Bridge::new(Arc::new(config(&[], None)));
    bridge.start();
    assert!(matches!(bridge.on_bind(Ok(())), Step::Accept));
    assert!(matches!(bridge.on_accept(Err("reset".to_owned())), Step::Accept));
    match bridge.on_stray_action(Ok("17".to_owned())) {
        Step::Respond(failure) => {
            assert_eq!(failure.action_id, "17");
            assert_eq!(failure.reason, "Bridge down");
        }
        step => panic!("Unexpected: {:?}", step),
    }
    assert!(!bridge.awaits_timeout());
    assert!(matches!(bridge.on_stray_action(Err(RecvError)), Step::Stop(Error::Recv(_))));
}

#[test]
fn points_carry_their_place_and_content() {
    let mut bridge = connected(&["can"]);
    match bridge.on_frame(point("can", 7)) {
        Step::Fill { payload, open } => {
            assert!(open.is_none());
            assert_eq!(payload.sequence(), 7);
            assert_eq!(payload.timestamp(), 12345);
            assert_eq!(payload.payload.get("data"), Some(&Value::from(100)));
        }
        step => panic!("Unexpected: {:?}", step),
    }
}

#[test]
fn streams_are_opened_once() {
    let mut bridge = connected(&["can"]);
    assert_eq!(send(&mut bridge, "imu"), Some(true));
    bridge.on_fill(Err("channel closed".to_owned()));
    assert_eq!(send(&mut bridge, "imu"), Some(false));
}

#[test]
fn streams_are_limited() {
    let mut bridge = connected(&["can"]);
    for i in 1..21 {
        assert_eq!(send(&mut bridge, &format!("dynamic{i}")), Some(true));
        bridge.on_fill(Ok(true));
    }
    // There are 21 streams by now
    assert_eq!(send(&mut bridge, "one_more"), None);
    assert_eq!(send(&mut bridge, "dynamic20"), Some(false));
    bridge.on_fill(Ok(true));

    // The limit does not concern configured streams
    let names: Vec<String> = (0..30).map(|i| format!("s{i}")).collect();
    let names: Vec<&str> = names.iter().map(|s| s.as_str()).collect();
    let mut bridge = connected(&names);
    assert_eq!(send(&mut bridge, "s29"), Some(false));
    bridge.on_fill(Ok(true));
    assert_eq!(send(&mut bridge, "one_more"), None);
}

#[test]
fn another_connection_starts_afresh() {
    let mut bridge = connected(&["can"]);
    assert_eq!(send(&mut bridge, "imu"), Some(true));
    assert!(matches!(bridge.on_fill(Ok(false)), Step::Arm(_, 10)));
    assert!(matches!(bridge.on_action(action("1")), Step::Forward { .. }));
    bridge.on_write(Ok(()));
    match bridge.on_frame(Frame::Closed) {
        Step::Disconnect(e) => assert_eq!(e.message(), "Stream done"),
        step => panic!("Unexpected: {:?}", step),
    }
    bridge.start();
    bridge.on_bind(Ok(()));
    bridge.on_accept(Ok(()));
    assert_eq!(send(&mut bridge, "imu"), Some(true));
    assert!(matches!(bridge.on_fill(Ok(false)), Step::Arm(_, 10)));
    // The action is still to be answered
    assert!(bridge.awaits_timeout());
}

#[test]
fn broken_frames_end_the_connection_and_malformed_lines_do_not() {
    let mut bridge = connected(&[]);
    assert!(matches!(bridge.on_frame(Frame::Malformed("EOF".to_owned())), Step::Wait));
    match bridge.on_frame(Frame::Broken("max line length exceeded".to_owned())) {
        Step::Disconnect(e) => {
            assert_eq!(e.message(), "Lines codec error max line length exceeded")
        }
        step => panic!("Unexpected: {:?}", step),
    }
}

#[test]
fn actions_are_forwarded_as_lines() {
    let mut bridge = connected(&[]);
    let command = Command {
        action_id: "42".to_owned(),
        serialized: Ok(b"{\"action_id\":\"42\"}".to_vec()),
    };
    match bridge.on_action(Ok(command)) {
        Step::Forward { timeout: 10, line: Some(line) } => {
            assert_eq!(line, b"{\"action_id\":\"42\"}\n")
        }
        step => panic!("Unexpected: {:?}", step),
    }
    assert!(matches!(bridge.on_write(Ok(())), Step::Wait));
    assert!(bridge.awaits_timeout());

    // An action without JSON is not written, but awaited
    let command = Command { action_id: "43".to_owned(), serialized: Err("bad".to_owned()) };
    assert!(matches!(bridge.on_action(Ok(command)), Step::Forward { timeout: 10, line: None }));
    match bridge.on_timeout() {
        Step::Respond(failure) => assert_eq!(failure.action_id, "43"),
        step => panic!("Unexpected: {:?}", step),
    }

    bridge.on_action(action("44"));
    match bridge.on_write(Err("broken pipe".to_owned())) {
        Step::Disconnect(e) => assert_eq!(e.message(), "Io error broken pipe"),
        step => panic!("Unexpected: {:?}", step),
    }
}

#[test]
fn closed_channel_of_actions_ends_the_connection() {
    let mut bridge = connected(&[]);
    match bridge.on_action(Err(RecvError)) {
        Step::Disconnect(e) => {
            assert_eq!(e.message(), "Receiver error receiving on a closed channel")
        }
        step => panic!("Unexpected: {:?}", step),
    }
}

#[test]
fn answers_are_taken_once() {
    let mut bridge = connected(&["action_status"]);
    assert_eq!(send(&mut bridge, "action_status"), None);
    bridge.on_action(action("1"));
    bridge.on_write(Ok(()));
    assert_eq!(send(&mut bridge, "action_status"), Some(false));
    bridge.on_fill(Ok(true));
    assert!(!bridge.awaits_timeout());
    assert_eq!(send(&mut bridge, "action_status"), None);
}

#[test]
fn late_answers_are_dropped() {
    let mut bridge = connected(&["action_status"]);
    bridge.on_action(action("1"));
    bridge.on_write(Ok(()));
    match bridge.on_timeout() {
        Step::Respond(failure) => {
            assert_eq!(failure.action_id, "1");
            assert_eq!(failure.reason, "Action timed out");
        }
        step => panic!("Unexpected: {:?}", step),
    }
    assert_eq!(send(&mut bridge, "action_status"), None);
}

#[test]
fn streams_that_are_not_full_are_flushed_in_time() {
    let mut bridge = Bridge::new(Arc::new(config(&["can"], Some(3))));
    assert_eq!(bridge.flush_period(), 3);
    bridge.start();
    bridge.on_bind(Ok(()));
    bridge.on_accept(Ok(()));

    send(&mut bridge, "can");
    match bridge.on_fill(Ok(false)) {
        Step::Arm(stream, period) => assert_eq!((stream.as_str(), period), ("can", 3)),
        step => panic!("Unexpected: {:?}", step),
    }
    // Full in the meantime: the flush is called off
    send(&mut bridge, "can");
    assert!(matches!(bridge.on_fill(Ok(true)), Step::Cancel(stream) if stream == "can"));
    assert!(matches!(bridge.on_cancel(Ok(())), Step::Wait));
    send(&mut bridge, "can");
    assert!(matches!(bridge.on_fill(Ok(true)), Step::Wait));

    // Three points that do not fill the stream: one flush is scheduled, with the first
    send(&mut bridge, "can");
    assert!(matches!(bridge.on_fill(Ok(false)), Step::Arm(_, 3)));
    send(&mut bridge, "can");
    assert!(matches!(bridge.on_fill(Ok(false)), Step::Wait));
    send(&mut bridge, "can");
    assert!(matches!(bridge.on_fill(Ok(false)), Step::Wait));

    assert!(matches!(bridge.on_flush_due("can".to_owned()), Step::Flush(s) if s == "can"));
    assert!(matches!(bridge.on_flush(Ok(())), Step::Wait));
    assert!(matches!(bridge.on_flush_due("imu".to_owned()), Step::Wait));

    // The handle to that flush is still there: the first point after it schedules nothing
    send(&mut bridge, "can");
    assert!(matches!(bridge.on_fill(Ok(false)), Step::Wait));
    // The handle is gone by now, and the next point schedules another flush
    send(&mut bridge, "can");
    assert!(matches!(bridge.on_fill(Ok(false)), Step::Arm(_, 3)));

    // The same again, but the second point fills the stream: there is nothing to call off
    bridge.on_flush_due("can".to_owned());
    bridge.on_flush(Ok(()));
    send(&mut bridge, "can");
    assert!(matches!(bridge.on_fill(Ok(false)), Step::Wait));
    send(&mut bridge, "can");
    assert!(matches!(bridge.on_fill(Ok(true)), Step::Wait));

    // A flush that has been due cannot be called off
    send(&mut bridge, "can");
    assert!(matches!(bridge.on_fill(Ok(false)), Step::Arm(_, 3)));
    bridge.on_flush_due("can".to_owned());
    bridge.on_flush(Ok(()));
    send(&mut bridge, "can");
    assert!(matches!(bridge.on_fill(Ok(true)), Step::Cancel(_)));
    match bridge.on_cancel(Err("Delay already expired".to_owned())) {
        Step::Disconnect(e) => assert_eq!(e.message(), "Delay expired: Delay already expired"),
        step => panic!("Unexpected: {:?}", step),
    }
}

#[test]
fn failed_flush_ends_the_connection() {
    let mut bridge = connected(&["can"]);
    bridge.on_flush_due("can".to_owned());
    match bridge.on_flush(Err("closed".to_owned())) {
        Step::Disconnect(e) => assert_eq!(e.message(), "Couldn't fill stream"),
        step => panic!("Unexpected: {:?}", step),
    }
}

#[test]
fn other_error_messages() {
    assert_eq!(Error::Json("EOF".to_owned()).message(), "Serde error EOF");
    assert_eq!(Error::Actions("404".to_owned()).message(), "Download OTA error");
}

#[test]
fn connections_are_served_with_the_configured_streams() {
    let mut config = config(&["can"], None);
    config.streams.insert(stream("imu", "/imu", 3));
    config.streams.insert(stream("can", "/other", 5));
    let mut bridge = Bridge::new(Arc::new(config));
    bridge.start();
    bridge.on_bind(Ok(()));
    match bridge.on_accept(Ok(())) {
        Step::Collect { streams, timeout } => {
            let streams: Vec<_> =
                streams.iter().map(|s| (s.name.as_str(), s.topic.as_str(), s.buf_size)).collect();
            assert_eq!(streams, [("can", "/other", 5), ("imu", "/imu", 3)]);
            assert_eq!(timeout, 100);
        }
        step => panic!("Unexpected: {:?}", step),
    }
}

#[test]
fn new_streams_are_opened_for_the_device() {
    let mut bridge = connected(&["can"]);
    match bridge.on_frame(point("imu", 1)) {
        Step::Fill { open: Some(origin), .. } => {
            assert_eq!((origin.project_id.as_str(), origin.device_id.as_str()), ("demo", "123"));
        }
        step => panic!("Unexpected: {:?}", step),
    }
}

#[test]
fn streams_have_distinct_names() {
    let mut streams = Streams::new();
    assert!(streams.get(&"can".to_owned()).is_none());
    streams.insert(stream("can", "/can", 1));
    streams.insert(stream("imu", "/imu", 2));
    streams.insert(stream("can", "/other", 3));
    assert_eq!(streams.to_vec().len(), 2);
    let can = streams.get(&"can".to_owned()).unwrap();
    assert_eq!((can.topic.as_str(), can.buf_size), ("/other", 3));
    assert_eq!(streams.get(&"imu".to_owned()).unwrap().topic, "/imu");
    assert!(streams.get(&"gps".to_owned()).is_none());
}

#[test]
fn streams_make_batches() {
    let mut stream: Stream<u32> = Stream::new("can".to_owned(), "/can".to_owned(), 3);
    assert!(stream.flush().is_none());
    assert!(stream.fill(1).is_none());
    assert!(stream.fill(2).is_none());
    let Batch { stream: name, topic, points } = stream.fill(3).unwrap();
    assert_eq!((name.as_str(), topic.as_str(), points), ("can", "/can", vec![1, 2, 3]));
    assert!(stream.fill(4).is_none());
    assert_eq!(stream.flush().unwrap().points, vec![4]);
    assert!(stream.flush().is_none());

    // With no room at all, every point is a batch
    let mut stream: Stream<u32> = Stream::new("can".to_owned(), "/can".to_owned(), 0);
    assert_eq!(stream.fill(1).unwrap().points, vec![1]);
}

/// Performs what the bridge asks for on one stream, and keeps the batches.
fn serve(bridge: &mut Bridge, stream: &mut Stream<u32>, batches: &mut Vec<Vec<u32>>, frame: Frame) {
    let mut step = bridge.on_frame(frame);
    loop {
        step = match step {
            Step::Fill { payload, .. } => {
                let batch = stream.fill(payload.sequence);
                let flushed = batch.is_some();
                batches.extend(batch.map(|batch| batch.points));
                bridge.on_fill(Ok(flushed))
            }
            Step::Cancel(_) => bridge.on_cancel(Ok(())),
            _ => return,
        }
    }
}

#[test]
fn batches_hold_the_accepted_lines_in_order() {
    let mut bridge = connected(&["action_status"]);
    let mut stream: Stream<u32> = Stream::new("action_status".to_owned(), "/s".to_owned(), 2);
    let mut batches = vec![];
    // Dropped, since no action waits for an answer
    serve(&mut bridge, &mut stream, &mut batches, point("action_status", 1));
    for i in 2..7 {
        bridge.on_action(action("1"));
        bridge.on_write(Ok(()));
        serve(&mut bridge, &mut stream, &mut batches, point("action_status", i));
    }
    assert_eq!(batches, [[2, 3], [4, 5]]);
    // The last one waits for the flush
    assert!(matches!(bridge.on_flush_due("action_status".to_owned()), Step::Flush(_)));
    assert_eq!(stream.flush().unwrap().points, vec![6]);
}
