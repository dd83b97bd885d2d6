use bytes::BytesMut;
use serde_json::Value;
use uplink::config::{Config, Persistence, Stats, Streams};
use uplink::package::{Package, RecvError};
use uplink::packet::{ClientError, MqttError, Packet, Publish, QoS, Request};
use uplink::serializer::{
    construct_publish, write_to_disk, Action, Error, MetricUpdate, Reaction, Serializer, Status,
};

fn default_config() -> Config {
    Config {
        project_id: "demo".to_owned(),
        device_id: "123".to_owned(),
        broker: "localhost".to_owned(),
        port: 1883,
        bridge_port: 5555,
        authentication: false,
        max_packet_size: 1024 * 1024,
        max_inflight: 100,
        keep_alive: 60,
        flush_period: None,
        streams: Streams::new(),
        persistence: None,
        download_path: None,
        stats: Stats { enabled: false, process_names: vec![] },
    }
}

fn config_with_persistence() -> Config {
    let mut config = default_config();
    config.persistence = Some(Persistence {
        path: "/tmp/uplink_test".to_owned(),
        max_file_size: 10 * 1024 * 1024,
        max_file_count: 3,
    });
    config
}

fn defaults(config: &Config) -> Serializer {
    Serializer::new(config, Ok(()), None, None).unwrap()
}

fn metered(config: &Config) -> Serializer {
    let topics = (Some("metrics/serializer".to_owned()), Some("metrics/stream".to_owned()));
    Serializer::new(config, Ok(()), topics.0, topics.1).unwrap()
}

/// What a collector sends as its `i`th point, in a batch of its own.
fn package(i: u32) -> Package {
    Package {
        stream: "hello".to_owned(),
        topic: "hello/world".to_owned(),
        len: 1,
        batch_latency: 0,
        anomalies: None,
        serialized: Ok(stored_text(i).into_bytes()),
    }
}

fn stored_text(i: u32) -> String {
    format!("[{{\"sequence\":{i},\"timestamp\":0,\"msg\":\"Hello, World!\"}}]")
}

fn publish(i: u32) -> Publish {
    Publish::new("hello/world".to_owned(), QoS::AtLeastOnce, stored_text(i).into_bytes())
}

/// A network with room for one packet.
fn network() -> (flume::Sender<Publish>, flume::Receiver<Publish>) {
    flume::bounded(1)
}

fn try_publish(net_tx: &flume::Sender<Publish>, action: Action) -> Result<(), MqttError> {
    let Action::TryPublish(message) = action else { panic!("Unexpected action: {:?}", action) };
    assert_eq!(message.qos, QoS::AtLeastOnce);
    assert!(!message.retain);
    let publish = Publish::new(message.topic, message.qos, message.payload);
    match net_tx.try_send(publish) {
        Ok(()) => Ok(()),
        Err(e) => Err(ClientError::TryRequest(Request::Publish(e.into_inner())).into()),
    }
}

/// Storage without files: once the read buffer is used up, all that was written can be read.
struct Memory {
    writer: BytesMut,
    reader: BytesMut,
}

impl Memory {
    fn new() -> Memory {
        Memory { writer: BytesMut::new(), reader: BytesMut::new() }
    }

    fn reload_on_eof(&mut self) -> bool {
        if self.reader.is_empty() {
            std::mem::swap(&mut self.reader, &mut self.writer);
        }
        self.reader.is_empty()
    }
}

fn collect(serializer: &mut Serializer, storage: &mut Memory, i: u32) {
    let reaction = serializer.on_data(Ok(package(i)), &mut storage.writer);
    assert!(matches!(reaction.action, Action::Flush));
    let reaction = serializer.on_flush(Ok(None));
    assert!(matches!(reaction.action, Action::Wait));
}

/// Reads the next packet from storage, as far as catchup has any.
fn next_message(serializer: &mut Serializer, storage: &mut Memory, reaction: Reaction) -> Action {
    assert!(matches!(reaction.action, Action::Reload));
    let reaction = serializer.on_reload(Ok(storage.reload_on_eof()));
    match reaction.action {
        Action::Read => serializer.read_next(&mut storage.reader).unwrap().action,
        action => action,
    }
}

#[test]
fn normal_to_slow() {
    let mut serializer = defaults(&default_config());
    let mut scratch = BytesMut::new();
    let (net_tx, _net_rx) = network();

    let mut action = serializer.normal().action;
    for i in 1..3 {
        assert!(matches!(action, Action::Wait));
        let reaction = serializer.on_data(Ok(package(i)), &mut scratch);
        let outcome = try_publish(&net_tx, reaction.action);
        action = serializer.on_try_publish(outcome).action;
    }

    match action {
        Action::Done(Status::SlowEventloop(Publish {
            qos: QoS::AtLeastOnce, topic, payload, ..
        })) => {
            assert_eq!(topic, "hello/world");
            let recvd: Value = serde_json::from_slice(&payload).unwrap();
            let obj = &recvd.as_array().unwrap()[0];
            assert_eq!(obj.get("msg"), Some(&Value::from("Hello, World!")));
        }
        s => panic!("Unexpected status: {:?}", s),
    }
    assert!(scratch.is_empty());
}

#[test]
fn read_write_storage() {
    let serializer = defaults(&config_with_persistence());
    let mut storage = Memory::new();
    let mut metrics = vec![];

    let written = write_to_disk(publish(2), &mut storage.writer, false, &mut metrics);
    assert!(written);
    assert!(metrics.is_empty());

    assert!(!storage.reload_on_eof());
    match serializer.load_next(&mut storage.reader) {
        Ok(Packet::Publish(stored)) => {
            // Ensure pkid is 1, as written to disk
            assert_eq!(stored.pkid, 1);
            assert_eq!(stored.topic, "hello/world");
            assert_eq!(stored.qos, QoS::AtLeastOnce);
            assert!(!stored.dup);
            assert!(!stored.retain);
            assert_eq!(
                stored.payload,
                b"[{\"sequence\":2,\"timestamp\":0,\"msg\":\"Hello, World!\"}]"
            );
        }
        v => panic!("Failed to read publish from storage. read: {:?}", v),
    }
    assert!(storage.reload_on_eof());
}

#[test]
fn disk_to_catchup() {
    let mut serializer = defaults(&config_with_persistence());
    let mut storage = Memory::new();

    let publish = Publish::new(
        "hello/world".to_owned(),
        QoS::AtLeastOnce,
        b"[{{\"sequence\":1,\"timestamp\":0,\"msg\":\"Hello, World!\"}}]".to_vec(),
    );
    let Action::Publish(message) = serializer.slow(publish).action else { panic!() };
    assert_eq!(message.topic, "hello/world");

    for i in 1..10 {
        collect(&mut serializer, &mut storage, i);
        assert!(serializer.awaits_publish());
    }

    let status = serializer.on_publish(Ok(())).action;
    assert!(matches!(status, Action::Done(Status::EventLoopReady)));
}

#[test]
fn disk_to_crash() {
    let mut serializer = defaults(&config_with_persistence());
    let mut storage = Memory::new();

    let Action::Publish(message) = serializer.slow(publish(1)).action else { panic!() };
    let refused = Publish::new(message.topic, message.qos, message.payload);
    collect(&mut serializer, &mut storage, 2);

    let error = MqttError::from(ClientError::Request(Request::Publish(refused)));
    match serializer.on_publish(Err(error)).action {
        Action::Done(Status::EventLoopCrash(Publish {
            qos: QoS::AtLeastOnce, topic, payload, ..
        })) => {
            assert_eq!(topic, "hello/world");
            let recvd = std::str::from_utf8(&payload).unwrap();
            assert_eq!(recvd, "[{\"sequence\":1,\"timestamp\":0,\"msg\":\"Hello, World!\"}]");
        }
        s => panic!("Unexpected status: {:?}", s),
    }
}

#[test]
fn catchup_to_normal_empty_persistence() {
    let mut serializer = defaults(&config_with_persistence());
    let mut storage = Memory::new();

    let reaction = serializer.catchup();
    let status = next_message(&mut serializer, &mut storage, reaction);
    assert!(matches!(status, Action::Done(Status::Normal)));
}

#[test]
fn catchup_to_normal_with_persistence() {
    let mut serializer = defaults(&config_with_persistence());
    let mut storage = Memory::new();
    assert!(write_to_disk(publish(1), &mut storage.writer, false, &mut vec![]));

    let mut reaction = serializer.catchup();
    for i in 1..6 {
        let action = next_message(&mut serializer, &mut storage, reaction);
        let Action::PublishBytes(message) = action else { panic!("Unexpected: {:?}", action) };
        let recvd = String::from_utf8(message.payload).unwrap();
        let expected =
            format!("[{{\"sequence\":{i},\"timestamp\":0,\"msg\":\"Hello, World!\"}}]",);
        assert_eq!(recvd, expected);
        if i == 1 {
            for i in 2..6 {
                collect(&mut serializer, &mut storage, i);
            }
        }
        reaction = serializer.on_publish(Ok(()));
    }

    let status = next_message(&mut serializer, &mut storage, reaction);
    assert!(matches!(status, Action::Done(Status::Normal)));
}

#[test]
fn catchup_to_crash_with_persistence() {
    let mut serializer = defaults(&config_with_persistence());
    let mut storage = Memory::new();
    assert!(write_to_disk(publish(1), &mut storage.writer, false, &mut vec![]));

    let reaction = serializer.catchup();
    let action = next_message(&mut serializer, &mut storage, reaction);
    let Action::PublishBytes(message) = action else { panic!("Unexpected: {:?}", action) };
    collect(&mut serializer, &mut storage, 2);

    let refused = Publish::new(message.topic, message.qos, message.payload);
    match serializer.on_publish(Err(MqttError::Send(Request::Publish(refused)))).action {
        Action::Done(Status::EventLoopCrash(Publish { topic, payload, .. })) => {
            assert_eq!(topic, "hello/world");
            let recvd = std::str::from_utf8(&payload).unwrap();
            assert_eq!(recvd, "[{\"sequence\":1,\"timestamp\":0,\"msg\":\"Hello, World!\"}]");
        }
        s => unreachable!("Unexpected status: {:?}", s),
    }
}

#[test]
fn start_catches_up_first() {
    let mut with_storage = defaults(&config_with_persistence());
    assert!(matches!(with_storage.start().action, Action::Reload));

    let mut without_storage = defaults(&default_config());
    assert!(matches!(without_storage.start().action, Action::Done(Status::Normal)));
}

#[test]
fn storage_that_cannot_be_opened_is_an_error() {
    let failed = || Err("disk on fire".to_owned());
    match Serializer::new(&config_with_persistence(), failed(), None, None) {
        Err(Error::Io(text)) => assert_eq!(text, "disk on fire"),
        other => panic!("Unexpected: {:?}", other),
    }
    assert!(Serializer::new(&default_config(), failed(), None, None).is_ok());
}

#[test]
fn crash_writes_failed_packet_first_and_never_ends() {
    let mut serializer = metered(&config_with_persistence());
    let mut storage = Memory::new();

    let reaction = serializer.resume(Status::EventLoopCrash(publish(1)), &mut storage.writer);
    assert!(matches!(reaction.action, Action::Flush));
    assert!(reaction.metrics.is_empty());
    // Segments that are lost in crash mode are not counted
    let reaction = serializer.on_flush(Ok(Some(7)));
    assert!(reaction.metrics.is_empty());
    for i in 2..5 {
        let mut data = package(i);
        data.anomalies = Some(("jump".to_owned(), 1));
        let reaction = serializer.on_data(Ok(data), &mut storage.writer);
        assert!(matches!(reaction.action, Action::Flush));
        assert!(reaction.metrics.is_empty());
        assert!(matches!(serializer.on_flush(Err("full".to_owned())).action, Action::Wait));
    }

    for i in 1..5 {
        assert!(!storage.reload_on_eof());
        match serializer.load_next(&mut storage.reader) {
            Ok(Packet::Publish(stored)) => assert_eq!(stored.payload, stored_text(i).as_bytes()),
            v => panic!("Failed to read publish from storage. read: {:?}", v),
        }
    }
    assert!(storage.reload_on_eof());

    match serializer.on_data(Err(RecvError), &mut storage.writer).action {
        Action::Stop(e) => assert_eq!(
            e.message(),
            "Collector recv error receiving on a closed channel"
        ),
        action => panic!("Unexpected: {:?}", action),
    }
}

#[test]
fn crash_without_storage_fails() {
    let mut serializer = defaults(&default_config());
    let mut scratch = BytesMut::new();
    match serializer.resume(Status::EventLoopCrash(publish(1)), &mut scratch).action {
        Action::Stop(e) => assert_eq!(e.message(), "Storage is disabled/missing"),
        action => panic!("Unexpected: {:?}", action),
    }
    assert!(scratch.is_empty());
}

#[test]
fn slow_network_without_storage_loses_data() {
    let mut serializer = metered(&default_config());
    let mut scratch = BytesMut::new();
    assert!(matches!(serializer.slow(publish(1)).action, Action::Publish(_)));
    for received in [Ok(package(2)), Err(RecvError)] {
        let reaction = serializer.on_data(received, &mut scratch);
        assert!(matches!(reaction.action, Action::Wait));
        assert!(reaction.metrics.is_empty());
    }
    assert!(scratch.is_empty());
    assert!(serializer.awaits_publish());
}

#[test]
fn refused_packet_is_published_then_stored() {
    let mut serializer = defaults(&config_with_persistence());
    let mut storage = Memory::new();
    serializer.normal();
    serializer.on_data(Ok(package(1)), &mut storage.writer);
    let refused = Err(MqttError::TrySend(Request::Publish(publish(1))));
    let Action::Done(status) = serializer.on_try_publish(refused).action else { panic!() };
    let reaction = serializer.resume(status, &mut storage.writer);
    let Action::Publish(message) = reaction.action else { panic!() };
    assert_eq!(message.payload, stored_text(1).as_bytes());
    assert!(storage.writer.is_empty());

    let failed = Err(MqttError::Send(Request::Publish(publish(1))));
    let Action::Done(status) = serializer.on_publish(failed).action else { panic!() };
    serializer.resume(status, &mut storage.writer);
    let mut read = storage.writer.clone();
    match serializer.load_next(&mut read) {
        Ok(Packet::Publish(stored)) => assert_eq!(stored.payload, stored_text(1).as_bytes()),
        v => panic!("Unexpected: {:?}", v),
    }
}

#[test]
fn data_that_cannot_be_serialized_stops_the_serializer() {
    let mut serializer = metered(&config_with_persistence());
    let mut scratch = BytesMut::new();
    serializer.normal();
    let mut data = package(1);
    data.serialized = Err("key must be a string".to_owned());
    let reaction = serializer.on_data(Ok(data), &mut scratch);
    match reaction.action {
        Action::Stop(e) => assert_eq!(e.message(), "Serde error key must be a string"),
        action => panic!("Unexpected: {:?}", action),
    }
    // The stream is accounted for all the same
    assert!(matches!(&reaction.metrics[..], [MetricUpdate::UpdateStream(s, 1, 0)] if s == "hello"));
}

#[test]
fn constructed_packet_is_fresh() {
    let mut metrics = vec![];
    let mut data = package(4);
    data.batch_latency = 25;
    data.len = 3;
    let publish = construct_publish(true, &mut metrics, data).unwrap();
    assert_eq!((publish.pkid, publish.dup, publish.retain), (0, false, false));
    assert_eq!(publish.qos, QoS::AtLeastOnce);
    assert_eq!(publish.topic, "hello/world");
    assert_eq!(publish.payload, stored_text(4).as_bytes());
    assert!(matches!(&metrics[..], [MetricUpdate::UpdateStream(s, 3, 25)] if s == "hello"));
    assert!(construct_publish(false, &mut metrics, package(5)).is_ok());
    assert_eq!(metrics.len(), 1);
}

#[test]
fn metrics_of_normal_mode() {
    let mut serializer = metered(&default_config());
    let mut scratch = BytesMut::new();
    serializer.normal();
    assert!(serializer.awaits_tick());

    let mut data = package(1);
    data.anomalies = Some(("sequence jump".to_owned(), 2));
    let size = stored_text(1).len();
    let reaction = serializer.on_data(Ok(data), &mut scratch);
    assert!(matches!(
        &reaction.metrics[..],
        [MetricUpdate::AddErrors(e, 2), MetricUpdate::UpdateStream(s, 1, 0)]
            if e == "sequence jump" && s == "hello"
    ));
    let reaction = serializer.on_try_publish(Ok(()));
    assert!(matches!(&reaction.metrics[..], [MetricUpdate::AddTotalSentSize(n)] if *n == size));
    assert!(matches!(reaction.action, Action::Wait));

    // A report that is taken clears the metrics, one that is refused does not
    assert!(matches!(serializer.on_tick().action, Action::SampleSerializerMetrics));
    let Action::TryPublish(message) = serializer.on_serializer_sample(Ok(vec![1])).action else {
        panic!()
    };
    assert_eq!((message.topic.as_str(), message.payload), ("metrics/serializer", vec![1]));
    let reaction = serializer.on_try_publish(Ok(()));
    assert!(matches!(&reaction.metrics[..], [MetricUpdate::ClearSerializerMetrics]));
    assert!(matches!(reaction.action, Action::SampleStreamMetrics));
    let Action::TryPublish(message) = serializer.on_stream_sample(Some(Ok(vec![2]))).action else {
        panic!()
    };
    assert_eq!((message.topic.as_str(), message.payload), ("metrics/stream", vec![2]));
    let refused = Err(MqttError::TrySend(Request::Other));
    let reaction = serializer.on_try_publish(refused);
    assert!(reaction.metrics.is_empty());
    assert!(matches!(reaction.action, Action::Wait));

    serializer.on_tick();
    serializer.on_serializer_sample(Ok(vec![1]));
    serializer.on_try_publish(Err(MqttError::TrySend(Request::Other)));
    assert!(matches!(serializer.on_stream_sample(None).action, Action::Wait));

    serializer.on_tick();
    let failed = Err("infinite".to_owned());
    assert!(matches!(serializer.on_serializer_sample(failed).action, Action::Stop(Error::Serde(_))));
}

#[test]
fn stream_report_alone() {
    let topic = Some("metrics/stream".to_owned());
    let mut serializer = Serializer::new(&default_config(), Ok(()), None, topic).unwrap();
    serializer.normal();
    assert!(serializer.awaits_tick());
    assert!(matches!(serializer.on_tick().action, Action::SampleStreamMetrics));
    serializer.on_stream_sample(Some(Ok(vec![3])));
    let reaction = serializer.on_try_publish(Ok(()));
    assert!(matches!(&reaction.metrics[..], [MetricUpdate::ClearStreamMetrics]));

    serializer.on_tick();
    let failed = Some(Err("infinite".to_owned()));
    assert!(matches!(serializer.on_stream_sample(failed).action, Action::Stop(Error::Serde(_))));
}

#[test]
fn no_ticks_without_metrics() {
    let mut serializer = defaults(&default_config());
    serializer.normal();
    assert!(!serializer.awaits_tick());
}

#[test]
fn metrics_of_catchup() {
    let mut serializer = metered(&config_with_persistence());
    let mut storage = Memory::new();
    let size = stored_text(1).len();
    for i in 1..3 {
        write_to_disk(publish(i), &mut storage.writer, false, &mut vec![]);
    }
    serializer.catchup();
    serializer.on_reload(Ok(storage.reload_on_eof()));
    // What catchup starts with is not accounted for
    let reaction = serializer.read_next(&mut storage.reader).unwrap();
    assert!(reaction.metrics.is_empty());

    let reaction = serializer.on_data(Ok(package(3)), &mut storage.writer);
    assert!(matches!(
        &reaction.metrics[..],
        [MetricUpdate::UpdateStream(_, 1, 0), MetricUpdate::AddTotalDiskSize(n)] if *n == size
    ));
    let reaction = serializer.on_flush(Ok(Some(3)));
    assert!(matches!(&reaction.metrics[..], [MetricUpdate::IncrementLostSegments]));

    serializer.on_publish(Ok(()));
    serializer.on_reload(Ok(storage.reload_on_eof()));
    let reaction = serializer.read_next(&mut storage.reader).unwrap();
    assert!(matches!(
        &reaction.metrics[..],
        [MetricUpdate::SubTotalDiskSize(m), MetricUpdate::AddTotalSentSize(n)]
            if *m == size && *n == size
    ));
}

#[test]
fn storage_failures_lead_to_normal_mode() {
    let mut serializer = defaults(&config_with_persistence());
    let mut reader = BytesMut::from(&[0x32u8, 0x05, 0x00][..]);
    serializer.catchup();
    serializer.on_reload(Ok(false));
    let reaction = serializer.read_next(&mut reader).unwrap();
    assert!(matches!(reaction.action, Action::Done(Status::Normal)));
    // What is too short for a packet is left in the buffer
    assert_eq!(reader.len(), 3);

    serializer.catchup();
    serializer.on_reload(Ok(false));
    serializer.on_read(Ok(Packet::Publish(publish(1))));
    serializer.on_publish(Ok(()));
    let reaction = serializer.on_reload(Err("gone".to_owned()));
    assert!(matches!(reaction.action, Action::Done(Status::Normal)));
}

#[test]
fn stored_packet_that_is_no_publish_is_not_answered() {
    let mut serializer = defaults(&config_with_persistence());
    // A ping, and then some
    let mut reader = BytesMut::from(&[0xC0u8, 0x00, 0xFF][..]);
    serializer.catchup();
    serializer.on_reload(Ok(false));
    assert!(serializer.read_next(&mut reader).is_none());
    assert_eq!(&reader[..], &[0xFF]);
    assert!(matches!(
        serializer.on_read(Err("skipped".to_owned())).action,
        Action::Done(Status::Normal)
    ));
}

#[test]
fn packets_over_the_limit_are_not_read() {
    let mut config = config_with_persistence();
    config.max_packet_size = 10;
    let serializer = defaults(&config);
    let mut buffer = BytesMut::new();
    write_to_disk(publish(1), &mut buffer, false, &mut vec![]);
    let length = buffer.len();
    match serializer.load_next(&mut buffer) {
        Err(text) => assert!(text.starts_with("payload size limit exceeded: ")),
        Ok(packet) => panic!("Unexpected: {:?}", packet),
    }
    assert_eq!(buffer.len(), length);
}

#[test]
fn stored_bytes() {
    let mut buffer = BytesMut::new();
    let publish = Publish::new("a/b".to_owned(), QoS::AtLeastOnce, vec![0xF1, 0xF2]);
    let mut metrics = vec![];
    assert!(write_to_disk(publish, &mut buffer, true, &mut metrics));
    assert_eq!(&buffer[..], &[0x32, 9, 0, 3, b'a', b'/', b'b', 0, 1, 0xF1, 0xF2]);
    assert!(matches!(&metrics[..], [MetricUpdate::AddTotalDiskSize(2)]));
}

#[test]
fn unacknowledged_packet_has_no_id_on_disk() {
    let serializer = defaults(&config_with_persistence());
    let mut buffer = BytesMut::new();
    let publish = Publish::new("a/b".to_owned(), QoS::AtMostOnce, vec![7]);
    assert!(write_to_disk(publish, &mut buffer, false, &mut vec![]));
    match serializer.load_next(&mut buffer) {
        Ok(Packet::Publish(stored)) => {
            assert_eq!((stored.pkid, stored.qos), (0, QoS::AtMostOnce));
            assert_eq!(stored.payload, vec![7]);
        }
        v => panic!("Unexpected: {:?}", v),
    }
}

#[test]
fn packet_without_encoding_is_given_up() {
    let mut serializer = metered(&config_with_persistence());
    let mut buffer = BytesMut::new();
    serializer.slow(publish(1));
    let mut data = package(2);
    data.serialized = Ok(vec![0; 268_435_456]);
    let reaction = serializer.on_data(Ok(data), &mut buffer);
    assert!(matches!(reaction.action, Action::Wait));
    assert!(matches!(&reaction.metrics[..], [MetricUpdate::UpdateStream(_, 1, 0)]));
    // The header had been written when that was noticed
    assert_eq!(&buffer[..], &[0x32]);
}

#[test]
fn error_messages() {
    assert_eq!(Error::Io("denied".to_owned()).message(), "Io error denied");
    let send = MqttError::Send(Request::Other);
    assert_eq!(send.message(), "SendError(..)");
    assert_eq!(Error::Client(send).message(), "Mqtt client error SendError(..)");
    assert_eq!(MqttError::TrySend(Request::Other).message(), "TrySendError(..)");
}

#[test]
fn expected_outcomes() {
    let mut serializer = defaults(&config_with_persistence());
    let mut scratch = BytesMut::new();
    assert!(!serializer.enters_catchup());
    serializer.start();
    assert!(serializer.enters_catchup());
    serializer.on_reload(Ok(true));
    serializer.normal();
    serializer.on_data(Ok(package(1)), &mut scratch);
    let refused = || Request::Publish(publish(1));
    assert!(serializer.expects_try_publish(&Ok(())));
    assert!(serializer.expects_try_publish(&Err(MqttError::TrySend(refused()))));
    assert!(!serializer.expects_try_publish(&Err(MqttError::TrySend(Request::Other))));
    assert!(!serializer.expects_try_publish(&Err(MqttError::Send(refused()))));
    assert!(Serializer::expects_publish(&Ok(())));
    assert!(Serializer::expects_publish(&Err(MqttError::Send(refused()))));
    assert!(!Serializer::expects_publish(&Err(MqttError::TrySend(refused()))));
}

#[test]
fn data_is_accepted_in_order() {
    let mut serializer = defaults(&config_with_persistence());
    let mut storage = Memory::new();
    let mut accepted = vec![];
    for i in 1..3 {
        assert!(write_to_disk(publish(i), &mut storage.writer, false, &mut vec![]));
    }

    // What earlier runs have stored comes first, then what arrives in the meantime
    let mut reaction = serializer.start();
    loop {
        match next_message(&mut serializer, &mut storage, reaction) {
            Action::PublishBytes(message) => {
                if accepted.is_empty() {
                    collect(&mut serializer, &mut storage, 3);
                }
                accepted.push(message.payload);
                reaction = serializer.on_publish(Ok(()));
            }
            Action::Done(Status::Normal) => break,
            action => panic!("Unexpected: {:?}", action),
        }
    }

    // One package is taken at once, another is not, and a third has to wait for that
    serializer.normal();
    let reaction = serializer.on_data(Ok(package(4)), &mut storage.writer);
    let Action::TryPublish(message) = reaction.action else { panic!() };
    accepted.push(message.payload);
    serializer.on_try_publish(Ok(()));
    let reaction = serializer.on_data(Ok(package(5)), &mut storage.writer);
    let Action::TryPublish(message) = reaction.action else { panic!() };
    let refused = Publish::new(message.topic, message.qos, message.payload);
    let outcome = Err(ClientError::TryRequest(Request::Publish(refused)).into());
    let Action::Done(status) = serializer.on_try_publish(outcome).action else { panic!() };
    let reaction = serializer.resume(status, &mut storage.writer);
    let Action::Publish(message) = reaction.action else { panic!() };
    collect(&mut serializer, &mut storage, 6);
    accepted.push(message.payload);
    let Action::Done(status) = serializer.on_publish(Ok(())).action else { panic!() };
    let reaction = serializer.resume(status, &mut storage.writer);
    match next_message(&mut serializer, &mut storage, reaction) {
        Action::PublishBytes(message) => accepted.push(message.payload),
        action => panic!("Unexpected: {:?}", action),
    }

    let expected: Vec<_> = (1..7).map(|i| stored_text(i).into_bytes()).collect();
    assert_eq!(accepted, expected);
}

#[test]
fn stored_bytes_of_a_longer_packet() {
    let mut buffer = BytesMut::new();
    let mut publish = Publish::new("a".to_owned(), QoS::ExactlyOnce, vec![7; 200]);
    publish.dup = true;
    publish.retain = true;
    assert!(write_to_disk(publish, &mut buffer, false, &mut vec![]));
    // The remaining length, 205, takes two bytes
    assert_eq!(&buffer[..8], &[0x3D, 0xCD, 0x01, 0, 1, b'a', 0, 1]);
    assert_eq!(&buffer[8..], &[7; 200]);

    let mut buffer = BytesMut::new();
    let publish = Publish::new("a".to_owned(), QoS::AtMostOnce, vec![7]);
    assert!(write_to_disk(publish, &mut buffer, false, &mut vec![]));
    assert_eq!(&buffer[..], &[0x30, 4, 0, 1, b'a', 7]);
}
