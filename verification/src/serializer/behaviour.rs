//! What the serializer owes to the collectors, the network and storage, event by event.

use vstd::prelude::*;
use vstd::utf8::encode_utf8;

use super::laws::{enabled, step, Event};
use super::model::{
    can_publish, can_try_publish, constructed, on_disk, SerializerView, Transition,
};
use super::types::{
    ActionView, ErrorView, MetricView, Phase, StatusView, METRICS_INTERVAL,
};
use crate::codec::publish_bytes;
use crate::package::{PackageView, RecvError};
use crate::packet::{MessageView, MqttErrorView, PacketView, PublishView, QoS, RequestView};

verus! {

/// Whether the event leads to the phase and the action, with these updates to the metrics, and with
/// nothing written to storage.
pub open spec fn leads_to(
    t: Transition,
    s: SerializerView,
    phase: Phase,
    action: ActionView,
    metrics: Seq<MetricView>,
) -> bool {
    &&& t.next == SerializerView { phase, ..s }
    &&& t.action == action
    &&& t.metrics == metrics
    &&& t.written == Seq::<u8>::empty()
}

/// The packet of a package has the package's topic and, byte for byte, its serialized points,
/// however many points there are, how late they are, and whatever was noticed about them.
pub proof fn law_packet_carries_the_serialized_points(package: PackageView)
    ensures
        match package.serialized {
            Ok(bytes) => constructed(package) matches Ok(publish) && {
                &&& publish.topic == package.topic
                &&& publish.payload == bytes
                &&& publish.qos == QoS::AtLeastOnce
                &&& !publish.dup
                &&& !publish.retain
                &&& publish.pkid == 0
            },
            Err(text) => constructed(package) == Err::<PublishView, Seq<char>>(text),
        },
{
}

/// Packages with the same topic and serialized points become the same packet, and packages that
/// differ in one of them do not.
pub proof fn law_packets_differ_as_packages_do(package: PackageView, other: PackageView)
    requires
        package.serialized is Ok,
        other.serialized is Ok,
    ensures
        constructed(package) == constructed(other) <==> {
            &&& package.topic == other.topic
            &&& package.serialized == other.serialized
        },
{
    law_packet_carries_the_serialized_points(package);
    law_packet_carries_the_serialized_points(other);
}

/// The updates that are due when a package arrives outside of crash mode: the anomalies, where
/// there are any and the serializer's metrics are kept, and the numbers of its stream, where the
/// metrics of streams are kept.
pub proof fn law_arrivals_are_accounted_for(s: SerializerView, package: PackageView)
    requires
        s.phase is Normal || s.phase is Slow && s.storage || s.phase is Sending,
    ensures
        ({
            let metrics = step(s, Event::Data(Ok(package))).metrics;
            let anomalies: int = if s.serializer_topic is Some && package.anomalies is Some {
                1
            } else {
                0
            };
            let streams: int = if s.stream_topic is Some { 1 } else { 0 };
            &&& metrics.len() >= anomalies + streams
            &&& package.anomalies matches Some((errors, count)) ==> anomalies == 1 ==> metrics[0]
                == MetricView::AddErrors(errors, count)
            &&& streams == 1 ==> metrics[anomalies] == MetricView::UpdateStream(
                package.stream,
                package.len,
                package.batch_latency,
            )
            &&& metrics.len() <= anomalies + streams + 1
            &&& metrics.len() > anomalies + streams ==> {
                &&& metrics.last() is AddTotalDiskSize
                &&& !(s.phase is Normal)
            }
        }),
{
}

/// In normal mode the network is offered the package's topic and serialized points, to be
/// delivered at least once and not retained. Nothing is written to storage.
pub proof fn law_normal_mode_offers_the_serialized_points(
    s: SerializerView,
    package: PackageView,
    bytes: Seq<u8>,
)
    requires
        s.phase is Normal,
        package.serialized == Ok::<Seq<u8>, Seq<char>>(bytes),
    ensures
        ({
            let t = step(s, Event::Data(Ok(package)));
            &&& (t.action matches ActionView::TryPublish(message) && {
                &&& message.topic == package.topic
                &&& message.payload == bytes
                &&& message.qos == QoS::AtLeastOnce
                &&& !message.retain
            })
            &&& t.next == SerializerView {
                phase: Phase::Forwarding { payload_size: bytes.len() as usize },
                ..s
            }
            &&& t.written == Seq::<u8>::empty()
        }),
{
}

/// In any other mode that awaits data, where there is storage, it is handed the encoding of a
/// packet with the package's topic and serialized points, under the packet id 1. If there is such
/// an encoding, storage is then asked to flush, and the size of the payload is accounted for,
/// except in crash mode; otherwise the package is given up.
pub proof fn law_other_modes_store_the_serialized_points(
    s: SerializerView,
    package: PackageView,
    bytes: Seq<u8>,
)
    requires
        s.storage,
        s.phase is Slow || s.phase is Sending || s.phase is Crash,
        package.serialized == Ok::<Seq<u8>, Seq<char>>(bytes),
    ensures
        ({
            let t = step(s, Event::Data(Ok(package)));
            let encodable = encode_utf8(package.topic).len() + bytes.len() + 4 <= 268_435_455;
            let accounted = encodable && s.serializer_topic is Some && !(s.phase is Crash);
            &&& t.written == publish_bytes(
                PublishView {
                    dup: false,
                    qos: QoS::AtLeastOnce,
                    retain: false,
                    topic: package.topic,
                    pkid: 1,
                    payload: bytes,
                },
            )
            &&& t.next == if encodable {
                SerializerView {
                    phase: match s.phase {
                        Phase::Slow => Phase::SlowFlush,
                        Phase::Sending => Phase::SendingFlush,
                        _ => Phase::CrashFlush,
                    },
                    ..s
                }
            } else {
                s
            }
            &&& t.action == if encodable {
                ActionView::Flush
            } else {
                ActionView::Wait
            }
            &&& accounted ==> t.metrics.len() > 0 && t.metrics.last()
                == MetricView::AddTotalDiskSize(bytes.len() as usize)
            &&& !accounted ==> forall|i: int|
                0 <= i < t.metrics.len() ==> !(#[trigger] t.metrics[i] is AddTotalDiskSize)
            &&& s.phase is Crash ==> t.metrics.len() == 0
        }),
{
}

/// Points that cannot be serialized stop the serializer, and so does the end of all collectors,
/// but for a slow network without storage, which loses whatever comes.
pub proof fn law_missing_data_stops_the_serializer(
    s: SerializerView,
    package: PackageView,
    text: Seq<char>,
    e: RecvError,
)
    requires
        s.awaits_data(),
        s.storage || !(s.phase is Slow),
        package.serialized == Err::<Seq<u8>, Seq<char>>(text),
    ensures
        step(s, Event::Data(Ok(package))).action == ActionView::Stop(ErrorView::Serde(text)),
        step(s, Event::Data(Ok(package))).next == (SerializerView { phase: Phase::Stopped, ..s }),
        step(s, Event::Data(Ok(package))).written == Seq::<u8>::empty(),
        leads_to(
            step(s, Event::Data(Err(e))),
            s,
            Phase::Stopped,
            ActionView::Stop(ErrorView::Collector(e)),
            seq![],
        ),
{
}

/// Without storage, whatever arrives while the network is slow is lost, and nothing comes of it.
pub proof fn law_slow_network_needs_storage(
    s: SerializerView,
    received: Result<PackageView, RecvError>,
)
    requires
        s.phase is Slow,
        !s.storage,
    ensures
        leads_to(step(s, Event::Data(received)), s, Phase::Slow, ActionView::Wait, seq![]),
{
}

/// What is offered and taken at once is accounted for with its size. What is not taken ends normal
/// mode with the very packet that was handed back.
pub proof fn law_offered_data_is_taken_or_handed_back(
    s: SerializerView,
    size: usize,
    publish: PublishView,
)
    requires
        s.phase == (Phase::Forwarding { payload_size: size }),
    ensures
        leads_to(
            step(s, Event::TryPublish(Ok(()))),
            s,
            Phase::Normal,
            ActionView::Wait,
            if s.serializer_topic is Some {
                seq![MetricView::AddTotalSentSize(size)]
            } else {
                seq![]
            },
        ),
        leads_to(
            step(s, Event::TryPublish(Err(MqttErrorView::TrySend(RequestView::Publish(publish))))),
            s,
            Phase::Idle,
            ActionView::Done(StatusView::SlowEventloop(publish)),
            seq![],
        ),
{
    assert(step(s, Event::TryPublish(Ok(()))).metrics =~= if s.serializer_topic is Some {
        seq![MetricView::AddTotalSentSize(size)]
    } else {
        seq![]
    });
}

/// A publish that fails ends slow mode and catchup alike, whatever metrics are kept, with the very
/// packet that was handed back; and where there is storage, the first thing that is written to it
/// then is the encoding of that packet under the packet id 1.
pub proof fn law_failed_packet_is_stored(s: SerializerView, publish: PublishView)
    requires
        s.wf(),
        s.phase is Slow || s.phase is Sending,
    ensures
        ({
            let failed = MqttErrorView::Send(RequestView::Publish(publish));
            let ended = step(s, Event::Publish(Err(failed)));
            let crash = step(
                ended.next,
                Event::Resume(StatusView::EventLoopCrash(publish)),
            );
            &&& leads_to(
                ended,
                s,
                Phase::Idle,
                ActionView::Done(StatusView::EventLoopCrash(publish)),
                seq![],
            )
            &&& s.storage ==> crash.written == publish_bytes(
                PublishView {
                    dup: publish.dup,
                    qos: publish.qos,
                    retain: publish.retain,
                    topic: publish.topic,
                    pkid: 1,
                    payload: publish.payload,
                },
            )
        }),
{
}

/// A publish that succeeds ends slow mode, and lets catchup look for the next stored packet.
pub proof fn law_published_packet_makes_way(s: SerializerView)
    ensures
        s.phase is Slow ==> leads_to(
            step(s, Event::Publish(Ok(()))),
            s,
            Phase::Idle,
            ActionView::Done(StatusView::EventLoopReady),
            seq![],
        ),
        s.phase is Sending ==> leads_to(
            step(s, Event::Publish(Ok(()))),
            s,
            Phase::Reloading { first: false },
            ActionView::Reload,
            seq![],
        ),
{
}

/// The four modes are entered as their statuses ask. Slow mode publishes the topic and payload of
/// the packet that was handed back; crash mode writes that packet; catchup looks into storage.
pub proof fn law_modes_begin(s: SerializerView, publish: PublishView)
    ensures
        leads_to(
            step(s, Event::Resume(StatusView::Normal)),
            s,
            Phase::Normal,
            ActionView::Wait,
            seq![],
        ),
        leads_to(
            step(s, Event::Resume(StatusView::SlowEventloop(publish))),
            s,
            Phase::Slow,
            ActionView::Publish(
                MessageView {
                    topic: publish.topic,
                    qos: QoS::AtLeastOnce,
                    retain: false,
                    payload: publish.payload,
                },
            ),
            seq![],
        ),
        s.storage ==> leads_to(
            step(s, Event::Resume(StatusView::EventLoopReady)),
            s,
            Phase::Reloading { first: true },
            ActionView::Reload,
            seq![],
        ),
        !s.storage ==> leads_to(
            step(s, Event::Resume(StatusView::EventLoopReady)),
            s,
            Phase::Idle,
            ActionView::Done(StatusView::Normal),
            seq![],
        ),
        !s.storage ==> leads_to(
            step(s, Event::Resume(StatusView::EventLoopCrash(publish))),
            s,
            Phase::Stopped,
            ActionView::Stop(ErrorView::MissingPersistence),
            seq![],
        ),
{
}

/// Crash mode begins with writing the packet, under the packet id 1, and with a flush if the packet
/// has an encoding. No metrics are updated.
pub proof fn law_crash_mode_begins_with_the_packet(s: SerializerView, publish: PublishView)
    requires
        s.storage,
    ensures
        ({
            let t = step(s, Event::Resume(StatusView::EventLoopCrash(publish)));
            let id: int = if publish.qos == QoS::AtMostOnce { 0 } else { 2 };
            let length = 2 + encode_utf8(publish.topic).len() + id + publish.payload.len();
            &&& t.written == publish_bytes(PublishView { pkid: 1, ..publish })
            &&& t.metrics.len() == 0
            &&& length <= 268_435_455 ==> t.action is Flush && t.next == SerializerView {
                phase: Phase::CrashFlush,
                ..s
            }
            &&& length > 268_435_455 ==> t.action is Wait && t.next == SerializerView {
                phase: Phase::Crash,
                ..s
            }
        }),
{
}

/// Once storage has been flushed, the mode goes on where it was. A segment that was given up for
/// that is accounted for, where metrics are kept, but not in crash mode.
pub proof fn law_flushed_storage_goes_on(s: SerializerView, lost_segment: bool)
    requires
        s.phase is SlowFlush || s.phase is SendingFlush || s.phase is CrashFlush,
    ensures
        leads_to(
            step(s, Event::Flush(lost_segment)),
            s,
            match s.phase {
                Phase::SlowFlush => Phase::Slow,
                Phase::SendingFlush => Phase::Sending,
                _ => Phase::Crash,
            },
            ActionView::Wait,
            if lost_segment && s.serializer_topic is Some && !(s.phase is CrashFlush) {
                seq![MetricView::IncrementLostSegments]
            } else {
                seq![]
            },
        ),
{
    assert(step(s, Event::Flush(lost_segment)).metrics =~= if lost_segment
        && s.serializer_topic is Some && !(s.phase is CrashFlush) {
        seq![MetricView::IncrementLostSegments]
    } else {
        seq![]
    });
}

/// Catchup reads on exactly while storage has something left, and ends with normal mode else, also
/// where storage fails.
pub proof fn law_catchup_reads_until_nothing_is_left(
    s: SerializerView,
    first: bool,
    nothing_left: Option<bool>,
)
    requires
        s.phase == (Phase::Reloading { first }),
    ensures
        nothing_left == Some(false) ==> leads_to(
            step(s, Event::Reload(nothing_left)),
            s,
            Phase::Reading { first },
            ActionView::Read,
            seq![],
        ),
        nothing_left != Some(false) ==> leads_to(
            step(s, Event::Reload(nothing_left)),
            s,
            Phase::Idle,
            ActionView::Done(StatusView::Normal),
            seq![],
        ),
{
}

/// A stored packet is published with its own topic and payload. Its size moves from disk to sent in
/// the metrics, except for the packet that catchup begins with. A packet that cannot be read ends
/// catchup.
pub proof fn law_stored_packets_are_published(
    s: SerializerView,
    first: bool,
    publish: PublishView,
    text: Seq<char>,
)
    requires
        s.phase == (Phase::Reading { first }),
    ensures
        leads_to(
            step(s, Event::Read(Ok(PacketView::Publish(publish)))),
            s,
            Phase::Sending,
            ActionView::PublishBytes(
                MessageView {
                    topic: publish.topic,
                    qos: QoS::AtLeastOnce,
                    retain: false,
                    payload: publish.payload,
                },
            ),
            if s.serializer_topic is Some && !first {
                seq![
                    MetricView::SubTotalDiskSize(publish.payload.len() as usize),
                    MetricView::AddTotalSentSize(publish.payload.len() as usize),
                ]
            } else {
                seq![]
            },
        ),
        leads_to(
            step(s, Event::Read(Err(text))),
            s,
            Phase::Idle,
            ActionView::Done(StatusView::Normal),
            seq![],
        ),
{
    let t = step(s, Event::Read(Ok(PacketView::Publish(publish))));
    if s.serializer_topic is Some && !first {
        assert(t.metrics =~= seq![
            MetricView::SubTotalDiskSize(publish.payload.len() as usize),
            MetricView::AddTotalSentSize(publish.payload.len() as usize),
        ]);
    } else {
        assert(t.metrics =~= seq![]);
    }
}

/// A tick, which is due every 10 seconds, asks for the metrics of the serializer if they are kept,
/// and else for those of the streams.
pub proof fn law_ticks_ask_for_metrics(s: SerializerView)
    requires
        s.phase is Normal,
    ensures
        METRICS_INTERVAL == 10,
        s.serializer_topic is Some ==> leads_to(
            step(s, Event::Tick),
            s,
            Phase::SamplingSerializer,
            ActionView::SampleSerializerMetrics,
            seq![],
        ),
        s.serializer_topic is None && s.stream_topic is Some ==> leads_to(
            step(s, Event::Tick),
            s,
            Phase::SamplingStreams,
            ActionView::SampleStreamMetrics,
            seq![],
        ),
{
}

/// Serialized metrics are offered to the network on their own topic, byte for byte; metrics that
/// cannot be serialized stop the serializer; and where no stream has any, there is nothing to do.
pub proof fn law_metrics_are_offered_on_their_topic(
    s: SerializerView,
    topic: Seq<char>,
    bytes: Seq<u8>,
    text: Seq<char>,
)
    ensures
        s.phase is SamplingSerializer && s.serializer_topic == Some(topic) ==> {
            &&& leads_to(
                step(s, Event::SerializerSample(Ok(bytes))),
                s,
                Phase::ReportingSerializer,
                ActionView::TryPublish(
                    MessageView { topic, qos: QoS::AtLeastOnce, retain: false, payload: bytes },
                ),
                seq![],
            )
            &&& leads_to(
                step(s, Event::SerializerSample(Err(text))),
                s,
                Phase::Stopped,
                ActionView::Stop(ErrorView::Serde(text)),
                seq![],
            )
        },
        s.phase is SamplingStreams && s.stream_topic == Some(topic) ==> {
            &&& leads_to(
                step(s, Event::StreamSample(Some(Ok(bytes)))),
                s,
                Phase::ReportingStreams,
                ActionView::TryPublish(
                    MessageView { topic, qos: QoS::AtLeastOnce, retain: false, payload: bytes },
                ),
                seq![],
            )
            &&& leads_to(
                step(s, Event::StreamSample(Some(Err(text)))),
                s,
                Phase::Stopped,
                ActionView::Stop(ErrorView::Serde(text)),
                seq![],
            )
            &&& leads_to(
                step(s, Event::StreamSample(None)),
                s,
                Phase::Normal,
                ActionView::Wait,
                seq![],
            )
        },
{
}

/// Metrics that the network has taken are cleared, and no others are; the report on the serializer
/// is followed by that on the streams, where their metrics are kept.
pub proof fn law_reported_metrics_are_cleared(
    s: SerializerView,
    outcome: Result<(), MqttErrorView>,
)
    ensures
        s.phase is ReportingSerializer ==> leads_to(
            step(s, Event::TryPublish(outcome)),
            s,
            if s.stream_topic is Some {
                Phase::SamplingStreams
            } else {
                Phase::Normal
            },
            if s.stream_topic is Some {
                ActionView::SampleStreamMetrics
            } else {
                ActionView::Wait
            },
            if outcome is Ok {
                seq![MetricView::ClearSerializerMetrics]
            } else {
                seq![]
            },
        ),
        s.phase is ReportingStreams ==> leads_to(
            step(s, Event::TryPublish(outcome)),
            s,
            Phase::Normal,
            ActionView::Wait,
            if outcome is Ok {
                seq![MetricView::ClearStreamMetrics]
            } else {
                seq![]
            },
        ),
{
    let metrics = step(s, Event::TryPublish(outcome)).metrics;
    if s.phase is ReportingSerializer && outcome is Ok {
        assert(metrics =~= seq![MetricView::ClearSerializerMetrics]);
    } else if s.phase is ReportingStreams && outcome is Ok {
        assert(metrics =~= seq![MetricView::ClearStreamMetrics]);
    } else if s.phase is ReportingSerializer || s.phase is ReportingStreams {
        assert(metrics =~= seq![]);
    }
}

/// Which events are awaited in which phase, and which outcomes the network can report: data that it
/// does not take is handed back as a publish.
pub proof fn law_awaited_events(s: SerializerView, event: Event)
    ensures
        enabled(s, event) <==> match s.phase {
            Phase::Idle => event is Resume,
            Phase::Normal => {
                ||| event is Data
                ||| event is Tick && (s.serializer_topic is Some || s.stream_topic is Some)
            },
            Phase::Forwarding { .. } => {
                ||| event matches Event::TryPublish(Ok(_))
                ||| event matches Event::TryPublish(
                    Err(MqttErrorView::TrySend(RequestView::Publish(_))),
                )
            },
            Phase::SamplingSerializer => event is SerializerSample,
            Phase::SamplingStreams => event is StreamSample,
            Phase::ReportingSerializer | Phase::ReportingStreams => event is TryPublish,
            Phase::Slow | Phase::Sending => {
                ||| event is Data
                ||| event matches Event::Publish(Ok(_))
                ||| event matches Event::Publish(Err(MqttErrorView::Send(RequestView::Publish(_))))
            },
            Phase::SlowFlush | Phase::SendingFlush | Phase::CrashFlush => event is Flush,
            Phase::Reloading { first } => event matches Event::Reload(nothing_left) && (first
                ==> nothing_left is Some),
            Phase::Reading { .. } => {
                ||| event matches Event::Read(Err(_))
                ||| event matches Event::Read(Ok(PacketView::Publish(_)))
            },
            Phase::Crash => event is Data,
            Phase::Stopped => false,
        },
{
}

/// What the program is told about outcomes and phases is what decides whether they are awaited.
pub proof fn law_queries_tell_what_is_awaited(s: SerializerView, outcome: Result<(), MqttErrorView>)
    ensures
        s.awaits_tick() <==> enabled(s, Event::Tick),
        s.awaits_publish() <==> enabled(s, Event::Publish(Ok(()))),
        s.awaits_publish() ==> (can_publish(outcome) <==> enabled(s, Event::Publish(outcome))),
        s.awaits_try_publish() ==> (can_try_publish(s, outcome) <==> enabled(
            s,
            Event::TryPublish(outcome),
        )),
{
}

/// Everything that stands in storage carries the packet id 1 and is otherwise unchanged.
pub proof fn law_packets_are_stored_under_one_id(publish: PublishView)
    ensures
        on_disk(publish) == publish_bytes(
            PublishView {
                dup: publish.dup,
                qos: publish.qos,
                retain: publish.retain,
                topic: publish.topic,
                pkid: 1,
                payload: publish.payload,
            },
        ),
{
}

} // verus!
