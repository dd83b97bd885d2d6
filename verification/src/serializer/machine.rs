//! The serializer itself.

use bytes::BytesMut;
use vstd::prelude::*;

use super::model::{
    can_publish, can_try_publish, constructed, data_step, flush_step, on_disk, publish_step,
    read_step, reload_step, resume_step, serializer_sample_step, stream_report_step,
    stream_sample_step, stream_update, tick_step, try_publish_step, SerializerView, Transition,
};
use super::types::{
    metrics_view, Action, Error, ErrorView, MetricUpdate, MetricView, Phase, Reaction, Status,
    StatusView,
};
use crate::codec::{buffered, parsed_packet, read_packet, reads_back, write_publish};
use crate::config::Config;
use crate::package::{bytes_view, received_view, Package, RecvError};
use crate::packet::{
    Message, MqttError, MqttErrorView, Packet, PacketView, Publish, PublishView, QoS, Request,
};

verus! {

/// The value of a list of updates grows with the list.
proof fn lemma_metrics_push(metrics: Seq<MetricUpdate>, update: MetricUpdate)
    ensures
        metrics_view(metrics.push(update)) == metrics_view(metrics).push(update@),
{
    assert(metrics_view(metrics.push(update)) =~= metrics_view(metrics).push(update@));
}

/// Constructs the packet that a package is published as. The package's stream is accounted for
/// first, if the metrics of streams are kept.
pub fn construct_publish(
    stream_metrics: bool,
    metrics: &mut Vec<MetricUpdate>,
    data: Package,
) -> (result: Result<Publish, Error>)
    ensures
        metrics_view(final(metrics)@) == metrics_view(old(metrics)@) + if stream_metrics {
            seq![stream_update(data@)]
        } else {
            seq![]
        },
        match result {
            Ok(publish) => constructed(data@) == Ok::<PublishView, Seq<char>>(publish@),
            Err(e) => e@ matches ErrorView::Serde(text) && constructed(data@) == Err::<
                PublishView,
                Seq<char>,
            >(text),
        },
        match data.serialized {
            Ok(bytes) => result matches Ok(publish) && {
                &&& publish.topic == data.topic
                &&& publish.payload == bytes
                &&& publish.qos == QoS::AtLeastOnce
                &&& publish.pkid == 0 && !publish.dup && !publish.retain
            },
            Err(text) => result == Err::<Publish, Error>(Error::Serde(text)),
        },
{
    let Package { stream, topic, len, batch_latency, anomalies, serialized } = data;
    if stream_metrics {
        let update = MetricUpdate::UpdateStream(stream, len, batch_latency);
        proof {
            lemma_metrics_push(metrics@, update);
        }
        metrics.push(update);
    }
    assert(metrics_view(metrics@) =~= metrics_view(old(metrics)@) + if stream_metrics {
        seq![stream_update(data@)]
    } else {
        seq![]
    });
    match serialized {
        Ok(payload) => Ok(Publish::new(topic, QoS::AtLeastOnce, payload)),
        Err(text) => Err(Error::Serde(text)),
    }
}

/// Writes a packet to the write buffer of storage, after setting its packet id to 1, and accounts
/// for it if asked to. Returns whether it could be written.
///
/// A packet that was written is read back from the buffer as it was stored, whatever is written
/// after it.
pub fn write_to_disk(
    publish: Publish,
    writer: &mut BytesMut,
    metered: bool,
    metrics: &mut Vec<MetricUpdate>,
) -> (written: bool)
    ensures
        buffered(*final(writer)) == buffered(*old(writer)) + on_disk(publish@),
        written <==> publish@.stored().encodable(),
        metrics_view(final(metrics)@) == metrics_view(old(metrics)@) + if written && metered {
            seq![MetricView::AddTotalDiskSize(publish@.payload.len() as usize)]
        } else {
            seq![]
        },
        written && publish@.topic_fits() ==> reads_back(
            publish@.stored().kept(),
            on_disk(publish@),
        ),
{
    let mut publish = publish;
    publish.pkid = 1;
    let payload_size = publish.payload.len();
    let written = write_publish(&publish, writer).is_ok();
    if written && metered {
        let update = MetricUpdate::AddTotalDiskSize(payload_size);
        proof {
            lemma_metrics_push(metrics@, update);
        }
        metrics.push(update);
    }
    assert(metrics_view(metrics@) =~= metrics_view(old(metrics)@) + if written && metered {
        seq![MetricView::AddTotalDiskSize(payload_size)]
    } else {
        seq![]
    });
    written
}

/// Decides what becomes of collected data.
#[derive(Debug)]
pub struct Serializer {
    storage: bool,
    max_packet_size: usize,
    serializer_topic: Option<String>,
    stream_topic: Option<String>,
    phase: Phase,
}

/// The mathematical value of an optional text.
pub open spec fn text_view(text: Option<String>) -> Option<Seq<char>> {
    match text {
        Some(text) => Some(text@),
        None => None,
    }
}

/// The mathematical value of the outcome of handing a message to the network.
pub open spec fn outcome_view(outcome: Result<(), MqttError>) -> Result<(), MqttErrorView> {
    match outcome {
        Ok(()) => Ok(()),
        Err(e) => Err(e@),
    }
}

/// The mathematical value of the outcome of decoding a packet.
pub open spec fn packet_view(packet: Result<Packet, String>) -> Result<PacketView, Seq<char>> {
    match packet {
        Ok(packet) => Ok(packet@),
        Err(text) => Err(text@),
    }
}

/// The mathematical value of a serialization that may have had nothing to do.
pub open spec fn sample_view(sample: Option<Result<Vec<u8>, String>>) -> Option<
    Result<Seq<u8>, Seq<char>>,
> {
    match sample {
        Some(outcome) => Some(bytes_view(outcome)),
        None => None,
    }
}

impl View for Serializer {
    type V = SerializerView;

    closed spec fn view(&self) -> SerializerView {
        SerializerView {
            storage: self.storage,
            max_packet_size: self.max_packet_size,
            serializer_topic: text_view(self.serializer_topic),
            stream_topic: text_view(self.stream_topic),
            phase: self.phase,
        }
    }
}

impl Transition {
    /// Whether a serializer that is left as `next` and answers with `reaction` makes this
    /// transition.
    pub open spec fn made(self, next: Serializer, reaction: Reaction) -> bool {
        &&& next@ == self.next
        &&& metrics_view(reaction.metrics@) == self.metrics
        &&& reaction.action@ == self.action
    }
}

impl Serializer {
    /// A serializer for a configuration. `opened` is how opening the configured storage went, and
    /// does not matter where none is configured; the topics are those of the metrics that are
    /// kept.
    pub fn new(
        config: &Config,
        opened: Result<(), String>,
        serializer_topic: Option<String>,
        stream_topic: Option<String>,
    ) -> (result: Result<Serializer, Error>)
        ensures
            match result {
                Ok(serializer) => {
                    &&& config.persistence is Some ==> opened is Ok
                    &&& serializer@ == SerializerView {
                        storage: config.persistence is Some,
                        max_packet_size: config.max_packet_size,
                        serializer_topic: text_view(serializer_topic),
                        stream_topic: text_view(stream_topic),
                        phase: Phase::Idle,
                    }
                },
                Err(e) => {
                    &&& config.persistence is Some
                    &&& opened matches Err(text) && e@ == ErrorView::Io(text@)
                },
            },
    {
        let storage = config.persistence.is_some();
        if storage {
            if let Err(text) = opened {
                return Err(Error::Io(text));
            }
        }
        Ok(
            Serializer {
                storage,
                max_packet_size: config.max_packet_size,
                serializer_topic,
                stream_topic,
                phase: Phase::Idle,
            },
        )
    }

    /// Moves to a phase with an action, and nothing else.
    fn act(&mut self, phase: Phase, action: Action) -> (reaction: Reaction)
        ensures
            old(self)@.acts(phase, action@).made(*final(self), reaction),
            reaction.action == action,
    {
        self.phase = phase;
        let reaction = Reaction { metrics: Vec::new(), action };
        assert(metrics_view(reaction.metrics@) =~= seq![]);
        reaction
    }

    /// Starts the serializer: what an earlier run left in storage is sent first.
    pub fn start(&mut self) -> (reaction: Reaction)
        requires
            old(self)@.wf(),
            old(self)@.phase is Idle,
        ensures
            final(self)@.wf(),
            resume_step(old(self)@, StatusView::EventLoopReady).made(*final(self), reaction),
    {
        self.catchup()
    }

    /// Enters the mode that a status calls for. Only crash mode writes to storage.
    pub fn resume(&mut self, status: Status, writer: &mut BytesMut) -> (reaction: Reaction)
        requires
            old(self)@.wf(),
            old(self)@.phase is Idle,
        ensures
            final(self)@.wf(),
            resume_step(old(self)@, status@).made(*final(self), reaction),
            buffered(*final(writer)) == buffered(*old(writer)) + resume_step(
                old(self)@,
                status@,
            ).written,
            reaction.action is Flush ==> {
                &&& status@ matches StatusView::EventLoopCrash(publish)
                &&& publish.topic_fits() ==> reads_back(publish.stored().kept(), on_disk(publish))
            },
    {
        let ghost before = buffered(*writer);
        assert(before =~= before + seq![]);
        match status {
            Status::Normal => self.normal(),
            Status::SlowEventloop(publish) => self.slow(publish),
            Status::EventLoopReady => self.catchup(),
            Status::EventLoopCrash(publish) => self.crash(publish, writer),
        }
    }

    /// Normal mode: all data is forwarded to the network.
    pub fn normal(&mut self) -> (reaction: Reaction)
        requires
            old(self)@.wf(),
            old(self)@.phase is Idle,
        ensures
            final(self)@.wf(),
            resume_step(old(self)@, StatusView::Normal).made(*final(self), reaction),
    {
        self.act(Phase::Normal, Action::Wait)
    }

    /// Slow mode: new data is stored until the network takes the given packet.
    pub fn slow(&mut self, publish: Publish) -> (reaction: Reaction)
        requires
            old(self)@.wf(),
            old(self)@.phase is Idle,
        ensures
            final(self)@.wf(),
            resume_step(old(self)@, StatusView::SlowEventloop(publish@)).made(
                *final(self),
                reaction,
            ),
    {
        let message = Message::outgoing(publish.topic, publish.payload);
        self.act(Phase::Slow, Action::Publish(message))
    }

    /// Catchup mode: new data is stored while what is stored is sent.
    pub fn catchup(&mut self) -> (reaction: Reaction)
        requires
            old(self)@.wf(),
            old(self)@.phase is Idle,
        ensures
            final(self)@.wf(),
            resume_step(old(self)@, StatusView::EventLoopReady).made(*final(self), reaction),
    {
        if self.storage {
            self.act(Phase::Reloading { first: true }, Action::Reload)
        } else {
            self.act(Phase::Idle, Action::Done(Status::Normal))
        }
    }

    /// Crash mode: all data is stored, beginning with the packet that could not be sent.
    pub fn crash(&mut self, publish: Publish, writer: &mut BytesMut) -> (reaction: Reaction)
        requires
            old(self)@.wf(),
            old(self)@.phase is Idle,
        ensures
            final(self)@.wf(),
            resume_step(old(self)@, StatusView::EventLoopCrash(publish@)).made(
                *final(self),
                reaction,
            ),
            buffered(*final(writer)) == buffered(*old(writer)) + resume_step(
                old(self)@,
                StatusView::EventLoopCrash(publish@),
            ).written,
            reaction.action is Flush && publish@.topic_fits() ==> reads_back(
                publish@.stored().kept(),
                on_disk(publish@),
            ),
    {
        if !self.storage {
            assert(buffered(*writer) =~= buffered(*writer) + seq![]);
            return self.act(Phase::Stopped, Action::Stop(Error::MissingPersistence));
        }
        self.phase = Phase::Crash;
        self.store(publish, writer, false, Phase::CrashFlush, Vec::new())
    }

    /// Writes a packet to storage, after the given updates to the metrics.
    fn store(
        &mut self,
        publish: Publish,
        writer: &mut BytesMut,
        metered: bool,
        flush: Phase,
        metrics: Vec<MetricUpdate>,
    ) -> (reaction: Reaction)
        ensures
            old(self)@.stores(publish@, metered, flush).after(metrics_view(metrics@)).made(
                *final(self),
                reaction,
            ),
            buffered(*final(writer)) == buffered(*old(writer)) + on_disk(publish@),
            reaction.action is Flush && publish@.topic_fits() ==> reads_back(
                publish@.stored().kept(),
                on_disk(publish@),
            ),
    {
        let mut metrics = metrics;
        if write_to_disk(publish, writer, metered, &mut metrics) {
            self.phase = flush;
            Reaction { metrics, action: Action::Flush }
        } else {
            Reaction { metrics, action: Action::Wait }
        }
    }

    /// Accounts for the anomalies that were noticed in a package, and for its stream, and
    /// constructs its packet.
    fn receive(&self, package: Package, metrics: &mut Vec<MetricUpdate>) -> (result: Result<
        Publish,
        Error,
    >)
        requires
            old(metrics)@.len() == 0,
        ensures
            metrics_view(final(metrics)@) == self@.arrival_metrics(package@),
            match result {
                Ok(publish) => constructed(package@) == Ok::<PublishView, Seq<char>>(publish@),
                Err(e) => e@ matches ErrorView::Serde(text) && constructed(package@) == Err::<
                    PublishView,
                    Seq<char>,
                >(text),
            },
    {
        let mut package = package;
        assert(metrics_view(metrics@) =~= seq![]);
        if self.serializer_topic.is_some() {
            let anomalies = package.anomalies.take();
            if let Some((errors, count)) = anomalies {
                let update = MetricUpdate::AddErrors(errors, count);
                proof {
                    lemma_metrics_push(metrics@, update);
                }
                metrics.push(update);
            }
        }
        construct_publish(self.stream_topic.is_some(), metrics, package)
    }

    /// Data has arrived, or the collectors are gone.
    pub fn on_data(
        &mut self,
        received: Result<Package, RecvError>,
        writer: &mut BytesMut,
    ) -> (reaction: Reaction)
        requires
            old(self)@.wf(),
            old(self)@.awaits_data(),
        ensures
            final(self)@.wf(),
            data_step(old(self)@, received_view(received)).made(*final(self), reaction),
            buffered(*final(writer)) == buffered(*old(writer)) + data_step(
                old(self)@,
                received_view(received),
            ).written,
            reaction.action is Flush ==> {
                &&& received_view(received) matches Ok(package)
                &&& constructed(package) matches Ok(publish)
                &&& publish.topic_fits() ==> reads_back(publish.stored().kept(), on_disk(publish))
            },
    {
        assert(buffered(*writer) =~= buffered(*writer) + seq![]);
        if let Phase::Slow = self.phase {
            if !self.storage {
                return self.act(Phase::Slow, Action::Wait);
            }
        }
        let package = match received {
            Ok(package) => package,
            Err(e) => return self.act(Phase::Stopped, Action::Stop(Error::Collector(e))),
        };
        let mut metrics: Vec<MetricUpdate> = Vec::new();
        assert(metrics_view(metrics@) =~= seq![]);
        let result = if let Phase::Crash = self.phase {
            construct_publish(false, &mut metrics, package)
        } else {
            self.receive(package, &mut metrics)
        };
        let publish = match result {
            Ok(publish) => publish,
            Err(e) => {
                self.phase = Phase::Stopped;
                return Reaction { metrics, action: Action::Stop(e) };
            },
        };
        let metered = self.serializer_topic.is_some();
        match self.phase {
            Phase::Normal => {
                self.phase = Phase::Forwarding { payload_size: publish.payload.len() };
                let message = Message::outgoing(publish.topic, publish.payload);
                Reaction { metrics, action: Action::TryPublish(message) }
            },
            Phase::Slow => self.store(publish, writer, metered, Phase::SlowFlush, metrics),
            Phase::Sending => self.store(publish, writer, metered, Phase::SendingFlush, metrics),
            _ => self.store(publish, writer, false, Phase::CrashFlush, metrics),
        }
    }

    /// The report on the metrics is due.
    pub fn on_tick(&mut self) -> (reaction: Reaction)
        requires
            old(self)@.wf(),
            old(self)@.awaits_tick(),
        ensures
            final(self)@.wf(),
            tick_step(old(self)@).made(*final(self), reaction),
    {
        if self.serializer_topic.is_some() {
            self.act(Phase::SamplingSerializer, Action::SampleSerializerMetrics)
        } else {
            self.report_streams()
        }
    }

    /// Reports on the metrics of the streams, if they are kept.
    fn report_streams(&mut self) -> (reaction: Reaction)
        ensures
            stream_report_step(old(self)@).made(*final(self), reaction),
    {
        if self.stream_topic.is_some() {
            self.act(Phase::SamplingStreams, Action::SampleStreamMetrics)
        } else {
            self.act(Phase::Normal, Action::Wait)
        }
    }

    /// The metrics of the serializer have been serialized, or could not be.
    pub fn on_serializer_sample(&mut self, sample: Result<Vec<u8>, String>) -> (reaction: Reaction)
        requires
            old(self)@.wf(),
            old(self)@.phase is SamplingSerializer,
        ensures
            final(self)@.wf(),
            serializer_sample_step(old(self)@, bytes_view(sample)).made(*final(self), reaction),
    {
        match sample {
            Ok(payload) => {
                let topic = self.serializer_topic.as_ref().unwrap().clone();
                let message = Message::outgoing(topic, payload);
                self.act(Phase::ReportingSerializer, Action::TryPublish(message))
            },
            Err(text) => self.act(Phase::Stopped, Action::Stop(Error::Serde(text))),
        }
    }

    /// The metrics of the streams have been serialized, or could not be, or there are none.
    pub fn on_stream_sample(&mut self, sample: Option<Result<Vec<u8>, String>>) -> (reaction:
        Reaction)
        requires
            old(self)@.wf(),
            old(self)@.phase is SamplingStreams,
        ensures
            final(self)@.wf(),
            stream_sample_step(old(self)@, sample_view(sample)).made(*final(self), reaction),
    {
        match sample {
            None => self.act(Phase::Normal, Action::Wait),
            Some(Ok(payload)) => {
                let topic = self.stream_topic.as_ref().unwrap().clone();
                let message = Message::outgoing(topic, payload);
                self.act(Phase::ReportingStreams, Action::TryPublish(message))
            },
            Some(Err(text)) => self.act(Phase::Stopped, Action::Stop(Error::Serde(text))),
        }
    }

    /// The network has taken an offered message, or not.
    pub fn on_try_publish(&mut self, outcome: Result<(), MqttError>) -> (reaction: Reaction)
        requires
            old(self)@.wf(),
            old(self)@.awaits_try_publish(),
            can_try_publish(old(self)@, outcome_view(outcome)),
        ensures
            final(self)@.wf(),
            try_publish_step(old(self)@, outcome_view(outcome)).made(*final(self), reaction),
            old(self)@.phase is Forwarding ==> (outcome matches Err(
                MqttError::TrySend(Request::Publish(publish)),
            ) ==> reaction.action == Action::Done(Status::SlowEventloop(publish))),
    {
        match self.phase {
            Phase::Forwarding { payload_size } => match outcome {
                Err(MqttError::TrySend(Request::Publish(publish))) => self.act(
                    Phase::Idle,
                    Action::Done(Status::SlowEventloop(publish)),
                ),
                _ => {
                    let reaction = self.act(Phase::Normal, Action::Wait);
                    if self.serializer_topic.is_some() {
                        reaction.preceded_by(MetricUpdate::AddTotalSentSize(payload_size))
                    } else {
                        reaction
                    }
                },
            },
            Phase::ReportingSerializer => {
                let reaction = self.report_streams();
                if outcome.is_ok() {
                    reaction.preceded_by(MetricUpdate::ClearSerializerMetrics)
                } else {
                    reaction
                }
            },
            _ => {
                let reaction = self.act(Phase::Normal, Action::Wait);
                if outcome.is_ok() {
                    reaction.preceded_by(MetricUpdate::ClearStreamMetrics)
                } else {
                    reaction
                }
            },
        }
    }

    /// The pending publish has come to its end.
    pub fn on_publish(&mut self, outcome: Result<(), MqttError>) -> (reaction: Reaction)
        requires
            old(self)@.wf(),
            old(self)@.awaits_publish(),
            can_publish(outcome_view(outcome)),
        ensures
            final(self)@.wf(),
            publish_step(old(self)@, outcome_view(outcome)).made(*final(self), reaction),
            outcome matches Err(MqttError::Send(Request::Publish(publish))) ==> reaction.action
                == Action::Done(Status::EventLoopCrash(publish)),
    {
        match outcome {
            Err(MqttError::Send(Request::Publish(publish))) => self.act(
                Phase::Idle,
                Action::Done(Status::EventLoopCrash(publish)),
            ),
            _ => if let Phase::Slow = self.phase {
                self.act(Phase::Idle, Action::Done(Status::EventLoopReady))
            } else {
                self.act(Phase::Reloading { first: false }, Action::Reload)
            },
        }
    }

    /// Storage has moved its write buffer to disk if that was full; the segment that it gave up
    /// for that, if any, is named. Or it has failed to.
    pub fn on_flush(&mut self, outcome: Result<Option<u64>, String>) -> (reaction: Reaction)
        requires
            old(self)@.wf(),
            old(self)@.awaits_flush(),
        ensures
            final(self)@.wf(),
            flush_step(old(self)@, outcome matches Ok(Some(_))).made(*final(self), reaction),
    {
        let (phase, metered) = match self.phase {
            Phase::SlowFlush => (Phase::Slow, self.serializer_topic.is_some()),
            Phase::SendingFlush => (Phase::Sending, self.serializer_topic.is_some()),
            _ => (Phase::Crash, false),
        };
        let reaction = self.act(phase, Action::Wait);
        match outcome {
            Ok(Some(_)) if metered => reaction.preceded_by(MetricUpdate::IncrementLostSegments),
            _ => reaction,
        }
    }

    /// Storage has looked for what is left to send, and found nothing (`true`) or something. It
    /// may also have failed to, but not on entering catchup mode.
    pub fn on_reload(&mut self, nothing_left: Result<bool, String>) -> (reaction: Reaction)
        requires
            old(self)@.wf(),
            old(self)@.phase is Reloading,
            old(self)@.phase->Reloading_first ==> nothing_left is Ok,
        ensures
            final(self)@.wf(),
            reload_step(
                old(self)@,
                match nothing_left {
                    Ok(nothing_left) => Some(nothing_left),
                    Err(_) => None,
                },
            ).made(*final(self), reaction),
    {
        let first = match self.phase {
            Phase::Reloading { first } => first,
            _ => false,
        };
        match nothing_left {
            Ok(false) => self.act(Phase::Reading { first }, Action::Read),
            _ => self.act(Phase::Idle, Action::Done(Status::Normal)),
        }
    }

    /// Takes the next packet out of the read buffer of storage.
    pub fn load_next(&self, reader: &mut BytesMut) -> (packet: Result<Packet, String>)
        ensures
            parsed_packet(buffered(*old(reader)), self@.max_packet_size) == (
                packet_view(packet),
                buffered(*final(reader)),
            ),
    {
        read_packet(reader, self.max_packet_size)
    }

    /// The next stored packet has been decoded, or could not be. Only publishes are ever stored.
    pub fn on_read(&mut self, packet: Result<Packet, String>) -> (reaction: Reaction)
        requires
            old(self)@.wf(),
            old(self)@.phase is Reading,
            !(packet matches Ok(Packet::Other)),
        ensures
            final(self)@.wf(),
            read_step(old(self)@, packet_view(packet)).made(*final(self), reaction),
    {
        let publish = match packet {
            Ok(Packet::Publish(publish)) => publish,
            _ => return self.act(Phase::Idle, Action::Done(Status::Normal)),
        };
        let size = publish.payload.len();
        let account = match self.phase {
            Phase::Reading { first } => !first && self.serializer_topic.is_some(),
            _ => false,
        };
        let message = Message::outgoing(publish.topic, publish.payload);
        let reaction = self.act(Phase::Sending, Action::PublishBytes(message));
        if account {
            proof {
                let sub = MetricView::SubTotalDiskSize(size);
                let sent = MetricView::AddTotalSentSize(size);
                assert(seq![sub] + (seq![sent] + seq![]) =~= seq![sub, sent] + seq![]);
            }
            reaction.preceded_by(MetricUpdate::AddTotalSentSize(size)).preceded_by(
                MetricUpdate::SubTotalDiskSize(size),
            )
        } else {
            reaction
        }
    }

    /// Takes the next packet out of the read buffer of storage and goes on with it. If it turns
    /// out not to be a publish, it is dropped, the serializer stays as it is, and there is no
    /// answer.
    pub fn read_next(&mut self, reader: &mut BytesMut) -> (reaction: Option<Reaction>)
        requires
            old(self)@.wf(),
            old(self)@.phase is Reading,
        ensures
            final(self)@.wf(),
            ({
                let (packet, rest) = parsed_packet(
                    buffered(*old(reader)),
                    old(self)@.max_packet_size,
                );
                &&& buffered(*final(reader)) == rest
                &&& match reaction {
                    Some(reaction) => {
                        &&& !(packet matches Ok(PacketView::Other))
                        &&& read_step(old(self)@, packet).made(*final(self), reaction)
                    },
                    None => {
                        &&& packet matches Ok(PacketView::Other)
                        &&& final(self)@ == old(self)@
                    },
                }
            }),
    {
        let packet = self.load_next(reader);
        if let Ok(Packet::Other) = packet {
            None
        } else {
            Some(self.on_read(packet))
        }
    }

    /// Whether a tick may arrive.
    pub fn awaits_tick(&self) -> (yes: bool)
        ensures
            yes == self@.awaits_tick(),
    {
        let normal = match self.phase {
            Phase::Normal => true,
            _ => false,
        };
        normal && (self.serializer_topic.is_some() || self.stream_topic.is_some())
    }

    /// Whether the end of a publish may be reported.
    pub fn awaits_publish(&self) -> (yes: bool)
        ensures
            yes == self@.awaits_publish(),
    {
        match self.phase {
            Phase::Slow | Phase::Sending => true,
            _ => false,
        }
    }

    /// Whether the outcome of offering a message is one that can be reported.
    pub fn expects_try_publish(&self, outcome: &Result<(), MqttError>) -> (yes: bool)
        ensures
            yes == can_try_publish(self@, outcome_view(*outcome)),
    {
        match (self.phase, outcome) {
            (Phase::Forwarding { .. }, Err(MqttError::TrySend(Request::Publish(_)))) => true,
            (Phase::Forwarding { .. }, Err(_)) => false,
            _ => true,
        }
    }

    /// Whether the end of a publish is one that can be reported.
    pub fn expects_publish(outcome: &Result<(), MqttError>) -> (yes: bool)
        ensures
            yes == can_publish(outcome_view(*outcome)),
    {
        match outcome {
            Err(MqttError::Send(Request::Publish(_))) => true,
            Err(_) => false,
            Ok(()) => true,
        }
    }

    /// Whether catchup mode has just been entered, so that a failure of storage cannot be
    /// reported.
    pub fn enters_catchup(&self) -> (yes: bool)
        ensures
            yes == (self@.phase == Phase::Reloading { first: true }),
    {
        match self.phase {
            Phase::Reloading { first } => first,
            _ => false,
        }
    }
}

impl Reaction {
    /// The same reaction, with an update to the metrics that comes before its own.
    fn preceded_by(self, update: MetricUpdate) -> (reaction: Reaction)
        ensures
            metrics_view(reaction.metrics@) == seq![update@] + metrics_view(self.metrics@),
            reaction.action@ == self.action@,
    {
        let mut metrics = self.metrics;
        metrics.insert(0, update);
        assert(metrics_view(metrics@) =~= seq![update@] + metrics_view(self.metrics@));
        Reaction { metrics, action: self.action }
    }
}

} // verus!
