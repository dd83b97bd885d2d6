//! What every event leads to, as mathematics.

use vstd::prelude::*;

use super::types::{ActionView, ErrorView, MetricView, Phase, StatusView};
use crate::codec::publish_bytes;
use crate::package::{PackageView, RecvError};
use crate::packet::{
    MessageView, MqttErrorView, PacketView, PublishView, QoS, RequestView,
};

verus! {

/// The state of a serializer.
pub struct SerializerView {
    /// Whether there is storage.
    pub storage: bool,
    pub max_packet_size: usize,
    /// Where the metrics of the serializer are published, if they are kept.
    pub serializer_topic: Option<Seq<char>>,
    /// Where the metrics of the streams are published, if they are kept.
    pub stream_topic: Option<Seq<char>>,
    pub phase: Phase,
}

/// What an event leads to: the next state, the answer, and the bytes appended to the write buffer
/// of storage.
pub struct Transition {
    pub next: SerializerView,
    pub metrics: Seq<MetricView>,
    pub action: ActionView,
    pub written: Seq<u8>,
}

/// The packet that a package is published as, or why there is none.
pub open spec fn constructed(package: PackageView) -> Result<PublishView, Seq<char>> {
    match package.serialized {
        Ok(payload) => Ok(PublishView::fresh(package.topic, QoS::AtLeastOnce, payload)),
        Err(text) => Err(text),
    }
}

/// The update to the metrics of its stream that a package calls for.
pub open spec fn stream_update(package: PackageView) -> MetricView {
    MetricView::UpdateStream(package.stream, package.len, package.batch_latency)
}

/// The bytes that stand in storage for a packet.
pub open spec fn on_disk(publish: PublishView) -> Seq<u8> {
    publish_bytes(publish.stored())
}

impl SerializerView {
    /// Whether the phase is one that the configuration lets the serializer come to.
    pub open spec fn wf(self) -> bool {
        match self.phase {
            Phase::Idle | Phase::Normal | Phase::Forwarding { .. } | Phase::Slow | Phase::Stopped =>
            true,
            Phase::SamplingSerializer | Phase::ReportingSerializer => self.metered(),
            Phase::SamplingStreams | Phase::ReportingStreams => self.stream_topic is Some,
            _ => self.storage,
        }
    }

    /// Whether metrics of the serializer are kept.
    pub open spec fn metered(self) -> bool {
        self.serializer_topic is Some
    }

    /// Whether any metrics are kept.
    pub open spec fn metrics_enabled(self) -> bool {
        self.serializer_topic is Some || self.stream_topic is Some
    }

    /// Whether data may arrive.
    pub open spec fn awaits_data(self) -> bool {
        self.phase is Normal || self.phase is Slow || self.phase is Sending || self.phase is Crash
    }

    /// Whether a tick may arrive.
    pub open spec fn awaits_tick(self) -> bool {
        self.phase is Normal && self.metrics_enabled()
    }

    /// Whether a publish is under way whose end may be reported.
    pub open spec fn awaits_publish(self) -> bool {
        self.phase is Slow || self.phase is Sending
    }

    /// Whether the outcome of offering a message to the network is awaited.
    pub open spec fn awaits_try_publish(self) -> bool {
        self.phase is Forwarding || self.phase is ReportingSerializer
            || self.phase is ReportingStreams
    }

    /// Whether storage is asked to flush.
    pub open spec fn awaits_flush(self) -> bool {
        self.phase is SlowFlush || self.phase is SendingFlush || self.phase is CrashFlush
    }

    pub open spec fn at(self, phase: Phase) -> SerializerView {
        SerializerView { phase, ..self }
    }

    /// Moves to a phase with an action, and nothing else.
    pub open spec fn acts(self, phase: Phase, action: ActionView) -> Transition {
        Transition { next: self.at(phase), metrics: seq![], action, written: seq![] }
    }

    /// The mode ends with a status.
    pub open spec fn done(self, status: StatusView) -> Transition {
        self.acts(Phase::Idle, ActionView::Done(status))
    }

    /// The serializer fails.
    pub open spec fn stop(self, error: ErrorView) -> Transition {
        self.acts(Phase::Stopped, ActionView::Stop(error))
    }

    /// The updates that every package calls for before it is forwarded or stored: its anomalies,
    /// then its stream.
    pub open spec fn arrival_metrics(self, package: PackageView) -> Seq<MetricView> {
        let anomalies = match package.anomalies {
            Some((errors, count)) if self.metered() => seq![MetricView::AddErrors(errors, count)],
            _ => seq![],
        };
        anomalies + if self.stream_topic is Some {
            seq![stream_update(package)]
        } else {
            seq![]
        }
    }

    /// A packet is written to storage, under the packet id 1: storage is flushed if that went
    /// well, and otherwise the packet is given up.
    pub open spec fn stores(self, publish: PublishView, metered: bool, flush: Phase) -> Transition {
        if publish.stored().encodable() {
            Transition {
                next: self.at(flush),
                metrics: if metered {
                    seq![MetricView::AddTotalDiskSize(publish.payload.len() as usize)]
                } else {
                    seq![]
                },
                action: ActionView::Flush,
                written: on_disk(publish),
            }
        } else {
            Transition {
                next: self,
                metrics: seq![],
                action: ActionView::Wait,
                written: on_disk(publish),
            }
        }
    }
}

impl Transition {
    /// The same transition, with updates to the metrics that come before its own.
    pub open spec fn after(self, metrics: Seq<MetricView>) -> Transition {
        Transition { metrics: metrics + self.metrics, ..self }
    }
}

/// A mode is entered.
pub open spec fn resume_step(s: SerializerView, status: StatusView) -> Transition {
    match status {
        StatusView::Normal => s.acts(Phase::Normal, ActionView::Wait),
        StatusView::SlowEventloop(publish) => s.acts(
            Phase::Slow,
            ActionView::Publish(MessageView::outgoing(publish.topic, publish.payload)),
        ),
        StatusView::EventLoopReady => if s.storage {
            s.acts(Phase::Reloading { first: true }, ActionView::Reload)
        } else {
            s.done(StatusView::Normal)
        },
        StatusView::EventLoopCrash(publish) => if s.storage {
            s.at(Phase::Crash).stores(publish, false, Phase::CrashFlush)
        } else {
            s.stop(ErrorView::MissingPersistence)
        },
    }
}

/// Data arrives, or the collectors turn out to be gone.
pub open spec fn data_step(
    s: SerializerView,
    received: Result<PackageView, RecvError>,
) -> Transition {
    match received {
        // Without storage, a slow network costs the data.
        _ if s.phase is Slow && !s.storage => s.acts(Phase::Slow, ActionView::Wait),
        Err(e) => s.stop(ErrorView::Collector(e)),
        Ok(package) => {
            let metrics = if s.phase is Crash {
                seq![]
            } else {
                s.arrival_metrics(package)
            };
            let fate = match constructed(package) {
                Err(text) => s.stop(ErrorView::Serde(text)),
                Ok(publish) => match s.phase {
                    Phase::Normal => s.acts(
                        Phase::Forwarding { payload_size: publish.payload.len() as usize },
                        ActionView::TryPublish(
                            MessageView::outgoing(publish.topic, publish.payload),
                        ),
                    ),
                    Phase::Slow => s.stores(publish, s.metered(), Phase::SlowFlush),
                    Phase::Sending => s.stores(publish, s.metered(), Phase::SendingFlush),
                    _ => s.stores(publish, false, Phase::CrashFlush),
                },
            };
            fate.after(metrics)
        },
    }
}

/// The report on the metrics of the streams is due, if they are kept.
pub open spec fn stream_report_step(s: SerializerView) -> Transition {
    if s.stream_topic is Some {
        s.acts(Phase::SamplingStreams, ActionView::SampleStreamMetrics)
    } else {
        s.acts(Phase::Normal, ActionView::Wait)
    }
}

/// The report on the metrics is due.
pub open spec fn tick_step(s: SerializerView) -> Transition {
    if s.serializer_topic is Some {
        s.acts(Phase::SamplingSerializer, ActionView::SampleSerializerMetrics)
    } else {
        stream_report_step(s)
    }
}

/// The metrics of the serializer have been serialized.
pub open spec fn serializer_sample_step(
    s: SerializerView,
    sample: Result<Seq<u8>, Seq<char>>,
) -> Transition {
    match sample {
        Err(text) => s.stop(ErrorView::Serde(text)),
        Ok(payload) => s.acts(
            Phase::ReportingSerializer,
            ActionView::TryPublish(MessageView::outgoing(s.serializer_topic->0, payload)),
        ),
    }
}

/// The metrics of the streams have been serialized, unless no stream has any.
pub open spec fn stream_sample_step(
    s: SerializerView,
    sample: Option<Result<Seq<u8>, Seq<char>>>,
) -> Transition {
    match sample {
        None => s.acts(Phase::Normal, ActionView::Wait),
        Some(Err(text)) => s.stop(ErrorView::Serde(text)),
        Some(Ok(payload)) => s.acts(
            Phase::ReportingStreams,
            ActionView::TryPublish(MessageView::outgoing(s.stream_topic->0, payload)),
        ),
    }
}

/// Whether the network's answer to an offered message is one that it can give: when it does not
/// take data, it hands the publish back.
pub open spec fn can_try_publish(
    s: SerializerView,
    outcome: Result<(), MqttErrorView>,
) -> bool {
    s.phase is Forwarding ==> match outcome {
        Ok(_) => true,
        Err(MqttErrorView::TrySend(RequestView::Publish(_))) => true,
        Err(_) => false,
    }
}

/// The network has taken an offered message, or not.
pub open spec fn try_publish_step(
    s: SerializerView,
    outcome: Result<(), MqttErrorView>,
) -> Transition {
    match (s.phase, outcome) {
        (Phase::Forwarding { payload_size }, Ok(_)) => s.acts(
            Phase::Normal,
            ActionView::Wait,
        ).after(
            if s.metered() {
                seq![MetricView::AddTotalSentSize(payload_size)]
            } else {
                seq![]
            },
        ),
        (Phase::Forwarding { .. }, Err(e)) => s.done(
            StatusView::SlowEventloop(e->TrySend_0->Publish_0),
        ),
        (Phase::ReportingSerializer, Ok(_)) => stream_report_step(s).after(
            seq![MetricView::ClearSerializerMetrics],
        ),
        (Phase::ReportingSerializer, Err(_)) => stream_report_step(s),
        (_, Ok(_)) => s.acts(Phase::Normal, ActionView::Wait).after(
            seq![MetricView::ClearStreamMetrics],
        ),
        (_, Err(_)) => s.acts(Phase::Normal, ActionView::Wait),
    }
}

/// Whether the end of a publish is one that can come: when it fails, the publish is handed back.
pub open spec fn can_publish(outcome: Result<(), MqttErrorView>) -> bool {
    match outcome {
        Ok(_) => true,
        Err(MqttErrorView::Send(RequestView::Publish(_))) => true,
        Err(_) => false,
    }
}

/// The pending publish has come to its end.
pub open spec fn publish_step(
    s: SerializerView,
    outcome: Result<(), MqttErrorView>,
) -> Transition {
    match outcome {
        Ok(_) => if s.phase is Slow {
            s.done(StatusView::EventLoopReady)
        } else {
            s.acts(Phase::Reloading { first: false }, ActionView::Reload)
        },
        Err(e) => s.done(StatusView::EventLoopCrash(e->Send_0->Publish_0)),
    }
}

/// Storage has moved its write buffer to disk if that was full, perhaps at the price of an older
/// segment, or has failed to.
pub open spec fn flush_step(s: SerializerView, lost_segment: bool) -> Transition {
    let phase = match s.phase {
        Phase::SlowFlush => Phase::Slow,
        Phase::SendingFlush => Phase::Sending,
        _ => Phase::Crash,
    };
    s.acts(phase, ActionView::Wait).after(
        if lost_segment && s.metered() && !(s.phase is CrashFlush) {
            seq![MetricView::IncrementLostSegments]
        } else {
            seq![]
        },
    )
}

/// Storage has looked for what is left to send; `None` is a failure to.
pub open spec fn reload_step(s: SerializerView, nothing_left: Option<bool>) -> Transition {
    if nothing_left == Some(false) {
        s.acts(Phase::Reading { first: s.phase->Reloading_first }, ActionView::Read)
    } else {
        s.done(StatusView::Normal)
    }
}

/// The next stored packet has been decoded, or could not be.
pub open spec fn read_step(s: SerializerView, packet: Result<PacketView, Seq<char>>) -> Transition {
    match packet {
        Err(_) => s.done(StatusView::Normal),
        Ok(packet) => {
            let publish = packet->Publish_0;
            let size = publish.payload.len() as usize;
            s.acts(
                Phase::Sending,
                ActionView::PublishBytes(MessageView::outgoing(publish.topic, publish.payload)),
            ).after(
                // What catchup starts with is not accounted for.
                if s.metered() && !s.phase->Reading_first {
                    seq![MetricView::SubTotalDiskSize(size), MetricView::AddTotalSentSize(size)]
                } else {
                    seq![]
                },
            )
        },
    }
}

} // verus!
