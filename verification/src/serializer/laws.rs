//! What holds of the serializer as a whole.

use vstd::prelude::*;

use super::model::{
    can_publish, can_try_publish, constructed, data_step, flush_step, on_disk, publish_step,
    read_step, reload_step, resume_step, serializer_sample_step, stream_sample_step, tick_step,
    try_publish_step, SerializerView, Transition,
};
use super::types::{ActionView, ErrorView, MetricView, Phase, StatusView};
use crate::codec::{parsed_packet, reads_back};
use crate::package::{PackageView, RecvError};
use crate::packet::{MessageView, MqttErrorView, PacketView, PublishView, QoS, RequestView};

verus! {

/// Everything that can happen to a serializer.
pub enum Event {
    Resume(StatusView),
    Data(Result<PackageView, RecvError>),
    Tick,
    SerializerSample(Result<Seq<u8>, Seq<char>>),
    StreamSample(Option<Result<Seq<u8>, Seq<char>>>),
    TryPublish(Result<(), MqttErrorView>),
    Publish(Result<(), MqttErrorView>),
    Flush(bool),
    Reload(Option<bool>),
    Read(Result<PacketView, Seq<char>>),
}

/// Whether the event can happen in the state.
pub open spec fn enabled(s: SerializerView, event: Event) -> bool {
    match event {
        Event::Resume(_) => s.phase is Idle,
        Event::Data(_) => s.awaits_data(),
        Event::Tick => s.awaits_tick(),
        Event::SerializerSample(_) => s.phase is SamplingSerializer,
        Event::StreamSample(_) => s.phase is SamplingStreams,
        Event::TryPublish(outcome) => s.awaits_try_publish() && can_try_publish(s, outcome),
        Event::Publish(outcome) => s.awaits_publish() && can_publish(outcome),
        Event::Flush(_) => s.awaits_flush(),
        Event::Reload(nothing_left) => {
            &&& s.phase is Reloading
            &&& s.phase->Reloading_first ==> nothing_left is Some
        },
        Event::Read(packet) => s.phase is Reading && packet != Ok::<PacketView, Seq<char>>(
            PacketView::Other,
        ),
    }
}

/// What the event leads to.
pub open spec fn step(s: SerializerView, event: Event) -> Transition {
    match event {
        Event::Resume(status) => resume_step(s, status),
        Event::Data(received) => data_step(s, received),
        Event::Tick => tick_step(s),
        Event::SerializerSample(sample) => serializer_sample_step(s, sample),
        Event::StreamSample(sample) => stream_sample_step(s, sample),
        Event::TryPublish(outcome) => try_publish_step(s, outcome),
        Event::Publish(outcome) => publish_step(s, outcome),
        Event::Flush(lost_segment) => flush_step(s, lost_segment),
        Event::Reload(nothing_left) => reload_step(s, nothing_left),
        Event::Read(packet) => read_step(s, packet),
    }
}

/// The modes of a serializer.
pub enum Mode {
    Idle,
    Normal,
    Slow,
    Catchup,
    Crash,
    Stopped,
}

/// The mode that a phase belongs to.
pub open spec fn mode(phase: Phase) -> Mode {
    match phase {
        Phase::Idle => Mode::Idle,
        Phase::Normal
        | Phase::Forwarding { .. }
        | Phase::SamplingSerializer
        | Phase::ReportingSerializer
        | Phase::SamplingStreams
        | Phase::ReportingStreams => Mode::Normal,
        Phase::Slow | Phase::SlowFlush => Mode::Slow,
        Phase::Reloading { .. } | Phase::Reading { .. } | Phase::Sending | Phase::SendingFlush =>
        Mode::Catchup,
        Phase::Crash | Phase::CrashFlush => Mode::Crash,
        Phase::Stopped => Mode::Stopped,
    }
}

/// The mode that a status calls for.
pub open spec fn mode_after(status: StatusView) -> Mode {
    match status {
        StatusView::Normal => Mode::Normal,
        StatusView::SlowEventloop(_) => Mode::Slow,
        StatusView::EventLoopReady => Mode::Catchup,
        StatusView::EventLoopCrash(_) => Mode::Crash,
    }
}

/// The packet that the event has written to storage, if any.
pub open spec fn stored_packet(s: SerializerView, event: Event) -> Option<PublishView> {
    match event {
        Event::Resume(StatusView::EventLoopCrash(publish)) if s.storage => Some(publish),
        Event::Data(Ok(package)) if s.storage && !(s.phase is Normal) => match package.serialized {
            Ok(bytes) => Some(
                PublishView {
                    dup: false,
                    qos: QoS::AtLeastOnce,
                    retain: false,
                    topic: package.topic,
                    pkid: 0,
                    payload: bytes,
                },
            ),
            Err(_) => None,
        },
        _ => None,
    }
}

/// A run of the serializer: each event takes it from one state to the next.
pub struct Run {
    pub events: Seq<Event>,
    pub states: Seq<SerializerView>,
}

impl Run {
    /// Whether the run is one that can be: it begins before any mode is entered, every event can
    /// happen and has its effect, and modes are entered as the serializer demands, catchup first.
    pub open spec fn valid(self) -> bool {
        &&& self.states.len() == self.events.len() + 1
        &&& self.states[0].phase is Idle
        &&& forall|i: int| 0 <= i < self.events.len() ==> #[trigger] self.moves(i)
    }

    /// Whether the event at the index can happen and has its effect, and enters no mode but the
    /// one that the serializer demands.
    pub open spec fn moves(self, i: int) -> bool {
        &&& enabled(self.states[i], self.events[i])
        &&& self.states[i + 1] == step(self.states[i], self.events[i]).next
        &&& self.events[i] matches Event::Resume(status) ==> if i == 0 {
            status is EventLoopReady
        } else {
            step(self.states[i - 1], self.events[i - 1]).action == ActionView::Done(status)
        }
    }

    /// All bytes that the first `n` events appended to the write buffer of storage.
    pub open spec fn written(self, n: nat) -> Seq<u8>
        decreases n,
    {
        if n == 0 {
            seq![]
        } else {
            self.written((n - 1) as nat) + step(self.states[n - 1], self.events[n - 1]).written
        }
    }

    /// The packets that the first `n` events wrote to storage, in order.
    pub open spec fn stored(self, n: nat) -> Seq<PublishView>
        decreases n,
    {
        if n == 0 {
            seq![]
        } else {
            let before = self.stored((n - 1) as nat);
            match stored_packet(self.states[n - 1], self.events[n - 1]) {
                Some(publish) => before.push(publish),
                None => before,
            }
        }
    }
}

/// A step keeps the state well-formed, and never changes the configuration.
pub proof fn law_step_keeps_configuration(s: SerializerView, event: Event)
    requires
        s.wf(),
        enabled(s, event),
    ensures
        step(s, event).next.wf(),
        step(s, event).next.at(s.phase) == s,
{
}

/// Every action announces the events that may follow it, so that a program that performs the
/// action and reports its outcome never reports what the serializer does not await.
pub proof fn law_action_announces_event(s: SerializerView, event: Event)
    requires
        s.wf(),
        enabled(s, event),
    ensures
        ({
            let next = step(s, event).next;
            match step(s, event).action {
                ActionView::Wait => next.awaits_data(),
                ActionView::TryPublish(_) => next.awaits_try_publish(),
                ActionView::Publish(_) | ActionView::PublishBytes(_) => {
                    &&& next.awaits_data()
                    &&& next.awaits_publish()
                },
                ActionView::Flush => next.awaits_flush(),
                ActionView::Reload => next.phase is Reloading,
                ActionView::Read => next.phase is Reading,
                ActionView::SampleSerializerMetrics => next.phase is SamplingSerializer,
                ActionView::SampleStreamMetrics => next.phase is SamplingStreams,
                ActionView::Done(_) => next.phase is Idle,
                ActionView::Stop(_) => next.phase is Stopped,
            }
        }),
{
}

/// A serializer that has not failed can always go on.
pub proof fn law_no_dead_end(s: SerializerView)
    requires
        s.wf(),
    ensures
        s.phase is Stopped <==> !exists|event: Event| enabled(s, event),
{
    let received = Event::Data(Err(RecvError));
    let woken = Event::Resume(StatusView::Normal);
    let failed = Err::<Seq<u8>, Seq<char>>(seq![]);
    match s.phase {
        Phase::Stopped => {},
        Phase::Idle => assert(enabled(s, woken)),
        Phase::SamplingSerializer => assert(enabled(s, Event::SerializerSample(failed))),
        Phase::SamplingStreams => assert(enabled(s, Event::StreamSample(None))),
        Phase::Forwarding { .. } | Phase::ReportingSerializer | Phase::ReportingStreams => {
            assert(enabled(s, Event::TryPublish(Ok(()))));
        },
        Phase::SlowFlush | Phase::SendingFlush | Phase::CrashFlush => {
            assert(enabled(s, Event::Flush(false)));
        },
        Phase::Reloading { .. } => assert(enabled(s, Event::Reload(Some(true)))),
        Phase::Reading { .. } => assert(enabled(s, Event::Read(Err(seq![])))),
        Phase::Normal | Phase::Slow | Phase::Sending | Phase::Crash => {
            assert(enabled(s, received));
        },
    }
}

/// A mode ends only as the state diagram has it: normal mode with a slow network, slow mode and
/// catchup with a network that is back or has crashed. Crash mode never ends; without storage,
/// catchup ends at once.
pub proof fn law_modes_follow_diagram(s: SerializerView, event: Event, status: StatusView)
    requires
        s.wf(),
        enabled(s, event),
        step(s, event).action == ActionView::Done(status),
    ensures
        match mode(s.phase) {
            Mode::Normal => status is SlowEventloop,
            Mode::Slow => status is EventLoopReady || status is EventLoopCrash,
            Mode::Catchup => status is Normal || status is EventLoopCrash,
            Mode::Idle => {
                &&& event == Event::Resume(StatusView::EventLoopReady)
                &&& !s.storage
                &&& status is Normal
            },
            Mode::Crash | Mode::Stopped => false,
        },
        step(s, event).next.phase is Idle,
{
}

/// Between the status that enters it and the status that ends it, the mode stays the same: a step
/// from within a mode leads to the same mode, to the end of it, or to failure.
pub proof fn law_mode_is_kept(s: SerializerView, event: Event)
    requires
        s.wf(),
        enabled(s, event),
        !(s.phase is Idle),
    ensures
        ({
            let next = step(s, event).next;
            ||| mode(next.phase) == mode(s.phase)
            ||| next.phase is Idle && step(s, event).action is Done
            ||| next.phase is Stopped && step(s, event).action is Stop
        }),
{
}

/// A status is followed by the mode that it calls for; only for want of storage is catchup
/// skipped, and crash mode refused.
pub proof fn law_status_enters_its_mode(s: SerializerView, status: StatusView)
    requires
        s.wf(),
        s.phase is Idle,
    ensures
        ({
            let t = resume_step(s, status);
            ||| mode(t.next.phase) == mode_after(status)
            ||| !s.storage && status is EventLoopReady && t.action == ActionView::Done(
                StatusView::Normal,
            )
            ||| !s.storage && status is EventLoopCrash && t.action == ActionView::Stop(
                ErrorView::MissingPersistence,
            )
        }),
{
}

/// Once the network has crashed, the serializer stores data until it fails: no later state of a
/// run is outside crash mode, unless it has stopped.
pub proof fn law_crash_is_final(run: Run, i: int, j: int)
    requires
        run.valid(),
        0 <= i <= j < run.states.len(),
        mode(run.states[i].phase) == Mode::Crash,
    ensures
        mode(run.states[j].phase) == Mode::Crash || run.states[j].phase is Stopped,
    decreases j,
{
    if i < j {
        law_crash_is_final(run, i, j - 1);
        law_runs_keep_configuration(run, j - 1);
        assert(run.moves(j - 1));
    }
}

/// All states of a run are well-formed and share the configuration of the first.
pub proof fn law_runs_keep_configuration(run: Run, i: int)
    requires
        run.valid(),
        0 <= i < run.states.len(),
    ensures
        run.states[i].wf(),
        run.states[i].at(Phase::Idle) == run.states[0],
    decreases i,
{
    if i > 0 {
        law_runs_keep_configuration(run, i - 1);
        assert(run.moves(i - 1));
        law_step_keeps_configuration(run.states[i - 1], run.events[i - 1]);
    }
}

/// Without storage, no run ever comes to catching up or to crash mode.
pub proof fn law_no_storage_no_disk_modes(run: Run, i: int)
    requires
        run.valid(),
        0 <= i < run.states.len(),
        !run.states[0].storage,
    ensures
        mode(run.states[i].phase) != Mode::Catchup,
        mode(run.states[i].phase) != Mode::Crash,
        run.written(i as nat) == Seq::<u8>::empty(),
    decreases i,
{
    law_runs_keep_configuration(run, i);
    if i > 0 {
        law_no_storage_no_disk_modes(run, i - 1);
        law_runs_keep_configuration(run, i - 1);
        assert(run.moves(i - 1));
        assert(run.written((i - 1) as nat) + seq![] =~= seq![]);
    }
}

/// No package is lost without notice: where its points can be serialized, it is offered to the
/// network in normal mode, and written to storage in any other. Only a slow network without
/// storage loses it.
pub proof fn law_every_package_is_sent_or_stored(
    s: SerializerView,
    package: PackageView,
    publish: PublishView,
)
    requires
        s.wf(),
        s.awaits_data(),
        constructed(package) == Ok::<PublishView, Seq<char>>(publish),
        s.storage || !(s.phase is Slow),
    ensures
        ({
            let t = data_step(s, Ok(package));
            if s.phase is Normal {
                t.action == ActionView::TryPublish(
                    MessageView::outgoing(package.topic, publish.payload),
                )
            } else {
                &&& t.written == on_disk(publish)
                &&& publish.stored().encodable() ==> t.action is Flush
                &&& publish.topic == package.topic
            }
        }),
{
}

/// A slow network without storage is the one place where data is lost: whatever arrives then
/// changes nothing, not even if the collectors are gone.
pub proof fn law_slow_network_without_storage_loses_data(
    s: SerializerView,
    received: Result<PackageView, RecvError>,
)
    requires
        s.phase is Slow,
        !s.storage,
    ensures
        data_step(s, received) == s.acts(Phase::Slow, ActionView::Wait),
{
}

/// What the network does not take at once is published next, and if that fails, what is handed
/// back is the first thing that crash mode stores.
pub proof fn law_refused_packet_is_kept(s: SerializerView, refused: PublishView, failed: PublishView)
    requires
        s.wf(),
        s.phase is Forwarding,
    ensures
        ({
            let offered = try_publish_step(
                s,
                Err(MqttErrorView::TrySend(RequestView::Publish(refused))),
            );
            let slow = resume_step(offered.next, StatusView::SlowEventloop(refused));
            let ended = publish_step(
                slow.next,
                Err(MqttErrorView::Send(RequestView::Publish(failed))),
            );
            let crash = resume_step(ended.next, StatusView::EventLoopCrash(failed));
            &&& offered.action == ActionView::Done(StatusView::SlowEventloop(refused))
            &&& slow.action == ActionView::Publish(
                MessageView::outgoing(refused.topic, refused.payload),
            )
            &&& slow.next.awaits_publish()
            &&& ended.action == ActionView::Done(StatusView::EventLoopCrash(failed))
            &&& if s.storage {
                crash.written == on_disk(failed)
            } else {
                crash.action == ActionView::Stop(ErrorView::MissingPersistence)
            }
        }),
{
}

/// Everything that is handed to the network is to be delivered at least once and not retained.
pub proof fn law_messages_are_at_least_once(s: SerializerView, event: Event)
    requires
        enabled(s, event),
    ensures
        match step(s, event).action {
            ActionView::TryPublish(message)
            | ActionView::Publish(message)
            | ActionView::PublishBytes(message) => {
                &&& message.qos == QoS::AtLeastOnce
                &&& !message.retain
            },
            _ => true,
        },
{
}

/// Metrics that are not kept are never updated, and crash mode updates none at all.
pub proof fn law_only_kept_metrics_are_updated(s: SerializerView, event: Event, i: int)
    requires
        s.wf(),
        enabled(s, event),
        0 <= i < step(s, event).metrics.len(),
    ensures
        match step(s, event).metrics[i] {
            MetricView::UpdateStream(_, _, _) | MetricView::ClearStreamMetrics =>
            s.stream_topic is Some,
            _ => s.metered(),
        },
        mode(s.phase) != Mode::Crash,
{
}

/// The size on disk grows by the payload of every packet that arrives and is stored, but for those
/// of crash mode, and by nothing else.
pub proof fn law_disk_size_counts_stored_payloads(s: SerializerView, event: Event, size: usize)
    requires
        s.wf(),
        enabled(s, event),
    ensures
        step(s, event).metrics.contains(MetricView::AddTotalDiskSize(size)) <==> {
            &&& s.metered()
            &&& event is Data
            &&& mode(s.phase) != Mode::Crash
            &&& stored_packet(s, event) matches Some(publish)
            &&& publish.stored().encodable()
            &&& size == publish.payload.len() as usize
        },
{
    let t = step(s, event);
    if event is Data && t.action is Flush && mode(s.phase) != Mode::Crash && s.metered() {
        assert(t.metrics.last() is AddTotalDiskSize);
        assert(forall|i: int|
            0 <= i < t.metrics.len() - 1 ==> !(#[trigger] t.metrics[i] is AddTotalDiskSize));
    } else {
        assert(forall|i: int|
            0 <= i < t.metrics.len() ==> !(#[trigger] t.metrics[i] is AddTotalDiskSize));
    }
}

/// Bytes go to storage for a stored packet and for nothing else.
pub proof fn law_only_packets_are_written(s: SerializerView, event: Event)
    requires
        s.wf(),
        enabled(s, event),
    ensures
        step(s, event).written == match stored_packet(s, event) {
            Some(publish) => on_disk(publish),
            None => Seq::<u8>::empty(),
        },
{
    assert(step(s, event).written =~= match stored_packet(s, event) {
        Some(publish) => on_disk(publish),
        None => Seq::<u8>::empty(),
    });
}

/// The concatenation of what stands in storage for each of the packets.
pub open spec fn segment(publishes: Seq<PublishView>) -> Seq<u8>
    decreases publishes.len(),
{
    if publishes.len() == 0 {
        seq![]
    } else {
        segment(publishes.drop_last()) + on_disk(publishes.last())
    }
}

/// Over a run, storage is handed exactly the stored packets, one after the other.
pub proof fn law_storage_holds_what_was_stored(run: Run, n: nat)
    requires
        run.valid(),
        n <= run.events.len(),
    ensures
        run.written(n) == segment(run.stored(n)),
    decreases n,
{
    if n > 0 {
        let m = (n - 1) as nat;
        law_storage_holds_what_was_stored(run, m);
        law_runs_keep_configuration(run, m as int);
        assert(run.moves(m as int));
        let (s, event) = (run.states[m as int], run.events[m as int]);
        law_only_packets_are_written(s, event);
        match stored_packet(s, event) {
            Some(publish) => {
                assert(run.stored(m).push(publish).drop_last() =~= run.stored(m));
            },
            None => {
                assert(run.written(m) + seq![] =~= run.written(m));
            },
        }
    }
}

/// What decoding `count` packets in turn gives, and the bytes it leaves.
pub open spec fn drained(bytes: Seq<u8>, max_size: usize, count: nat) -> (
    Seq<Result<PacketView, Seq<char>>>,
    Seq<u8>,
)
    decreases count,
{
    if count == 0 {
        (seq![], bytes)
    } else {
        let (packet, rest) = parsed_packet(bytes, max_size);
        let (packets, left) = drained(rest, max_size, (count - 1) as nat);
        (seq![packet] + packets, left)
    }
}

/// Whether a packet comes out of storage as it was stored, which is what writing it establishes.
pub open spec fn recoverable(publish: PublishView, max_size: usize) -> bool {
    &&& reads_back(publish.stored().kept(), on_disk(publish))
    &&& publish.stored().kept().remaining_length() <= max_size
}

proof fn lemma_segment_first(publishes: Seq<PublishView>)
    requires
        publishes.len() > 0,
    ensures
        segment(publishes) == on_disk(publishes[0]) + segment(publishes.drop_first()),
    decreases publishes.len(),
{
    if publishes.len() == 1 {
        assert(publishes.drop_last() =~= seq![]);
        assert(publishes.drop_first() =~= seq![]);
        assert(segment(publishes) =~= on_disk(publishes[0]) + segment(publishes.drop_first()));
    } else {
        lemma_segment_first(publishes.drop_last());
        assert(publishes.drop_last().drop_first() =~= publishes.drop_first().drop_last());
        assert(segment(publishes) =~= on_disk(publishes[0]) + segment(publishes.drop_first()));
    }
}

/// Storage is a queue: packets that were stored one after the other are read back in that order,
/// each as it was stored, and what follows them is left alone.
pub proof fn law_storage_is_a_queue(publishes: Seq<PublishView>, tail: Seq<u8>, max_size: usize)
    requires
        forall|i: int|
            0 <= i < publishes.len() ==> recoverable(#[trigger] publishes[i], max_size),
    ensures
        drained(segment(publishes) + tail, max_size, publishes.len()) == (
            publishes.map_values(
                |publish: PublishView|
                    Ok::<PacketView, Seq<char>>(PacketView::Publish(publish.stored().kept())),
            ),
            tail,
        ),
    decreases publishes.len(),
{
    let read = |publish: PublishView|
        Ok::<PacketView, Seq<char>>(PacketView::Publish(publish.stored().kept()));
    if publishes.len() == 0 {
        assert(segment(publishes) + tail =~= tail);
        assert(publishes.map_values(read) =~= seq![]);
    } else {
        let first = publishes[0];
        let others = publishes.drop_first();
        lemma_segment_first(publishes);
        assert(recoverable(first, max_size));
        assert(segment(publishes) + tail =~= on_disk(first) + (segment(others) + tail));
        assert forall|i: int| 0 <= i < others.len() implies recoverable(
            #[trigger] others[i],
            max_size,
        ) by {
            assert(others[i] == publishes[i + 1]);
        }
        law_storage_is_a_queue(others, tail, max_size);
        assert(publishes.map_values(read) =~= seq![read(first)] + others.map_values(read));
    }
}

/// Nothing that a run stored is lost or reordered: decoding what it wrote to storage gives back
/// every stored packet, in order, as long as all of them can be read back.
pub proof fn law_stored_data_is_recovered(run: Run, n: nat, max_size: usize)
    requires
        run.valid(),
        n <= run.events.len(),
        forall|i: int|
            0 <= i < run.stored(n).len() ==> recoverable(#[trigger] run.stored(n)[i], max_size),
    ensures
        drained(run.written(n), max_size, run.stored(n).len()) == (
            run.stored(n).map_values(
                |publish: PublishView|
                    Ok::<PacketView, Seq<char>>(PacketView::Publish(publish.stored().kept())),
            ),
            Seq::<u8>::empty(),
        ),
{
    law_storage_holds_what_was_stored(run, n);
    law_storage_is_a_queue(run.stored(n), seq![], max_size);
    assert(run.written(n) + seq![] =~= run.written(n));
}

/// What was stored goes out unchanged: the packet at the front of storage is the next to be
/// published, with the topic and payload that it was stored with.
pub proof fn law_stored_packet_is_sent_unchanged(
    s: SerializerView,
    publish: PublishView,
    tail: Seq<u8>,
)
    requires
        s.phase is Reading,
        recoverable(publish, s.max_packet_size),
    ensures
        ({
            let (packet, rest) = parsed_packet(on_disk(publish) + tail, s.max_packet_size);
            &&& rest == tail
            &&& read_step(s, packet).action == ActionView::PublishBytes(
                MessageView::outgoing(publish.topic, publish.payload),
            )
            &&& read_step(s, packet).next == s.at(Phase::Sending)
        }),
{
    assert(parsed_packet(on_disk(publish) + tail, s.max_packet_size) == (
        Ok::<PacketView, Seq<char>>(PacketView::Publish(publish.stored().kept())),
        tail,
    ));
}

/// Catchup goes from one stored packet to the next: each publish that succeeds is followed by the
/// next packet in storage, until nothing is left or storage fails.
pub proof fn law_catchup_goes_on(s: SerializerView, publish: PublishView)
    requires
        s.wf(),
        s.phase is Sending,
    ensures
        ({
            let sent = publish_step(s, Ok(()));
            let found = reload_step(sent.next, Some(false));
            let loaded = read_step(found.next, Ok(PacketView::Publish(publish)));
            &&& sent.action is Reload
            &&& found.action is Read
            &&& loaded.action == ActionView::PublishBytes(
                MessageView::outgoing(publish.topic, publish.payload),
            )
            &&& loaded.next == s
            &&& reload_step(sent.next, Some(true)) == sent.next.done(StatusView::Normal)
            &&& reload_step(sent.next, None) == sent.next.done(StatusView::Normal)
        }),
{
}

/// Storing data does not disturb a mode: once storage has been flushed, the serializer is where it
/// was.
pub proof fn law_storing_keeps_mode(s: SerializerView, package: PackageView, lost_segment: bool)
    requires
        s.wf(),
        s.storage,
        s.awaits_data(),
        !(s.phase is Normal),
        constructed(package) is Ok,
    ensures
        ({
            let t = data_step(s, Ok(package));
            ||| t.action is Wait && t.next == s
            ||| t.action is Flush && t.next.awaits_flush() && flush_step(
                t.next,
                lost_segment,
            ).next == s
        }),
{
}

/// The message that the packet goes out as.
pub open spec fn message(publish: PublishView) -> MessageView {
    MessageView {
        topic: publish.topic,
        qos: QoS::AtLeastOnce,
        retain: false,
        payload: publish.payload,
    }
}

/// The messages that packets go out as.
pub open spec fn messages(publishes: Seq<PublishView>) -> Seq<MessageView> {
    publishes.map_values(|publish: PublishView| message(publish))
}

/// Where the data of a run is, with storage seen as a queue of packets.
pub struct Flow {
    /// The messages that arrived as packages, oldest first.
    pub arrived: Seq<MessageView>,
    /// The packets in storage, oldest first.
    pub queue: Seq<PublishView>,
    /// The message that the client was handed and has not accepted, if there is one.
    pub handed: Option<MessageView>,
    /// The messages that the client has accepted, oldest first.
    pub accepted: Seq<MessageView>,
}

impl Flow {
    /// A run starts with what earlier ones have left in storage.
    pub open spec fn start(stored: Seq<PublishView>) -> Flow {
        Flow { arrived: seq![], queue: stored, handed: None, accepted: seq![] }
    }

    /// Everything that has been accepted or is yet to be: first what the client has, then what it
    /// was handed, then what is stored.
    pub open spec fn all(self) -> Seq<MessageView> {
        self.accepted + (match self.handed {
            Some(message) => seq![message],
            None => seq![],
        }) + messages(self.queue)
    }
}

/// The message that arrives with the event, if any.
pub open spec fn arriving(event: Event) -> Option<MessageView> {
    match event {
        Event::Data(Ok(package)) => match package.serialized {
            Ok(bytes) => Some(
                MessageView {
                    topic: package.topic,
                    qos: QoS::AtLeastOnce,
                    retain: false,
                    payload: bytes,
                },
            ),
            Err(_) => None,
        },
        _ => None,
    }
}

/// The data that the client is handed after the event, if any. Reports on metrics do not count.
pub open spec fn handing(s: SerializerView, event: Event) -> Option<MessageView> {
    match step(s, event).action {
        ActionView::TryPublish(message) if event is Data => Some(message),
        ActionView::Publish(message) | ActionView::PublishBytes(message) => Some(message),
        _ => None,
    }
}

/// Whether the event is that the client has accepted data.
pub open spec fn accepting(s: SerializerView, event: Event) -> bool {
    match event {
        Event::TryPublish(Ok(_)) => s.phase is Forwarding,
        Event::Publish(Ok(_)) => true,
        _ => false,
    }
}

/// What the event does to the data.
pub open spec fn flow_step(flow: Flow, s: SerializerView, event: Event) -> Flow {
    Flow {
        arrived: match arriving(event) {
            Some(message) => flow.arrived.push(message),
            None => flow.arrived,
        },
        queue: match stored_packet(s, event) {
            Some(publish) => flow.queue.push(publish),
            None => if event is Read {
                flow.queue.drop_first()
            } else {
                flow.queue
            },
        },
        handed: match handing(s, event) {
            Some(message) => Some(message),
            None => if accepting(s, event) {
                None
            } else {
                flow.handed
            },
        },
        accepted: if accepting(s, event) {
            flow.accepted.push(flow.handed->0)
        } else {
            flow.accepted
        },
    }
}

/// Whether storage and the client do as they should in the event: what is stored stays there and
/// is read back in order until nothing is left, and what the client does not take it hands back.
pub open spec fn dependable(flow: Flow, s: SerializerView, event: Event) -> bool {
    &&& stored_packet(s, event) matches Some(publish) ==> publish.stored().encodable()
    &&& match event {
        Event::Flush(lost_segment) => !lost_segment,
        Event::Reload(nothing_left) => nothing_left == Some(flow.queue.len() == 0),
        Event::Read(packet) => {
            &&& flow.queue.len() > 0
            &&& packet == Ok::<PacketView, Seq<char>>(
                PacketView::Publish(flow.queue[0].stored().kept()),
            )
        },
        Event::TryPublish(Err(MqttErrorView::TrySend(RequestView::Publish(publish)))) =>
        s.phase is Forwarding ==> flow.handed == Some(message(publish)),
        Event::Publish(Err(MqttErrorView::Send(RequestView::Publish(publish)))) => flow.handed
            == Some(message(publish)),
        _ => true,
    }
}

impl Run {
    /// Where the data is after the first `n` events, if storage held `stored` before them.
    pub open spec fn flow(self, stored: Seq<PublishView>, n: nat) -> Flow
        decreases n,
    {
        if n == 0 {
            Flow::start(stored)
        } else {
            let before = self.flow(stored, (n - 1) as nat);
            flow_step(before, self.states[n - 1], self.events[n - 1])
        }
    }

    /// Whether storage and the client do as they should in the first `n` events.
    pub open spec fn depends(self, stored: Seq<PublishView>, n: nat) -> bool
        decreases n,
    {
        n > 0 ==> {
            let m = (n - 1) as nat;
            &&& self.depends(stored, m)
            &&& dependable(self.flow(stored, m), self.states[n - 1], self.events[n - 1])
        }
    }

    /// Whether nothing is sent any more: the network has crashed, or the serializer has failed.
    pub open spec fn ended(self, n: nat) -> bool {
        let s = self.states[n as int];
        ||| mode(s.phase) == Mode::Crash
        ||| s.phase is Stopped
        ||| s.phase is Idle && n > 0 && step(
            self.states[n - 1],
            self.events[n - 1],
        ).action matches ActionView::Done(StatusView::EventLoopCrash(_))
    }

    /// What the mode says about where the data is.
    spec fn placed(self, flow: Flow, n: nat) -> bool {
        match self.states[n as int].phase {
            Phase::Idle => n > 0 ==> match step(self.states[n - 1], self.events[n - 1]).action {
                ActionView::Done(StatusView::Normal) => flow.handed is None && flow.queue.len()
                    == 0,
                ActionView::Done(StatusView::SlowEventloop(publish)) => flow.handed == Some(
                    message(publish),
                ),
                ActionView::Done(StatusView::EventLoopReady) => flow.handed is None,
                _ => true,
            },
            Phase::Forwarding { .. } => flow.handed is Some && flow.queue.len() == 0,
            Phase::Slow | Phase::SlowFlush | Phase::Sending | Phase::SendingFlush =>
            flow.handed is Some,
            Phase::Reloading { .. } => flow.handed is None,
            Phase::Reading { .. } => flow.handed is None && flow.queue.len() > 0,
            _ => flow.handed is None && flow.queue.len() == 0,
        }
    }
}

proof fn lemma_data_is_placed(run: Run, stored: Seq<PublishView>, n: nat)
    requires
        run.valid(),
        run.states[0].storage,
        n <= run.events.len(),
        run.depends(stored, n),
        !run.ended(n),
    ensures
        run.flow(stored, n).all() == messages(stored) + run.flow(stored, n).arrived,
        run.placed(run.flow(stored, n), n),
    decreases n,
{
    let flow = run.flow(stored, n);
    if n == 0 {
        assert(flow.all() =~= messages(stored) + flow.arrived);
    } else {
        let m = (n - 1) as nat;
        let (before, s, event) = (run.flow(stored, m), run.states[m as int], run.events[m as int]);
        assert(run.moves(m as int));
        law_runs_keep_configuration(run, m as int);
        assert(!run.ended(m));
        lemma_data_is_placed(run, stored, m);
        if event is Read {
            let read = before.queue[0];
            assert(message(read.stored().kept()) == message(read));
            assert(messages(before.queue) =~= seq![message(read)] + messages(flow.queue));
        } else if stored_packet(s, event) is Some {
            let publish = stored_packet(s, event)->0;
            assert(messages(flow.queue) =~= messages(before.queue).push(message(publish)));
            assert(flow.arrived == before.arrived.push(message(publish)));
            assert(flow.all() =~= before.all().push(message(publish)));
        }
        assert(flow.all() =~= messages(stored) + flow.arrived);
    }
}

/// Where storage and the client do as they should, the client accepts what was stored before the
/// run and then what arrived, each message once and in order; and until the run has ended,
/// whatever it has not accepted is with it or in storage.
pub proof fn law_data_is_accepted_in_order(run: Run, stored: Seq<PublishView>, n: nat)
    requires
        run.valid(),
        run.states[0].storage,
        n <= run.events.len(),
        run.depends(stored, n),
    ensures
        ({
            let flow = run.flow(stored, n);
            let due = messages(stored) + flow.arrived;
            &&& flow.accepted.is_prefix_of(due)
            &&& run.ended(n) || flow.all() == due
        }),
    decreases n,
{
    let flow = run.flow(stored, n);
    let due = messages(stored) + flow.arrived;
    if run.ended(n) {
        let m = (n - 1) as nat;
        law_data_is_accepted_in_order(run, stored, m);
        law_runs_keep_configuration(run, m as int);
        assert(run.moves(m as int));
        let before = run.flow(stored, m);
        assert(flow.accepted == before.accepted);
        assert(due.subrange(0, before.accepted.len() as int) =~= (messages(stored)
            + before.arrived).subrange(0, before.accepted.len() as int));
    } else {
        lemma_data_is_placed(run, stored, n);
        assert(flow.all().subrange(0, flow.accepted.len() as int) =~= flow.accepted);
    }
}

/// A crash of the network loses nothing, where storage and the client do as they should: the message
/// that the client was handed and did not accept is in storage, and it, with what the client has
/// accepted before it and with the rest of storage after it, in order, is everything that was due.
pub proof fn law_crash_loses_nothing(run: Run, stored: Seq<PublishView>, n: nat)
    requires
        run.valid(),
        run.states[0].storage,
        n <= run.events.len(),
        run.depends(stored, n),
        mode(run.states[n as int].phase) == Mode::Crash,
    ensures
        exists|k: int| #[trigger] failed_at(run.flow(stored, n), k, stored),
    decreases n,
{
    let m = (n - 1) as nat;
    let (s, event) = (run.states[m as int], run.events[m as int]);
    let (before, flow) = (run.flow(stored, m), run.flow(stored, n));
    assert(run.moves(m as int));
    law_runs_keep_configuration(run, m as int);
    if s.phase is Idle {
        let earlier = (n - 2) as nat;
        assert(run.moves(earlier as int));
        law_runs_keep_configuration(run, earlier as int);
        assert(run.depends(stored, m));
        lemma_data_is_placed(run, stored, earlier);
        let k = before.queue.len() as int;
        assert(flow.queue.take(k) =~= before.queue);
        assert(flow.queue.skip(k + 1) =~= seq![]);
        assert(messages(flow.queue.skip(k + 1)) =~= seq![]);
        assert(run.flow(stored, earlier).all() == messages(stored) + flow.arrived);
        assert(flow.accepted + seq![message(flow.queue[k])] + messages(flow.queue.take(k))
            + messages(flow.queue.skip(k + 1)) =~= messages(stored) + flow.arrived);
        assert(failed_at(flow, k, stored));
    } else {
        law_crash_loses_nothing(run, stored, m);
        let k = choose|k: int| #[trigger] failed_at(before, k, stored);
        if stored_packet(s, event) is Some {
            let publish = stored_packet(s, event)->0;
            assert(flow.queue.take(k) =~= before.queue.take(k));
            assert(flow.queue.skip(k + 1) =~= before.queue.skip(k + 1).push(publish));
            assert(messages(flow.queue.skip(k + 1)) =~= messages(before.queue.skip(k + 1)).push(
                message(publish),
            ));
            let all = before.accepted + seq![message(before.queue[k])] + messages(
                before.queue.take(k),
            ) + messages(before.queue.skip(k + 1));
            assert(all.push(message(publish)) =~= messages(stored) + flow.arrived);
            assert(flow.accepted + seq![message(flow.queue[k])] + messages(flow.queue.take(k))
                + messages(flow.queue.skip(k + 1)) =~= all.push(message(publish)));
        }
        assert(failed_at(flow, k, stored));
    }
}

/// Whether the packet at the position in storage is the one that the network failed to take, after
/// everything that was accepted and before everything else in storage, and all of these together
/// are what was stored before the run and then what arrived.
pub open spec fn failed_at(flow: Flow, k: int, stored: Seq<PublishView>) -> bool {
    &&& 0 <= k < flow.queue.len()
    &&& flow.handed == Some(message(flow.queue[k]))
    &&& flow.accepted + seq![message(flow.queue[k])] + messages(flow.queue.take(k)) + messages(
        flow.queue.skip(k + 1),
    ) == messages(stored) + flow.arrived
}

} // verus!
