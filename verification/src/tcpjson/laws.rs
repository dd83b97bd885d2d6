//! What holds of the bridge as a whole.

use vstd::prelude::*;

use super::model::{
    accept_step, action_step, bind_step, cancel_step, collect_step, fill_step, flush_due_step,
    flush_step, frame_step, start_step, stray_action_step, timeout_step, write_step, BridgeView,
    PhaseView,
};
use super::payload::PayloadView;
use super::types::{
    CommandView, FlushState, FrameView, StepView, ACTION_STATUS, FIRST_TIMEOUT, MAX_STREAMS,
};
use crate::config::{distinct, stream_names, StreamConfigView};
use crate::package::RecvError;
use crate::stream::{
    added, after, law_points_are_sent_in_order, points, sent, Demand, StreamView,
};

verus! {

/// Everything that can happen to a bridge.
pub enum Event {
    Start,
    Bind(Option<Seq<char>>),
    Accept(bool),
    StrayAction(Result<Seq<char>, RecvError>),
    Frame(FrameView),
    Fill(Option<bool>),
    Cancel(Option<Seq<char>>),
    Action(Result<CommandView, RecvError>),
    Write(Option<Seq<char>>),
    Timeout,
    FlushDue(Seq<char>),
    Flush(Option<Seq<char>>),
}

/// Whether the event can happen in the state.
pub open spec fn enabled(s: BridgeView, event: Event) -> bool {
    match event {
        Event::Start => s.phase is Down,
        Event::Bind(_) => s.phase is Binding,
        Event::Accept(_) | Event::StrayAction(_) => s.phase is Accepting,
        Event::Frame(_) | Event::Action(_) | Event::FlushDue(_) => s.phase is Collecting,
        Event::Timeout => s.phase is Collecting && s.current_action is Some,
        Event::Fill(_) => s.phase is Filling,
        Event::Cancel(_) => s.phase is Cancelling,
        Event::Write(_) => s.phase is Writing,
        Event::Flush(_) => s.phase is Flushing,
    }
}

/// What the event leads to.
pub open spec fn step(s: BridgeView, event: Event) -> (BridgeView, StepView) {
    match event {
        Event::Start => start_step(s),
        Event::Bind(failure) => bind_step(s, failure),
        Event::Accept(accepted) => accept_step(s, accepted),
        Event::StrayAction(received) => stray_action_step(s, received),
        Event::Frame(frame) => frame_step(s, frame),
        Event::Fill(flushed) => fill_step(s, flushed),
        Event::Cancel(failure) => cancel_step(s, failure),
        Event::Action(received) => action_step(s, received),
        Event::Write(failure) => write_step(s, failure),
        Event::Timeout => timeout_step(s),
        Event::FlushDue(stream) => flush_due_step(s, stream),
        Event::Flush(failure) => flush_step(s, failure),
    }
}

/// A run of the bridge: each event takes it from one state to the next.
pub struct Run {
    pub events: Seq<Event>,
    pub states: Seq<BridgeView>,
}

impl Run {
    /// Whether the run is one that can be: it begins with a bridge that has never listened, and
    /// every event can happen and has its effect.
    pub open spec fn valid(self) -> bool {
        &&& self.states.len() == self.events.len() + 1
        &&& self.states[0].phase is Down
        &&& distinct(self.states[0].configured)
        &&& self.states[0].current_action is None
        &&& self.states[0].partitions == Set::<Seq<char>>::empty()
        &&& self.states[0].flush_handles == Map::<Seq<char>, FlushState>::empty()
        &&& forall|i: int| 0 <= i < self.events.len() ==> #[trigger] self.moves(i)
    }

    /// Whether the event at the index can happen and has its effect.
    pub open spec fn moves(self, i: int) -> bool {
        &&& enabled(self.states[i], self.events[i])
        &&& self.states[i + 1] == step(self.states[i], self.events[i]).0
    }
}

/// Every step announces the events that may follow it, so that a program that performs the step
/// and reports its outcome never reports what the bridge does not await.
pub proof fn law_step_announces_event(s: BridgeView, event: Event)
    requires
        enabled(s, event),
    ensures
        ({
            let phase = step(s, event).0.phase;
            match step(s, event).1 {
                StepView::Bind(_) => phase is Binding,
                StepView::Accept => phase is Accepting,
                StepView::Collect { streams, timeout } => phase is Collecting,
                StepView::Wait | StepView::Arm(_, _) => phase is Collecting,
                StepView::Respond(_, _) => {
                    &&& phase == s.phase
                    &&& phase is Accepting || phase is Collecting
                },
                StepView::Fill { payload, open } => phase == PhaseView::Filling(payload.stream),
                StepView::Cancel(_) => phase is Cancelling,
                StepView::Forward { timeout, line } => if line is Some {
                    phase is Writing
                } else {
                    phase is Collecting
                },
                StepView::Flush(_) => phase is Flushing,
                StepView::Disconnect(_) => phase is Down,
                StepView::Stop(_) => phase is Stopped,
            }
        }),
{
}

/// Whether the point is an answer to an action.
pub open spec fn is_answer(frame: FrameView) -> bool {
    frame matches FrameView::Point(payload) && payload.stream == ACTION_STATUS@
}

/// Whether the event settles an action: its answer is taken, or it times out.
pub open spec fn settles(s: BridgeView, event: Event) -> bool {
    match event {
        Event::Timeout => true,
        Event::Frame(frame) => is_answer(frame) && s.current_action is Some,
        _ => false,
    }
}

/// An answer that comes after its action has timed out is dropped.
pub proof fn law_late_answer_is_dropped(s: BridgeView, payload: PayloadView)
    requires
        s.phase is Collecting,
        s.current_action is Some,
        payload.stream == ACTION_STATUS@,
    ensures
        ({
            let late = timeout_step(s).0;
            frame_step(late, FrameView::Point(payload)) == (late, StepView::Wait)
        }),
{
}

/// An action is answered at most once, by the application or for it: between two answers there
/// is another action.
pub proof fn law_one_answer_per_action(run: Run, i: int, j: int)
    requires
        run.valid(),
        0 <= i < j < run.events.len(),
        settles(run.states[i], run.events[i]),
        settles(run.states[j], run.events[j]),
    ensures
        exists|k: int| i < k < j && #[trigger] run.events[k] is Action,
{
    if !exists|k: int| i < k < j && #[trigger] run.events[k] is Action {
        lemma_settled_until_next_action(run, i, j);
        assert(run.moves(j));
    }
}

proof fn lemma_settled_until_next_action(run: Run, i: int, j: int)
    requires
        run.valid(),
        0 <= i < j < run.states.len(),
        settles(run.states[i], run.events[i]),
        forall|k: int| i < k < j ==> !(#[trigger] run.events[k] is Action),
    ensures
        run.states[j].current_action is None,
    decreases j,
{
    assert(run.moves(j - 1));
    if i < j - 1 {
        lemma_settled_until_next_action(run, i, j - 1);
    }
}

/// The action to be answered is always the last one that was handed to the application.
pub proof fn law_newest_action_is_awaited(s: BridgeView, command: CommandView)
    requires
        s.phase is Collecting,
    ensures
        action_step(s, Ok(command)).0.current_action == Some(command.action_id),
{
}

/// An action outlives the connection on which it was sent: nothing but its answer, its timeout or
/// another action changes what is to be answered.
pub proof fn law_actions_outlive_connections(s: BridgeView, event: Event)
    requires
        enabled(s, event),
        !settles(s, event),
        !(event is Action),
    ensures
        step(s, event).0.current_action == s.current_action,
{
}

/// Without a connection, every action fails at once, and leaves no trace.
pub proof fn law_bridge_down_fails_actions(s: BridgeView, action_id: Seq<char>)
    requires
        s.phase is Accepting,
    ensures
        stray_action_step(s, Ok(action_id)) == (s, StepView::Respond(action_id, "Bridge down"@)),
{
}

/// A stream that is open stays open until another connection is served.
pub proof fn law_streams_stay_open(s: BridgeView, event: Event)
    requires
        enabled(s, event),
        event != Event::Accept(true),
    ensures
        s.partitions.subset_of(step(s, event).0.partitions),
{
}

/// A stream is opened at most once: once it has been handed a point, it is no longer new to any
/// later point.
pub proof fn law_stream_is_opened_once(
    s: BridgeView,
    first: PayloadView,
    later: BridgeView,
    second: PayloadView,
)
    requires
        s.phase is Collecting,
        frame_step(s, FrameView::Point(first)).1 is Fill,
        frame_step(s, FrameView::Point(first)).0.partitions.subset_of(later.partitions),
        later.phase is Collecting,
        second.stream == first.stream,
        second.stream != ACTION_STATUS@ || later.current_action is Some,
    ensures
        frame_step(later, FrameView::Point(second)).1 == (StepView::Fill {
            payload: second,
            open: None,
        }),
{
}

/// An open stream takes every point, but for answers that no action waits for; any other stream
/// is opened while there is room.
pub proof fn law_points_reach_their_stream(s: BridgeView, payload: PayloadView)
    requires
        s.phase is Collecting,
        payload.stream != ACTION_STATUS@ || s.current_action is Some,
    ensures
        match frame_step(s, FrameView::Point(payload)).1 {
            StepView::Fill { payload: filled, open } => {
                &&& filled == payload
                &&& open == if s.partitions.contains(payload.stream) {
                    None
                } else {
                    Some(s.origin)
                }
            },
            other => {
                &&& other is Wait
                &&& !s.partitions.contains(payload.stream)
                &&& s.partitions.len() > MAX_STREAMS
            },
        },
{
}

/// There are as many names as streams.
proof fn lemma_stream_names(streams: Seq<StreamConfigView>)
    requires
        distinct(streams),
    ensures
        stream_names(streams).finite(),
        stream_names(streams).len() == streams.len(),
{
    let names = streams.map_values(|stream: StreamConfigView| stream.name);
    assert forall|i: int, j: int|
        0 <= i < names.len() && 0 <= j < names.len() && i != j implies names[i] != names[j] by {
        assert(streams[i].name == names[i] && streams[j].name == names[j]);
    }
    names.unique_seq_to_set();
}

/// All states of a run share the configuration; the number of open streams stays within bounds,
/// and handles are kept for open streams only.
pub proof fn law_open_streams_are_bounded(run: Run, i: int)
    requires
        run.valid(),
        0 <= i < run.states.len(),
    ensures
        run.states[i].configured == run.states[0].configured,
        run.states[i].port == run.states[0].port,
        run.states[i].flush_period == run.states[0].flush_period,
        run.states[i].origin == run.states[0].origin,
        run.states[i].partitions.finite(),
        run.states[i].partitions.len() <= MAX_STREAMS + 1 || run.states[i].partitions.len()
            <= run.states[0].configured.len(),
        run.states[i].flush_handles.dom().subset_of(run.states[i].partitions),
        run.states[i].phase matches PhaseView::Filling(stream)
            ==> run.states[i].partitions.contains(stream),
    decreases i,
{
    if i > 0 {
        law_open_streams_are_bounded(run, i - 1);
        assert(run.moves(i - 1));
        lemma_stream_names(run.states[0].configured);
    }
}

/// A stream that was not flushed gets a flush scheduled where no handle is kept for it; where one
/// is scheduled, nothing changes; and where the last one was due, its handle goes. Once a stream
/// was flushed, no handle is kept for it, and where one was, its flush is to be cancelled.
pub proof fn law_handles_follow_flushes(s: BridgeView, stream: Seq<char>)
    requires
        s.phase == PhaseView::Filling(stream),
    ensures
        !s.keeps_handle(stream) ==> {
            &&& fill_step(s, Some(false)).1 == StepView::Arm(stream, s.period())
            &&& fill_step(s, Some(false)).0.scheduled(stream)
            &&& fill_step(s, Some(true)) == (s.at(PhaseView::Collecting), StepView::Wait)
        },
        s.scheduled(stream) ==> fill_step(s, Some(false)) == (
            s.at(PhaseView::Collecting),
            StepView::Wait,
        ),
        s.keeps_handle(stream) && !s.scheduled(stream) ==> {
            &&& fill_step(s, Some(false)).1 is Wait
            &&& !fill_step(s, Some(false)).0.keeps_handle(stream)
        },
        s.keeps_handle(stream) ==> fill_step(s, Some(true)).1 == StepView::Cancel(stream),
        !fill_step(s, Some(true)).0.keeps_handle(stream),
{
}

/// A flush that is due is performed and no longer scheduled, but no handle comes or goes with it.
pub proof fn law_due_flush_keeps_handles(s: BridgeView, stream: Seq<char>, other: Seq<char>)
    requires
        s.phase is Collecting,
        s.partitions.contains(stream),
    ensures
        ({
            let (next, action) = flush_due_step(s, stream);
            &&& action == StepView::Flush(stream)
            &&& !next.scheduled(stream)
            &&& next.keeps_handle(other) == s.keeps_handle(other)
            &&& other != stream ==> next.scheduled(other) == s.scheduled(other)
        }),
{
}

/// The handles of other streams are left alone.
pub proof fn law_fill_concerns_its_stream(
    s: BridgeView,
    stream: Seq<char>,
    flushed: Option<bool>,
    other: Seq<char>,
)
    requires
        s.phase == PhaseView::Filling(stream),
        other != stream,
    ensures
        fill_step(s, flushed).0.keeps_handle(other) == s.keeps_handle(other),
        fill_step(s, flushed).0.scheduled(other) == s.scheduled(other),
{
}

/// A connection starts afresh, with the configured streams and no pending flush.
pub proof fn law_connection_starts_afresh(s: BridgeView)
    requires
        s.phase is Accepting,
    ensures
        accept_step(s, true) == collect_step(s),
        accept_step(s, true).0.partitions == stream_names(s.configured),
        accept_step(s, true).1 == (StepView::Collect {
            streams: s.configured,
            timeout: FIRST_TIMEOUT,
        }),
        accept_step(s, true).0.flush_handles == Map::<Seq<char>, FlushState>::empty(),
        accept_step(s, true).0.current_action == s.current_action,
{
}

impl Run {
    /// What the program is to do after the event at the index.
    pub open spec fn action(self, i: int) -> StepView {
        step(self.states[i], self.events[i]).1
    }
}

/// Whether the step ends a scheduled flush of the stream: the flush is cancelled or performed, or
/// the connection it was scheduled on has made way for another.
pub open spec fn unschedules(action: StepView, stream: Seq<char>) -> bool {
    ||| action == StepView::Cancel(stream)
    ||| action == StepView::Flush(stream)
    ||| action is Collect
}

/// Whether the step schedules a flush of the stream.
pub open spec fn schedules(action: StepView, stream: Seq<char>) -> bool {
    action matches StepView::Arm(armed, _) && armed == stream
}

/// A stream never has two flushes scheduled: before another one is, the earlier one has been
/// cancelled or performed, or belonged to another connection.
pub proof fn law_one_flush_is_scheduled(run: Run, stream: Seq<char>, i: int, j: int)
    requires
        run.valid(),
        0 <= i < j < run.events.len(),
        schedules(run.action(i), stream),
        schedules(run.action(j), stream),
    ensures
        exists|k: int| i < k < j && unschedules(#[trigger] run.action(k), stream),
{
    if !exists|k: int| i < k < j && unschedules(#[trigger] run.action(k), stream) {
        lemma_scheduled_until_unscheduled(run, stream, i, j);
        assert(run.moves(j));
    }
}

proof fn lemma_scheduled_until_unscheduled(run: Run, stream: Seq<char>, i: int, j: int)
    requires
        run.valid(),
        0 <= i < j < run.states.len(),
        schedules(run.action(i), stream),
        forall|k: int| i < k < j ==> !unschedules(#[trigger] run.action(k), stream),
    ensures
        run.states[j].scheduled(stream),
    decreases j,
{
    assert(run.moves(j - 1));
    if i < j - 1 {
        lemma_scheduled_until_unscheduled(run, stream, i, j - 1);
        assert(!unschedules(run.action(j - 1), stream));
    }
}

/// Whether the line is accepted for the stream: it is a point of the stream, not an answer that no
/// action waits for, and the stream is open or can be opened.
pub open spec fn accepts(s: BridgeView, event: Event, stream: Seq<char>) -> bool {
    &&& event matches Event::Frame(FrameView::Point(payload))
    &&& payload.stream == stream
    &&& stream != "action_status"@ || s.current_action is Some
    &&& s.partitions.contains(stream) || s.partitions.len() <= 20
}

/// The lines that are accepted for the stream from one event of a run up to another.
pub open spec fn accepted(run: Run, stream: Seq<char>, from: int, to: int) -> Seq<PayloadView>
    decreases to - from,
{
    if to <= from {
        seq![]
    } else {
        let earlier = accepted(run, stream, from, to - 1);
        if accepts(run.states[to - 1], run.events[to - 1], stream) {
            earlier.push(run.events[to - 1]->Frame_0->Point_0)
        } else {
            earlier
        }
    }
}

/// What is asked of the stream from one event of a run up to another.
pub open spec fn demands(run: Run, stream: Seq<char>, from: int, to: int) -> Seq<
    Demand<PayloadView>,
>
    decreases to - from,
{
    if to <= from {
        seq![]
    } else {
        let earlier = demands(run, stream, from, to - 1);
        match run.action(to - 1) {
            StepView::Fill { payload, open } => if payload.stream == stream {
                earlier.push(Demand::Fill(payload))
            } else {
                earlier
            },
            StepView::Flush(due) => if due == stream {
                earlier.push(Demand::Flush)
            } else {
                earlier
            },
            _ => earlier,
        }
    }
}

/// The points that are handed to a stream over a run, or any part of it, are the lines that are
/// accepted for it, each once and in order.
pub proof fn law_accepted_lines_are_handed_over(run: Run, stream: Seq<char>, from: int, to: int)
    requires
        run.valid(),
        0 <= from <= to < run.states.len(),
    ensures
        added(demands(run, stream, from, to)) == accepted(run, stream, from, to),
    decreases to - from,
{
    if from < to {
        law_accepted_lines_are_handed_over(run, stream, from, to - 1);
        assert(run.moves(to - 1));
        let earlier = demands(run, stream, from, to - 1);
        let now = demands(run, stream, from, to);
        if now.len() > earlier.len() {
            assert(now.drop_last() =~= earlier);
        }
    }
}

impl Run {
    /// Whether the events from one to another are those of one connection.
    pub open spec fn one_connection(self, from: int, to: int) -> bool {
        &&& 0 <= from < to < self.states.len()
        &&& self.events[from] == Event::Accept(true)
        &&& forall|k: int| from < k < to ==> #[trigger] self.events[k] != Event::Accept(true)
    }

    /// Whether a flush of the stream was due in between.
    pub open spec fn flushes(self, stream: Seq<char>, from: int, to: int) -> bool {
        exists|k: int| from < k < to && #[trigger] self.action(k) == StepView::Flush(stream)
    }
}

/// A stream as it is opened for its configuration.
pub open spec fn opened(configured: StreamConfigView) -> StreamView<PayloadView> {
    StreamView {
        name: configured.name,
        topic: configured.topic,
        max_buffer_size: configured.buf_size,
        held: seq![],
    }
}

/// On a connection, the batches that are sent for a stream hold, put together, the first of the
/// lines that were accepted for it: none is lost, repeated, reordered or taken from another
/// stream. The rest, which is less than a full batch, waits in the stream.
pub proof fn law_batches_hold_accepted_lines(
    run: Run,
    stream: StreamView<PayloadView>,
    from: int,
    to: int,
)
    requires
        run.valid(),
        run.one_connection(from, to),
        stream.held.len() == 0,
    ensures
        ({
            let demands = demands(run, stream.name, from, to);
            let lines = accepted(run, stream.name, from, to);
            let held = after(stream, demands).held;
            &&& points(sent(stream, demands)).is_prefix_of(lines)
            &&& points(sent(stream, demands)) + held == lines
            &&& held.len() == 0 || held.len() < stream.max_buffer_size
        }),
{
    law_accepted_lines_are_handed_over(run, stream.name, from, to);
    let demands = demands(run, stream.name, from, to);
    law_points_are_sent_in_order(stream, demands);
    let batches = points(sent(stream, demands));
    let held = after(stream, demands).held;
    assert((batches + held).subrange(0, batches.len() as int) =~= batches);
}

/// A configured stream is opened as it is configured at the start of every connection, and its
/// batches carry the configured name and topic.
pub proof fn law_batches_carry_configured_topic(run: Run, i: int, from: int, to: int, j: int)
    requires
        run.valid(),
        run.one_connection(from, to),
        0 <= i < run.states[0].configured.len(),
        ({
            let stream = opened(run.states[0].configured[i]);
            0 <= j < sent(stream, demands(run, stream.name, from, to)).len()
        }),
    ensures
        run.action(from) == (StepView::Collect {
            streams: run.states[0].configured,
            timeout: FIRST_TIMEOUT,
        }),
        run.states[from + 1].partitions.contains(run.states[0].configured[i].name),
        ({
            let configured = run.states[0].configured[i];
            let stream = opened(configured);
            let batch = sent(stream, demands(run, stream.name, from, to))[j];
            batch.stream == configured.name && batch.topic == configured.topic
        }),
{
    let configured = run.states[0].configured[i];
    let stream = opened(configured);
    law_points_are_sent_in_order(stream, demands(run, stream.name, from, to));
    law_open_streams_are_bounded(run, from);
    assert(run.moves(from));
    let names = run.states[0].configured.map_values(|stream: StreamConfigView| stream.name);
    assert(names[i] == configured.name);
}

/// Whether what is reported of the fills of a stream is what the stream does: it is flushed
/// exactly where nothing is left waiting in it.
pub open spec fn truthful(run: Run, stream: StreamView<PayloadView>, from: int, to: int) -> bool {
    forall|k: int|
        #![trigger run.events[k]]
        from < k < to && run.events[k] is Fill && run.states[k].phase == PhaseView::Filling(
            stream.name,
        ) ==> run.events[k] == Event::Fill(
            Some(after(stream, demands(run, stream.name, from, k)).held.len() == 0),
        )
}

/// While points are waiting in a stream, a flush of it is scheduled, unless the last of them has
/// only just been handed over. Only a single point may wait without one, and only if a flush of
/// the stream was due before on the connection.
pub proof fn law_waiting_points_have_a_flush(
    run: Run,
    stream: StreamView<PayloadView>,
    from: int,
    to: int,
)
    requires
        run.valid(),
        run.one_connection(from, to),
        stream.held.len() == 0,
        truthful(run, stream, from, to),
        after(stream, demands(run, stream.name, from, to)).held.len() > 0,
    ensures
        ({
            let held = after(stream, demands(run, stream.name, from, to)).held;
            ||| run.states[to].scheduled(stream.name)
            ||| run.states[to].phase == PhaseView::Filling(stream.name)
            ||| held.len() == 1 && run.flushes(stream.name, from, to)
        }),
{
    lemma_waiting_points(run, stream, from, to);
}

proof fn lemma_waiting_points(run: Run, stream: StreamView<PayloadView>, from: int, to: int)
    requires
        run.valid(),
        run.one_connection(from, to),
        stream.held.len() == 0,
        truthful(run, stream, from, to),
    ensures
        ({
            let s = run.states[to];
            let held = after(stream, demands(run, stream.name, from, to)).held.len();
            let filling = s.phase == PhaseView::Filling(stream.name);
            let due = s.keeps_handle(stream.name) && !s.scheduled(stream.name);
            &&& due ==> run.flushes(stream.name, from, to)
            &&& due && filling ==> held <= 1
            &&& due && !filling ==> held == 0
            &&& held == 0 || filling || s.scheduled(stream.name) || held == 1 && run.flushes(
                stream.name,
                from,
                to,
            )
        }),
    decreases to - from,
{
    assert(run.moves(to - 1));
    let earlier = demands(run, stream.name, from, to - 1);
    let now = demands(run, stream.name, from, to);
    if now.len() > earlier.len() {
        assert(now.drop_last() =~= earlier);
    }
    if from < to - 1 {
        lemma_waiting_points(run, stream, from, to - 1);
        assert(run.events[to - 1] != Event::Accept(true));
        if run.flushes(stream.name, from, to - 1) {
            let k = choose|k: int|
                from < k < to - 1 && #[trigger] run.action(k) == StepView::Flush(stream.name);
            assert(run.action(k) == StepView::Flush(stream.name));
        }
        assert(run.action(to - 1) == StepView::Flush(stream.name) ==> run.flushes(
            stream.name,
            from,
            to,
        ));
    } else {
        assert(demands(run, stream.name, from, from).len() == 0);
    }
}

} // verus!
