//! What the bridge owes to the application, the cloud and the streams, event by event.

use vstd::prelude::*;

use super::bridge::failure;
use super::laws::{enabled, step, Event};
use super::model::{BridgeView, PhaseView};
use super::payload::PayloadView;
use super::types::{CommandView, ErrorView, FlushState, FrameView, StepView};
use crate::config::law_stream_names;
use crate::package::RecvError;
use crate::text::{decimal, is_digit, law_decimal_reads_back, number};

verus! {

/// The address to listen on is `0.0.0.0:` and then digits, which read as a number are the
/// configured port.
pub proof fn law_address_names_the_port(s: BridgeView)
    ensures
        step(s, Event::Start).1 matches StepView::Bind(address) && {
            &&& address.len() > 8
            &&& address.take(8) == seq!['0', '.', '0', '.', '0', '.', '0', ':']
            &&& forall|i: int| 8 <= i < address.len() ==> is_digit(#[trigger] address[i])
            &&& address[8] as int == 48 ==> address.len() == 9
            &&& number(address.skip(8)) == s.port
        },
{
    reveal_strlit("0.0.0.0:");
    law_decimal_reads_back(s.port as nat);
    let address = step(s, Event::Start).1->Bind_0;
    assert(address.take(8) =~= seq!['0', '.', '0', '.', '0', '.', '0', ':']);
    assert(address.skip(8) =~= decimal(s.port as nat));
}

/// Bridges with different ports listen on different addresses, whatever else they differ in.
pub proof fn law_different_ports_have_different_addresses(s: BridgeView, other: BridgeView)
    requires
        s.port != other.port,
    ensures
        step(s, Event::Start).1 != step(other, Event::Start).1,
{
    law_address_names_the_port(s);
    law_address_names_the_port(other);
}

/// A bridge that listens awaits a connection; one that cannot has failed, for the reason given.
pub proof fn law_listening_succeeds_or_stops(s: BridgeView, text: Seq<char>)
    ensures
        step(s, Event::Start).0.phase is Binding,
        step(s, Event::Bind(None)).0.phase is Accepting,
        step(s, Event::Bind(None)).1 is Accept,
        step(s, Event::Bind(Some(text))).0.phase is Stopped,
        step(s, Event::Bind(Some(text))).1 == StepView::Stop(ErrorView::Io(text)),
{
}

/// A connection that fails to come leaves everything as it was; the next one is awaited.
pub proof fn law_failed_connection_changes_nothing(s: BridgeView)
    ensures
        step(s, Event::Accept(false)) == (s, StepView::Accept),
{
}

/// A connection begins with exactly the configured streams open, as they are configured, with no
/// handle kept, and with 100 seconds for what is still unanswered.
pub proof fn law_connection_opens_configured_streams(s: BridgeView, name: Seq<char>)
    ensures
        ({
            let (next, action) = step(s, Event::Accept(true));
            &&& action == StepView::Collect { streams: s.configured, timeout: 100 }
            &&& next.phase is Collecting
            &&& next.current_action == s.current_action
            &&& next.partitions.contains(name) <==> exists|i: int|
                0 <= i < s.configured.len() && #[trigger] s.configured[i].name == name
            &&& !next.flush_handles.contains_key(name)
        }),
{
    law_stream_names(s.configured, name);
}

/// Without a connection, an action is answered at once with a failure that names the action; once
/// no action can come any more, the bridge has failed.
pub proof fn law_actions_without_connection(s: BridgeView, action_id: Seq<char>, e: RecvError)
    ensures
        step(s, Event::StrayAction(Ok(action_id))) == (
            s,
            StepView::Respond(action_id, "Bridge down"@),
        ),
        step(s, Event::StrayAction(Err(e))).0.phase is Stopped,
        step(s, Event::StrayAction(Err(e))).1 == StepView::Stop(ErrorView::Recv(e)),
{
}

/// Every action that has JSON is written to the application as that JSON and one newline, whatever
/// else is going on, and is then the one to be answered, within 10 seconds.
pub proof fn law_actions_are_written_as_lines(s: BridgeView, command: CommandView, json: Seq<u8>)
    requires
        command.serialized == Ok::<Seq<u8>, Seq<char>>(json),
    ensures
        step(s, Event::Action(Ok(command))).1 matches StepView::Forward { timeout, line: Some(line) }
            && {
            &&& timeout == 10
            &&& line.len() == json.len() + 1
            &&& line.take(json.len() as int) == json
            &&& line.last() == 10
        },
        step(s, Event::Action(Ok(command))).0.phase is Writing,
        step(s, Event::Action(Ok(command))).0.current_action == Some(command.action_id),
{
    assert(json.push(10).take(json.len() as int) =~= json);
}

/// The lines of two actions are the same only if their JSON is.
pub proof fn law_lines_determine_actions(
    s: BridgeView,
    other: BridgeView,
    first: CommandView,
    second: CommandView,
)
    requires
        first.serialized is Ok,
        second.serialized is Ok,
        step(s, Event::Action(Ok(first))).1 == step(other, Event::Action(Ok(second))).1,
    ensures
        first.serialized == second.serialized,
{
    law_actions_are_written_as_lines(s, first, first.serialized->Ok_0);
    law_actions_are_written_as_lines(other, second, second.serialized->Ok_0);
}

/// Only an action without JSON is not written. It is to be answered all the same.
pub proof fn law_actions_without_json_are_awaited(
    s: BridgeView,
    command: CommandView,
    text: Seq<char>,
)
    requires
        command.serialized == Err::<Seq<u8>, Seq<char>>(text),
    ensures
        step(s, Event::Action(Ok(command))).1 == (StepView::Forward { timeout: 10, line: None }),
        step(s, Event::Action(Ok(command))).0 == (BridgeView {
            current_action: Some(command.action_id),
            ..s
        }),
{
}

/// An action that is not answered in time is answered for the application, once.
pub proof fn law_timeout_answers_the_action(s: BridgeView, action_id: Seq<char>)
    requires
        s.current_action == Some(action_id),
    ensures
        step(s, Event::Timeout).1 == StepView::Respond(action_id, "Action timed out"@),
        step(s, Event::Timeout).0 == (BridgeView { current_action: None, ..s }),
{
}

/// What ends a connection, and with which error. The reason that was reported goes into the error.
pub proof fn law_connection_ends(s: BridgeView, text: Seq<char>, e: RecvError, event: Event)
    ensures
        step(s, Event::Frame(FrameView::Closed)).1 == StepView::Disconnect(ErrorView::StreamDone),
        step(s, Event::Frame(FrameView::Broken(text))).1 == StepView::Disconnect(
            ErrorView::Codec(text),
        ),
        step(s, Event::Action(Err(e))).1 == StepView::Disconnect(ErrorView::Recv(e)),
        step(s, Event::Cancel(Some(text))).1 == StepView::Disconnect(ErrorView::DelayExpired(text)),
        step(s, Event::Write(Some(text))).1 == StepView::Disconnect(ErrorView::Io(text)),
        step(s, Event::Flush(Some(text))).1 == StepView::Disconnect(ErrorView::Stream(text)),
        step(s, event).1 is Disconnect <==> {
            ||| event == Event::Frame(FrameView::Closed)
            ||| event matches Event::Frame(FrameView::Broken(_))
            ||| event matches Event::Action(Err(_))
            ||| event matches Event::Cancel(Some(_))
            ||| event matches Event::Write(Some(_))
            ||| event matches Event::Flush(Some(_))
        },
        step(s, event).1 is Disconnect ==> step(s, event).0 == (BridgeView {
            phase: PhaseView::Down,
            ..s
        }),
{
}

/// A cancelled flush, a written action and a flushed stream leave the connection to go on, and
/// change nothing else.
pub proof fn law_connection_goes_on(s: BridgeView, event: Event)
    requires
        event == Event::Cancel(None) || event == Event::Write(None) || event == Event::Flush(None),
    ensures
        step(s, event) == (BridgeView { phase: PhaseView::Collecting, ..s }, StepView::Wait),
{
}

/// A line that is not a point is ignored.
pub proof fn law_malformed_lines_are_ignored(s: BridgeView, text: Seq<char>)
    ensures
        step(s, Event::Frame(FrameView::Malformed(text))) == (s, StepView::Wait),
{
}

/// A point is handed to its stream unchanged, unless it is an answer that no action waits for, or
/// its stream would be one more than there may be: it is not open, and more than 20 others are.
/// The stream is opened, for the configured project and device, exactly if it is not open yet.
pub proof fn law_points_are_handed_to_their_stream(s: BridgeView, payload: PayloadView)
    ensures
        ({
            let (next, action) = step(s, Event::Frame(FrameView::Point(payload)));
            let stale = payload.stream == "action_status"@ && s.current_action is None;
            let open = s.partitions.contains(payload.stream);
            if stale || !open && s.partitions.len() > 20 {
                &&& action is Wait
                &&& next.phase == s.phase
                &&& next.partitions == s.partitions
            } else {
                &&& action matches StepView::Fill { payload: handed, open: origin } && {
                    &&& handed == payload
                    &&& open ==> origin is None
                    &&& !open ==> origin == Some(s.origin)
                }
                &&& next.phase == PhaseView::Filling(payload.stream)
                &&& next.partitions == s.partitions.insert(payload.stream)
            }
        }),
{
}

/// A point of the stream `action_status` settles the action, whatever becomes of the point; no
/// other point does.
pub proof fn law_answers_settle_actions(s: BridgeView, payload: PayloadView)
    ensures
        payload.stream == "action_status"@ ==> step(
            s,
            Event::Frame(FrameView::Point(payload)),
        ).0.current_action is None,
        payload.stream != "action_status"@ ==> step(
            s,
            Event::Frame(FrameView::Point(payload)),
        ).0.current_action == s.current_action,
{
}

/// The configured period is the time after which every flush is scheduled, exactly; without one it
/// is 10 seconds. Nothing but a point that does not fill its stream schedules a flush, and only
/// of that stream.
pub proof fn law_flushes_are_scheduled_after_the_period(s: BridgeView, event: Event)
    requires
        enabled(s, event),
    ensures
        step(s, event).1 matches StepView::Arm(stream, seconds) ==> {
            &&& event == Event::Fill(Some(false))
            &&& s.phase == PhaseView::Filling(stream)
            &&& s.flush_period matches Some(period) ==> seconds == period
            &&& s.flush_period is None ==> seconds == 10
        },
{
}

/// A point that does not fill its stream has a flush scheduled if no handle is kept for the stream;
/// while one is scheduled it stays; the handle to one that has come is given up.
pub proof fn law_unfilled_streams_are_flushed(s: BridgeView, stream: Seq<char>)
    requires
        s.phase == PhaseView::Filling(stream),
    ensures
        ({
            let (next, action) = step(s, Event::Fill(Some(false)));
            &&& next.phase is Collecting
            &&& match s.flush_handles.index_opt(stream) {
                None => {
                    &&& action matches StepView::Arm(armed, _) && armed == stream
                    &&& next.flush_handles == s.flush_handles.insert(stream, FlushState::Scheduled)
                },
                Some(FlushState::Scheduled) => action is Wait && next.flush_handles
                    == s.flush_handles,
                Some(FlushState::Due) => action is Wait && next.flush_handles
                    == s.flush_handles.remove(stream),
            }
        }),
{
}

/// A point that fills its stream leaves no handle: the flush that one is kept for is cancelled.
pub proof fn law_filled_streams_need_no_flush(s: BridgeView, stream: Seq<char>)
    requires
        s.phase == PhaseView::Filling(stream),
    ensures
        ({
            let (next, action) = step(s, Event::Fill(Some(true)));
            &&& next.flush_handles == s.flush_handles.remove(stream)
            &&& if s.flush_handles.contains_key(stream) {
                action == StepView::Cancel(stream) && next.phase is Cancelling
            } else {
                action is Wait && next.phase is Collecting
            }
        }),
{
    if !s.flush_handles.contains_key(stream) {
        assert(s.flush_handles.remove(stream) =~= s.flush_handles);
    }
}

/// A stream that fails to take a point changes nothing.
pub proof fn law_failed_fill_changes_nothing(s: BridgeView)
    requires
        s.phase is Filling,
    ensures
        step(s, Event::Fill(None)) == (
            BridgeView { phase: PhaseView::Collecting, ..s },
            StepView::Wait,
        ),
{
}

/// A flush that is due is performed if its stream is open, and its handle is marked as spent;
/// otherwise nothing happens.
pub proof fn law_due_flushes_are_performed(s: BridgeView, stream: Seq<char>)
    ensures
        ({
            let (next, action) = step(s, Event::FlushDue(stream));
            if s.partitions.contains(stream) {
                &&& action == StepView::Flush(stream)
                &&& next.phase is Flushing
                &&& next.flush_handles.dom() == s.flush_handles.dom()
                &&& s.flush_handles.contains_key(stream) ==> next.flush_handles[stream]
                    == FlushState::Due
                &&& forall|other: Seq<char>|
                    other != stream ==> #[trigger] next.flush_handles[other]
                        == s.flush_handles[other]
            } else {
                action is Wait && next == s
            }
        }),
{
    let next = step(s, Event::FlushDue(stream)).0;
    assert(next.flush_handles.dom() =~= s.flush_handles.dom());
}

/// Nothing changes but by the events that are there to change it: the configuration never, open
/// streams by points and connections, handles by fills, due flushes and connections, and the
/// action to be answered by actions, timeouts and points.
pub proof fn law_nothing_else_changes(s: BridgeView, event: Event)
    requires
        enabled(s, event),
    ensures
        ({
            let next = step(s, event).0;
            let connects = event == Event::Accept(true);
            let point = event matches Event::Frame(FrameView::Point(_));
            &&& next.port == s.port
            &&& next.flush_period == s.flush_period
            &&& next.origin == s.origin
            &&& next.configured == s.configured
            &&& next.partitions == s.partitions || connects || point
            &&& next.flush_handles == s.flush_handles || connects || event is Fill
                || event is FlushDue
            &&& next.current_action == s.current_action || point || event is Action
                || event is Timeout
        }),
{
}

/// Which events are awaited in which phase.
pub proof fn law_awaited_events(s: BridgeView, event: Event)
    ensures
        enabled(s, event) <==> match s.phase {
            PhaseView::Down => event is Start,
            PhaseView::Binding => event is Bind,
            PhaseView::Accepting => event is Accept || event is StrayAction,
            PhaseView::Collecting => {
                ||| event is Frame
                ||| event is Action
                ||| event is FlushDue
                ||| event is Timeout && s.current_action is Some
            },
            PhaseView::Filling(_) => event is Fill,
            PhaseView::Cancelling => event is Cancel,
            PhaseView::Writing => event is Write,
            PhaseView::Flushing => event is Flush,
            PhaseView::Stopped => false,
        },
{
}

/// A failure is reported with its text, and success as none.
pub proof fn law_failures_keep_their_text(outcome: Result<(), String>)
    ensures
        match outcome {
            Ok(()) => failure(outcome) is None,
            Err(text) => failure(outcome) == Some(text@),
        },
{
}

} // verus!
