//! The session state machine and its event dispatcher.
//!
//! A session owns no connection. It decides: given what arrived, what the
//! state becomes and what is to be done; given what the caller wants to
//! send, whether that is allowed and which frame goes out. Whoever owns the
//! connection performs the actions and reports back what the transport did.

use crate::codec::{decode, decode_spec, encode, encode_spec, Frame, FrameView};
use crate::error::{DecodeError, ProtocolError, RecvError, SendError};
use crate::events::{text_view, ClientEvent, ClientEventView, ServerEvent, ServerEventView};
use crate::wire::{decode_text, frame_of_text, frame_text, write_frame};
use vstd::prelude::*;

verus! {

/// Where a session stands in its life. `Connecting` is where it starts;
/// nothing leaves `Closed`.
#[derive(Clone, Copy, Debug, PartialEq, Eq, Structural)]
pub enum SessionState {
    Connecting,
    Active,
    Interrupted,
    Closing,
    Closed,
}

/// How a session ended. Reported once.
#[derive(Clone, Copy, Debug, PartialEq, Eq, Structural)]
pub enum TerminalEvent {
    /// The transport confirmed an orderly close.
    Closed,
    /// The transport failed.
    Aborted,
}

/// What is to be done with an inbound frame once the session has taken
/// note of it.
#[derive(Clone, Debug, PartialEq, Eq)]
pub enum Action {
    /// Hand the event to the caller.
    Deliver(ServerEvent),
    /// Send this event back at once; the caller is not involved.
    Reply(ClientEvent),
    /// The audio chunk was appended to the session's audio sequence.
    Buffered,
    /// The frame could not be decoded; tell the caller and go on.
    Diagnostic(DecodeError),
}

pub ghost enum ActionView {
    Deliver(ServerEventView),
    Reply(ClientEventView),
    Buffered,
    Diagnostic(DecodeError),
}

impl View for Action {
    type V = ActionView;

    open spec fn view(&self) -> ActionView {
        match *self {
            Action::Deliver(event) => ActionView::Deliver(event@),
            Action::Reply(event) => ActionView::Reply(event@),
            Action::Buffered => ActionView::Buffered,
            Action::Diagnostic(e) => ActionView::Diagnostic(e),
        }
    }
}

/// The texts of a list of strings, in order.
pub open spec fn texts(list: Seq<String>) -> Seq<Seq<char>> {
    Seq::new(list.len(), |i: int| list[i]@)
}

/// The view of what sending returns.
pub open spec fn sent_view(r: Result<Frame, ProtocolError>) -> Result<FrameView, ProtocolError> {
    match r {
        Ok(frame) => Ok(frame@),
        Err(e) => Err(e),
    }
}

/// A marker moved on by one; it stays where it is once it cannot grow.
pub open spec fn bump(n: u64) -> u64 {
    if n < u64::MAX {
        (n + 1) as u64
    } else {
        n
    }
}

/// The state of one session.
pub struct Session {
    state: SessionState,
    conversation_id: Option<String>,
    pending: Vec<String>,
    audio: Vec<String>,
    last_sent: u64,
    last_activity: u64,
}

/// A session as contracts see it.
pub ghost struct SessionView {
    pub state: SessionState,
    /// The id that the service gave the conversation, once it has.
    pub conversation_id: Option<Seq<char>>,
    /// The ids of the tool calls that await a result, oldest first.
    pub pending: Seq<Seq<char>>,
    /// The audio chunks not yet handed out, in the order of their arrival.
    pub audio: Seq<Seq<char>>,
    /// How many events were accepted for sending.
    pub last_sent: u64,
    /// How many inbound frames were taken note of.
    pub last_activity: u64,
}

/// A session that has just been opened.
pub open spec fn initial() -> SessionView {
    SessionView {
        state: SessionState::Connecting,
        conversation_id: None,
        pending: Seq::empty(),
        audio: Seq::empty(),
        last_sent: 0,
        last_activity: 0,
    }
}

/// The session after an inbound event has been routed.
pub open spec fn route(s: SessionView, event: ServerEventView) -> SessionView {
    let s = SessionView { last_activity: bump(s.last_activity), ..s };
    match event {
        ServerEventView::ConversationInitiationMetadata { conversation_id } => SessionView {
            conversation_id: Some(conversation_id),
            state: if s.state == SessionState::Connecting {
                SessionState::Active
            } else {
                s.state
            },
            ..s
        },
        ServerEventView::Audio { chunk, event_id } => SessionView {
            audio: s.audio.push(chunk),
            ..s
        },
        ServerEventView::ClientToolCall { tool_call_id, tool_name, parameters } => SessionView {
            pending: if s.pending.contains(tool_call_id) {
                s.pending
            } else {
                s.pending.push(tool_call_id)
            },
            ..s
        },
        ServerEventView::Interruption { event_id } => SessionView {
            audio: Seq::empty(),
            state: if s.state == SessionState::Active {
                SessionState::Interrupted
            } else {
                s.state
            },
            ..s
        },
        ServerEventView::AgentResponse { text } => if s.state == SessionState::Interrupted {
            SessionView { audio: Seq::empty(), state: SessionState::Active, ..s }
        } else {
            s
        },
        _ => s,
    }
}

/// What is to be done with an inbound event.
pub open spec fn action_of(event: ServerEventView) -> ActionView {
    match event {
        ServerEventView::Audio { chunk, event_id } => ActionView::Buffered,
        ServerEventView::Ping { event_id } => ActionView::Reply(ClientEventView::Pong { event_id }),
        _ => ActionView::Deliver(event),
    }
}

/// The session after a run of inbound events, routed one after the other.
pub open spec fn route_all(s: SessionView, events: Seq<ServerEventView>) -> SessionView
    decreases events.len(),
{
    if events.len() == 0 {
        s
    } else {
        route(route_all(s, events.drop_last()), events.last())
    }
}

/// The session after an inbound frame: routed where it decodes, and only
/// marked as activity where it does not.
pub open spec fn after_frame(s: SessionView, frame: FrameView) -> SessionView {
    match decode_spec(frame) {
        Ok(event) => route(s, event),
        Err(e) => SessionView { last_activity: bump(s.last_activity), ..s },
    }
}

/// What is to be done with an inbound frame.
pub open spec fn frame_action(frame: FrameView) -> ActionView {
    match decode_spec(frame) {
        Ok(event) => action_of(event),
        Err(e) => ActionView::Diagnostic(e),
    }
}

/// Whether the caller may send in this state.
pub open spec fn can_send(s: SessionView) -> bool {
    s.state == SessionState::Active || s.state == SessionState::Interrupted
}

/// What sending an event returns: the frame to transmit, or the misuse.
pub open spec fn send_result(s: SessionView, event: ClientEventView) -> Result<
    FrameView,
    ProtocolError,
> {
    if !can_send(s) {
        Err(ProtocolError::NotActive)
    } else {
        match event {
            ClientEventView::ToolCallResult { tool_call_id, result, is_error } => {
                if s.pending.contains(tool_call_id) {
                    Ok(encode_spec(event))
                } else {
                    Err(ProtocolError::UnknownOrResolvedToolCall)
                }
            },
            _ => Ok(encode_spec(event)),
        }
    }
}

/// The session after an attempt to send: unchanged where the attempt is
/// refused; else the sequence marker moves on, and a tool call whose result
/// goes out awaits none any more.
pub open spec fn after_send(s: SessionView, event: ClientEventView) -> SessionView {
    if send_result(s, event) is Err {
        s
    } else {
        SessionView {
            last_sent: bump(s.last_sent),
            pending: match event {
                ClientEventView::ToolCallResult { tool_call_id, result, is_error } => {
                    s.pending.remove_value(tool_call_id)
                },
                _ => s.pending,
            },
            ..s
        }
    }
}

/// The session once shutdown has been asked for: the tool calls that still
/// await a result are given up.
pub open spec fn after_close_request(s: SessionView) -> SessionView {
    if s.state == SessionState::Closing || s.state == SessionState::Closed {
        s
    } else {
        SessionView { state: SessionState::Closing, pending: Seq::empty(), ..s }
    }
}

/// The session once the transport has ended.
pub open spec fn after_end(s: SessionView) -> SessionView {
    if s.state == SessionState::Closed {
        s
    } else {
        SessionView { state: SessionState::Closed, pending: Seq::empty(), ..s }
    }
}

/// The terminal event that the end of the transport produces: none where
/// the session was closed already.
pub open spec fn end_event(s: SessionView, how: TerminalEvent) -> Option<TerminalEvent> {
    if s.state == SessionState::Closed {
        None
    } else {
        Some(how)
    }
}

/// Whether an event is the request of the tool call with this id.
pub open spec fn issues(event: ServerEventView, id: Seq<char>) -> bool {
    match event {
        ServerEventView::ClientToolCall { tool_call_id, tool_name, parameters } => tool_call_id
            == id,
        _ => false,
    }
}

/// The chunk of an audio event.
pub open spec fn chunk_of(event: ServerEventView) -> Seq<char> {
    match event {
        ServerEventView::Audio { chunk, event_id } => chunk,
        _ => Seq::empty(),
    }
}

proof fn texts_push(list: Seq<String>, x: String)
    ensures
        texts(list.push(x)) == texts(list).push(x@),
{
    assert(texts(list.push(x)) =~= texts(list).push(x@));
}

proof fn texts_remove(list: Seq<String>, i: int)
    requires
        0 <= i < list.len(),
    ensures
        texts(list.remove(i)) == texts(list).remove(i),
{
    assert(texts(list.remove(i)) =~= texts(list).remove(i));
}

/// Removing a value at the place where it first occurs is removing the value.
proof fn remove_first_is_remove_value(s: Seq<Seq<char>>, id: Seq<char>, i: int)
    requires
        0 <= i < s.len(),
        s[i] == id,
        forall|j: int| 0 <= j < i ==> s[j] != id,
    ensures
        s.remove_value(id) == s.remove(i),
{
    s.index_of_first_ensures(id);
    let k = s.index_of_first(id);
    assert(s.contains(id));
    assert(k is Some);
    assert(k->0 == i);
}

/// A list without repetition stays so when one of its items leaves, and the
/// item is then gone.
proof fn remove_keeps_distinct(s: Seq<Seq<char>>, i: int)
    requires
        0 <= i < s.len(),
        s.no_duplicates(),
    ensures
        s.remove(i).no_duplicates(),
        !s.remove(i).contains(s[i]),
{
    let r = s.remove(i);
    assert forall|a: int, b: int| 0 <= a < r.len() && 0 <= b < r.len() && a != b implies r[a]
        != r[b] by {
        let a2 = if a < i { a } else { a + 1 };
        let b2 = if b < i { b } else { b + 1 };
        assert(r[a] == s[a2] && r[b] == s[b2]);
    }
    assert forall|a: int| 0 <= a < r.len() implies r[a] != s[i] by {
        let a2 = if a < i { a } else { a + 1 };
        assert(r[a] == s[a2]);
    }
}

/// The place where a text first occurs in a list, if it occurs.
fn position(list: &Vec<String>, id: &String) -> (r: Option<usize>)
    ensures
        match r {
            Some(i) => i < list.len() && list[i as int]@ == id@ && forall|j: int|
                0 <= j < i ==> texts(list@)[j] != id@,
            None => !texts(list@).contains(id@),
        },
{
    let mut i: usize = 0;
    while i < list.len()
        invariant
            i <= list.len(),
            forall|j: int| 0 <= j < i ==> texts(list@)[j] != id@,
        decreases list.len() - i,
    {
        if list[i] == *id {
            return Some(i);
        }
        i += 1;
    }
    None
}

fn next_marker(n: u64) -> (r: u64)
    ensures
        r == bump(n),
{
    if n < u64::MAX {
        n + 1
    } else {
        n
    }
}

impl View for Session {
    type V = SessionView;

    closed spec fn view(&self) -> SessionView {
        SessionView {
            state: self.state,
            conversation_id: text_view(self.conversation_id),
            pending: texts(self.pending@),
            audio: texts(self.audio@),
            last_sent: self.last_sent,
            last_activity: self.last_activity,
        }
    }
}

impl Session {
    /// No tool call awaits a result twice.
    pub open spec fn wf(&self) -> bool {
        self@.pending.no_duplicates()
    }

    /// A session that has just been opened: connecting, with nothing known
    /// and nothing pending.
    pub fn new() -> (r: Session)
        ensures
            r.wf(),
            r@ == initial(),
    {
        let r = Session {
            state: SessionState::Connecting,
            conversation_id: None,
            pending: Vec::new(),
            audio: Vec::new(),
            last_sent: 0,
            last_activity: 0,
        };
        assert(texts(r.pending@) =~= Seq::empty());
        assert(texts(r.audio@) =~= Seq::empty());
        r
    }

    pub fn state(&self) -> (r: SessionState)
        ensures
            r == self@.state,
    {
        self.state
    }

    /// The id that the service gave the conversation, once it has.
    pub fn conversation_id(&self) -> (r: Option<&String>)
        ensures
            match r {
                Some(id) => self@.conversation_id == Some(id@),
                None => self@.conversation_id is None,
            },
    {
        match &self.conversation_id {
            Some(id) => Some(id),
            None => None,
        }
    }

    /// Whether a tool call with this id awaits a result.
    pub fn is_pending(&self, tool_call_id: &str) -> (r: bool)
        ensures
            r == self@.pending.contains(tool_call_id@),
    {
        let id = tool_call_id.to_owned();
        let found = position(&self.pending, &id);
        proof {
            if let Some(i) = found {
                assert(texts(self.pending@)[i as int] == id@);
            }
        }
        found.is_some()
    }

    /// How many tool calls await a result.
    pub fn pending_count(&self) -> (r: usize)
        ensures
            r == self@.pending.len(),
    {
        self.pending.len()
    }

    /// How many audio chunks are waiting to be handed out.
    pub fn buffered_audio(&self) -> (r: usize)
        ensures
            r == self@.audio.len(),
    {
        self.audio.len()
    }

    /// The sequence marker of the event that was last accepted for sending.
    pub fn last_sent(&self) -> (r: u64)
        ensures
            r == self@.last_sent,
    {
        self.last_sent
    }

    /// The marker of the last inbound activity, for a watchdog of the
    /// caller's.
    pub fn last_activity(&self) -> (r: u64)
        ensures
            r == self@.last_activity,
    {
        self.last_activity
    }

    /// Routes one decoded inbound event: takes note of it in the session and
    /// says what is to be done with it.
    pub fn handle_event(&mut self, event: ServerEvent) -> (action: Action)
        requires
            old(self).wf(),
        ensures
            final(self).wf(),
            final(self)@ == route(old(self)@, event@),
            action@ == action_of(event@),
    {
        self.last_activity = next_marker(self.last_activity);
        match event {
            ServerEvent::ConversationInitiationMetadata { conversation_id } => {
                self.conversation_id = Some(conversation_id.clone());
                if self.state == SessionState::Connecting {
                    self.state = SessionState::Active;
                }
                Action::Deliver(ServerEvent::ConversationInitiationMetadata { conversation_id })
            },
            ServerEvent::Audio { chunk, event_id } => {
                proof {
                    texts_push(self.audio@, chunk);
                }
                self.audio.push(chunk);
                Action::Buffered
            },
            ServerEvent::ClientToolCall { tool_call_id, tool_name, parameters } => {
                let found = position(&self.pending, &tool_call_id);
                if found.is_none() {
                    let id = tool_call_id.clone();
                    proof {
                        texts_push(self.pending@, id);
                    }
                    self.pending.push(id);
                } else {
                    assert(texts(self.pending@)[found.unwrap() as int] == tool_call_id@);
                }
                Action::Deliver(ServerEvent::ClientToolCall { tool_call_id, tool_name, parameters })
            },
            ServerEvent::Interruption { event_id } => {
                self.audio.clear();
                assert(texts(self.audio@) =~= Seq::empty());
                if self.state == SessionState::Active {
                    self.state = SessionState::Interrupted;
                }
                Action::Deliver(ServerEvent::Interruption { event_id })
            },
            ServerEvent::AgentResponse { text } => {
                if self.state == SessionState::Interrupted {
                    self.audio.clear();
                    assert(texts(self.audio@) =~= Seq::empty());
                    self.state = SessionState::Active;
                }
                Action::Deliver(ServerEvent::AgentResponse { text })
            },
            ServerEvent::Ping { event_id } => Action::Reply(ClientEvent::Pong { event_id }),
            other => Action::Deliver(other),
        }
    }

    /// Processes one inbound frame: decodes it, then routes the event. A
    /// frame that does not decode changes nothing but the activity marker
    /// and is reported as a diagnostic.
    pub fn handle_frame(&mut self, frame: Frame) -> (action: Action)
        requires
            old(self).wf(),
        ensures
            final(self).wf(),
            final(self)@ == after_frame(old(self)@, frame@),
            action@ == frame_action(frame@),
    {
        match decode(frame) {
            Ok(event) => self.handle_event(event),
            Err(e) => {
                self.last_activity = next_marker(self.last_activity);
                Action::Diagnostic(e)
            },
        }
    }

    /// Processes one received text: reads the frame that it holds, then
    /// handles that frame.
    pub fn receive(&mut self, text: &str) -> (action: Action)
        requires
            old(self).wf(),
        ensures
            final(self).wf(),
            final(self)@ == after_frame(old(self)@, frame_of_text(text@)),
            action@ == frame_action(frame_of_text(text@)),
    {
        match decode_text(text) {
            Ok(event) => self.handle_event(event),
            Err(e) => {
                self.last_activity = next_marker(self.last_activity);
                Action::Diagnostic(e)
            },
        }
    }

    /// Hands out the audio chunks that have arrived since the last call, in
    /// the order of their arrival, and keeps none.
    pub fn take_audio(&mut self) -> (chunks: Vec<String>)
        requires
            old(self).wf(),
        ensures
            final(self).wf(),
            texts(chunks@) == old(self)@.audio,
            final(self)@ == (SessionView { audio: Seq::empty(), ..old(self)@ }),
    {
        let mut chunks: Vec<String> = Vec::new();
        core::mem::swap(&mut self.audio, &mut chunks);
        assert(texts(self.audio@) =~= Seq::empty());
        chunks
    }

    /// Accepts an event of the caller's for sending and gives the frame to
    /// transmit, or refuses it and leaves the session as it was.
    pub fn send(&mut self, event: ClientEvent) -> (r: Result<Frame, ProtocolError>)
        requires
            old(self).wf(),
        ensures
            final(self).wf(),
            sent_view(r) == send_result(old(self)@, event@),
            final(self)@ == after_send(old(self)@, event@),
    {
        if !(self.state == SessionState::Active || self.state == SessionState::Interrupted) {
            return Err(ProtocolError::NotActive);
        }
        if let ClientEvent::ToolCallResult { tool_call_id, result, is_error } = &event {
            match position(&self.pending, tool_call_id) {
                None => {
                    return Err(ProtocolError::UnknownOrResolvedToolCall);
                },
                Some(i) => {
                    proof {
                        let ids = texts(self.pending@);
                        assert(ids[i as int] == tool_call_id@);
                        texts_remove(self.pending@, i as int);
                        remove_first_is_remove_value(ids, tool_call_id@, i as int);
                        remove_keeps_distinct(ids, i as int);
                    }
                    self.pending.remove(i);
                },
            }
        }
        self.last_sent = next_marker(self.last_sent);
        Ok(encode(event))
    }

    /// As `send`, with the frame written as the text to transmit.
    pub fn send_text(&mut self, event: ClientEvent) -> (r: Result<String, ProtocolError>)
        requires
            old(self).wf(),
        ensures
            final(self).wf(),
            final(self)@ == after_send(old(self)@, event@),
            match send_result(old(self)@, event@) {
                Ok(frame) => r is Ok && r->Ok_0@ == frame_text(frame),
                Err(e) => r == Err::<String, ProtocolError>(e),
            },
    {
        match self.send(event) {
            Ok(frame) => Ok(write_frame(&frame)),
            Err(e) => Err(e),
        }
    }

    /// Takes note that one side has asked for shutdown. The tool calls that
    /// still await a result are given up.
    pub fn request_close(&mut self)
        requires
            old(self).wf(),
        ensures
            final(self).wf(),
            final(self)@ == after_close_request(old(self)@),
    {
        if !(self.state == SessionState::Closing || self.state == SessionState::Closed) {
            self.state = SessionState::Closing;
            self.pending.clear();
            assert(texts(self.pending@) =~= Seq::empty());
        }
    }

    fn end(&mut self, how: TerminalEvent) -> (r: Option<TerminalEvent>)
        requires
            old(self).wf(),
        ensures
            final(self).wf(),
            final(self)@ == after_end(old(self)@),
            r == end_event(old(self)@, how),
    {
        if self.state == SessionState::Closed {
            None
        } else {
            self.state = SessionState::Closed;
            self.pending.clear();
            assert(texts(self.pending@) =~= Seq::empty());
            Some(how)
        }
    }

    /// Takes note that the transport has confirmed the close. The first
    /// call on a session gives its terminal event; a later one does nothing.
    pub fn close(&mut self) -> (r: Option<TerminalEvent>)
        requires
            old(self).wf(),
        ensures
            final(self).wf(),
            final(self)@ == after_end(old(self)@),
            r == end_event(old(self)@, TerminalEvent::Closed),
    {
        self.end(TerminalEvent::Closed)
    }

    /// Takes note that the transport has failed.
    pub fn abort(&mut self) -> (r: Option<TerminalEvent>)
        requires
            old(self).wf(),
        ensures
            final(self).wf(),
            final(self)@ == after_end(old(self)@),
            r == end_event(old(self)@, TerminalEvent::Aborted),
    {
        self.end(TerminalEvent::Aborted)
    }

    /// Takes note that the transport could not deliver a frame: the session
    /// cannot go on, and ends as after a failure of the transport.
    pub fn on_send_error(&mut self, error: SendError) -> (r: Option<TerminalEvent>)
        requires
            old(self).wf(),
        ensures
            final(self).wf(),
            final(self)@ == after_end(old(self)@),
            r == end_event(old(self)@, TerminalEvent::Aborted),
    {
        match error {
            SendError::Transport => self.abort(),
        }
    }

    /// Takes note of why the receive loop has stopped: either way the
    /// session is over.
    pub fn on_receive_error(&mut self, error: RecvError) -> (r: Option<TerminalEvent>)
        requires
            old(self).wf(),
        ensures
            final(self).wf(),
            final(self)@ == after_end(old(self)@),
            r == end_event(
                old(self)@,
                match error {
                    RecvError::Closed => TerminalEvent::Closed,
                    RecvError::Aborted => TerminalEvent::Aborted,
                },
            ),
    {
        match error {
            RecvError::Closed => self.close(),
            RecvError::Aborted => self.abort(),
        }
    }
}

/// A run of audio chunks leaves the state where it was.
proof fn audio_run_keeps_state(s: SessionView, events: Seq<ServerEventView>)
    requires
        forall|i: int| 0 <= i < events.len() ==> events[i] is Audio,
    ensures
        route_all(s, events).state == s.state,
    decreases events.len(),
{
    if events.len() > 0 {
        audio_run_keeps_state(s, events.drop_last());
    }
}

/// Whatever arrives, no tool call comes to await a result twice.
pub proof fn route_keeps_pending_distinct(s: SessionView, event: ServerEventView)
    requires
        s.pending.no_duplicates(),
    ensures
        route(s, event).pending.no_duplicates(),
{
}

/// Audio is handed out in the order in which it arrived: after a run of
/// audio chunks the audio sequence is what it was, followed by the chunks
/// of the run, one for one and in their order.
pub proof fn audio_keeps_arrival_order(s: SessionView, events: Seq<ServerEventView>)
    requires
        forall|i: int| 0 <= i < events.len() ==> events[i] is Audio,
    ensures
        route_all(s, events).audio == s.audio + Seq::new(
            events.len(),
            |i: int| chunk_of(events[i]),
        ),
    decreases events.len(),
{
    let chunks = Seq::new(events.len(), |i: int| chunk_of(events[i]));
    if events.len() == 0 {
        assert(s.audio + chunks =~= s.audio);
    } else {
        let front = events.drop_last();
        audio_keeps_arrival_order(s, front);
        let front_chunks = Seq::new(front.len(), |i: int| chunk_of(front[i]));
        assert(events.last() is Audio);
        assert((s.audio + front_chunks).push(chunk_of(events.last())) =~= s.audio + chunks);
    }
}

/// No id awaits a result unless the service issued it: an id that is not
/// pending stays so over every run of events that holds no tool call of
/// that id.
pub proof fn pending_ids_were_issued(
    s: SessionView,
    events: Seq<ServerEventView>,
    tool_call_id: Seq<char>,
)
    requires
        !s.pending.contains(tool_call_id),
        forall|i: int| 0 <= i < events.len() ==> !issues(events[i], tool_call_id),
    ensures
        !route_all(s, events).pending.contains(tool_call_id),
    decreases events.len(),
{
    if events.len() > 0 {
        let before = route_all(s, events.drop_last());
        pending_ids_were_issued(s, events.drop_last(), tool_call_id);
        let after = route(before, events.last());
        if after.pending != before.pending {
            let added = events.last()->ClientToolCall_tool_call_id;
            assert(after.pending == before.pending.push(added));
            if after.pending.contains(tool_call_id) {
                let k = choose|k: int| 0 <= k < after.pending.len() && after.pending[k] == tool_call_id;
                if k < before.pending.len() {
                    assert(before.pending[k] == tool_call_id);
                }
            }
        }
    }
}

/// A result for a tool call that does not await one is a protocol error,
/// and the session, its pending calls among the rest, stays as it was.
pub proof fn unissued_tool_result_is_refused(
    s: SessionView,
    tool_call_id: Seq<char>,
    result: Seq<char>,
    is_error: bool,
)
    requires
        !s.pending.contains(tool_call_id),
    ensures
        send_result(s, ClientEventView::ToolCallResult { tool_call_id, result, is_error }) is Err,
        can_send(s) ==> send_result(
            s,
            ClientEventView::ToolCallResult { tool_call_id, result, is_error },
        ) == Err::<FrameView, ProtocolError>(ProtocolError::UnknownOrResolvedToolCall),
        after_send(s, ClientEventView::ToolCallResult { tool_call_id, result, is_error }) == s,
{
}

/// A tool call is resolved once: after its result has been accepted, a
/// second result for the same id is a protocol error and changes nothing.
pub proof fn resolved_tool_result_is_refused(
    s: SessionView,
    tool_call_id: Seq<char>,
    result: Seq<char>,
    is_error: bool,
    second_result: Seq<char>,
    second_is_error: bool,
)
    requires
        s.pending.no_duplicates(),
        can_send(s),
        s.pending.contains(tool_call_id),
    ensures
        ({
            let first = ClientEventView::ToolCallResult { tool_call_id, result, is_error };
            let second = ClientEventView::ToolCallResult {
                tool_call_id,
                result: second_result,
                is_error: second_is_error,
            };
            let resolved = after_send(s, first);
            &&& send_result(s, first) == Ok::<FrameView, ProtocolError>(encode_spec(first))
            &&& !resolved.pending.contains(tool_call_id)
            &&& resolved.pending.no_duplicates()
            &&& send_result(resolved, second) == Err::<FrameView, ProtocolError>(
                ProtocolError::UnknownOrResolvedToolCall,
            )
            &&& after_send(resolved, second) == resolved
        }),
{
    s.pending.index_of_first_ensures(tool_call_id);
    let i = s.pending.index_of_first(tool_call_id)->0;
    remove_keeps_distinct(s.pending, i);
}

/// An interruption while active, then the agent's next response: the state
/// goes from active to interrupted and back, and no audio that was buffered
/// before the interruption or arrived between the two is left.
pub proof fn interruption_then_response(
    s: SessionView,
    event_id: u64,
    between: Seq<ServerEventView>,
    text: Seq<char>,
)
    requires
        s.state == SessionState::Active,
        forall|i: int| 0 <= i < between.len() ==> between[i] is Audio,
    ensures
        ({
            let interrupted = route(s, ServerEventView::Interruption { event_id });
            let waiting = route_all(interrupted, between);
            let resumed = route(waiting, ServerEventView::AgentResponse { text });
            &&& interrupted.state == SessionState::Interrupted
            &&& interrupted.audio == Seq::<Seq<char>>::empty()
            &&& waiting.state == SessionState::Interrupted
            &&& resumed.state == SessionState::Active
            &&& resumed.audio == Seq::<Seq<char>>::empty()
        }),
{
    audio_run_keeps_state(route(s, ServerEventView::Interruption { event_id }), between);
}

/// Closing is idempotent: the end of a session that is not yet closed gives
/// its one terminal event; on a closed session the end gives none and
/// changes nothing, whichever way it is reported.
pub proof fn close_is_idempotent(s: SessionView, first: TerminalEvent, second: TerminalEvent)
    ensures
        s.state != SessionState::Closed ==> end_event(s, first) == Some(first),
        after_end(s).state == SessionState::Closed,
        end_event(after_end(s), second) is None,
        after_end(after_end(s)) == after_end(s),
{
}

/// Nothing leaves `Closed`, and no inbound event or send leads there.
pub proof fn closed_is_terminal(s: SessionView, inbound: ServerEventView, outbound: ClientEventView)
    ensures
        (route(s, inbound).state == SessionState::Closed) == (s.state == SessionState::Closed),
        after_send(s, outbound).state == s.state,
        s.state == SessionState::Closed ==> after_close_request(s) == s,
        s.state == SessionState::Closed ==> send_result(s, outbound) == Err::<
            FrameView,
            ProtocolError,
        >(ProtocolError::NotActive),
{
}

/// Before the session is active nothing can be sent, and after it has begun
/// to close nothing can be sent either.
pub proof fn sending_needs_an_active_session(s: SessionView, event: ClientEventView)
    requires
        s.state == SessionState::Connecting || s.state == SessionState::Closing || s.state
            == SessionState::Closed,
    ensures
        send_result(s, event) == Err::<FrameView, ProtocolError>(ProtocolError::NotActive),
        after_send(s, event) == s,
{
}

/// Whether the lifecycle has a step from one state to the other: from
/// connecting to active, between active and interrupted, from any state
/// that is not closed to closing, and from any state to closed.
pub open spec fn lifecycle_step(from: SessionState, to: SessionState) -> bool {
    ||| from == SessionState::Connecting && to == SessionState::Active
    ||| from == SessionState::Active && to == SessionState::Interrupted
    ||| from == SessionState::Interrupted && to == SessionState::Active
    ||| from != SessionState::Closed && from != SessionState::Closing && to
        == SessionState::Closing
    ||| from != SessionState::Closed && to == SessionState::Closed
}

/// The state only ever moves along the lifecycle: whatever arrives, is sent
/// or is reported by the transport, the state stays or takes one of its
/// steps; and what arrives never closes a session.
pub proof fn state_follows_the_lifecycle(
    s: SessionView,
    inbound: ServerEventView,
    outbound: ClientEventView,
)
    ensures
        route(s, inbound).state == s.state || lifecycle_step(s.state, route(s, inbound).state),
        route(s, inbound).state != s.state ==> route(s, inbound).state == SessionState::Active
            || route(s, inbound).state == SessionState::Interrupted,
        after_send(s, outbound).state == s.state,
        after_close_request(s).state == s.state || lifecycle_step(
            s.state,
            after_close_request(s).state,
        ),
        after_end(s).state == s.state || lifecycle_step(s.state, after_end(s).state),
{
}

/// Whether a session that has become active knows its conversation.
pub open spec fn knows_conversation(s: SessionView) -> bool {
    (s.state == SessionState::Active || s.state == SessionState::Interrupted)
        ==> s.conversation_id is Some
}

/// A session that is active or interrupted has been told the id of its
/// conversation: this holds of a new session and after every run of
/// inbound events.
pub proof fn active_session_knows_its_conversation(events: Seq<ServerEventView>)
    ensures
        knows_conversation(route_all(initial(), events)),
    decreases events.len(),
{
    if events.len() > 0 {
        active_session_knows_its_conversation(events.drop_last());
    }
}

} // verus!
