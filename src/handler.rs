//! Per-connection echo protocol as a state machine: the caller performs each
//! returned action on the socket or log queue and feeds back what happened.
use vstd::prelude::*;
use vstd::utf8::{decode_utf8, valid_utf8};

use crate::BUF_SIZE;

verus! {

/// Why a connection handler stopped before the peer closed the stream.
#[derive(Clone, Copy, PartialEq, Eq, Structural, Debug)]
pub enum HandlerError {
    /// Reading from or writing to the connection failed.
    Io,
    /// The bytes of a cycle were not valid UTF-8 and could not be logged.
    Decode,
    /// The log queue no longer accepts entries.
    LogClosed,
}

/// What the handler waits for.
#[derive(Clone, Copy, PartialEq, Eq, Structural, Debug)]
pub enum Stage {
    /// Waiting for the result of a read.
    Reading,
    /// Waiting for the result of writing the last chunk back.
    Echoing,
    /// Waiting for the result of queueing the last chunk's text.
    Logging,
    /// The connection is done; nothing more happens on it.
    Finished,
}

/// What happened when the caller performed the last action.
#[derive(Debug)]
pub enum Event {
    /// A read returned these bytes; an empty read means the peer closed the stream.
    Received(Vec<u8>),
    ReadFailed,
    Echoed,
    WriteFailed,
    Logged,
    LogFailed,
}

/// What the caller must do next.
#[derive(Debug)]
pub enum Action {
    /// Read up to `BUF_SIZE` bytes from the connection.
    Read,
    /// Write exactly these bytes back to the connection.
    Write(Vec<u8>),
    /// Queue a log entry with this text.
    Log(String),
    /// Release the connection and report this outcome.
    Finish(Result<(), HandlerError>),
}

pub ghost enum EventModel {
    Received(Seq<u8>),
    ReadFailed,
    Echoed,
    WriteFailed,
    Logged,
    LogFailed,
}

pub ghost enum ActionModel {
    Read,
    Write(Seq<u8>),
    Log(Seq<char>),
    Finish(Result<(), HandlerError>),
}

impl View for Event {
    type V = EventModel;

    open spec fn view(&self) -> EventModel {
        match self {
            Event::Received(b) => EventModel::Received(b@),
            Event::ReadFailed => EventModel::ReadFailed,
            Event::Echoed => EventModel::Echoed,
            Event::WriteFailed => EventModel::WriteFailed,
            Event::Logged => EventModel::Logged,
            Event::LogFailed => EventModel::LogFailed,
        }
    }
}

impl View for Action {
    type V = ActionModel;

    open spec fn view(&self) -> ActionModel {
        match self {
            Action::Read => ActionModel::Read,
            Action::Write(b) => ActionModel::Write(b@),
            Action::Log(s) => ActionModel::Log(s@),
            Action::Finish(r) => ActionModel::Finish(*r),
        }
    }
}

/// Abstract state of a connection: where it stands, and its whole history.
pub ghost struct HandlerState {
    pub stage: Stage,
    /// Outcome reported once the stage is `Finished`.
    pub outcome: Result<(), HandlerError>,
    /// The non-empty chunks read so far, in order.
    pub chunks: Seq<Seq<u8>>,
    /// All bytes handed out to be written back, in order.
    pub echoed: Seq<u8>,
    /// The texts handed out to be logged, in order.
    pub logged: Seq<Seq<char>>,
}

/// The bytes of all chunks, one after another.
pub open spec fn concat_chunks(chunks: Seq<Seq<u8>>) -> Seq<u8>
    decreases chunks.len(),
{
    if chunks.len() == 0 {
        seq![]
    } else {
        concat_chunks(chunks.drop_last()) + chunks.last()
    }
}

/// State of a fresh connection.
pub open spec fn initial_state() -> HandlerState {
    HandlerState {
        stage: Stage::Reading,
        outcome: Ok(()),
        chunks: seq![],
        echoed: seq![],
        logged: seq![],
    }
}

/// Whether `e` answers the action issued in stage `stage`. A finished handler takes any event.
pub open spec fn event_fits(stage: Stage, e: EventModel) -> bool {
    match stage {
        Stage::Reading => match e {
            EventModel::Received(b) => b.len() <= BUF_SIZE,
            EventModel::ReadFailed => true,
            _ => false,
        },
        Stage::Echoing => e is Echoed || e is WriteFailed,
        Stage::Logging => e is Logged || e is LogFailed,
        Stage::Finished => true,
    }
}

/// Finish with `outcome`, keeping the history.
pub open spec fn finish(s: HandlerState, outcome: Result<(), HandlerError>) -> (HandlerState, ActionModel) {
    (HandlerState { stage: Stage::Finished, outcome: outcome, ..s }, ActionModel::Finish(outcome))
}

/// One step of the protocol: the next state and the action to perform.
pub open spec fn transition(s: HandlerState, e: EventModel) -> (HandlerState, ActionModel) {
    match s.stage {
        Stage::Reading => match e {
            EventModel::Received(b) => if b.len() == 0 {
                finish(s, Ok(()))
            } else {
                (
                    HandlerState {
                        stage: Stage::Echoing,
                        chunks: s.chunks.push(b),
                        echoed: s.echoed + b,
                        ..s
                    },
                    ActionModel::Write(b),
                )
            },
            _ => finish(s, Err(HandlerError::Io)),
        },
        Stage::Echoing => match e {
            EventModel::Echoed => if valid_utf8(s.chunks.last()) {
                let text = decode_utf8(s.chunks.last());
                (
                    HandlerState { stage: Stage::Logging, logged: s.logged.push(text), ..s },
                    ActionModel::Log(text),
                )
            } else {
                finish(s, Err(HandlerError::Decode))
            },
            _ => finish(s, Err(HandlerError::Io)),
        },
        Stage::Logging => match e {
            EventModel::Logged => (HandlerState { stage: Stage::Reading, ..s }, ActionModel::Read),
            _ => finish(s, Err(HandlerError::LogClosed)),
        },
        Stage::Finished => (s, ActionModel::Finish(s.outcome)),
    }
}

/// What holds of every reachable state.
pub open spec fn state_inv(s: HandlerState) -> bool {
    &&& s.echoed == concat_chunks(s.chunks)
    &&& forall|i: int| 0 <= i < s.chunks.len() ==> 0 < #[trigger] s.chunks[i].len() <= BUF_SIZE
    &&& s.logged.len() <= s.chunks.len() <= s.logged.len() + 1
    &&& forall|i: int|
        0 <= i < s.logged.len() ==> valid_utf8(#[trigger] s.chunks[i]) && s.logged[i]
            == decode_utf8(s.chunks[i])
    &&& (s.stage is Reading || s.stage is Logging) ==> s.logged.len() == s.chunks.len()
    &&& s.stage is Echoing ==> s.logged.len() + 1 == s.chunks.len()
    &&& !(s.stage is Finished) ==> s.outcome == Ok::<(), HandlerError>(())
}

/// The invariant holds of a fresh connection, and every step from a state that
/// holds it leads to one that holds it: whatever was written back is exactly the
/// bytes read, in order and across cycles; each logged text is the decoding of
/// the chunk read in the same cycle; and outside a cycle in progress every chunk
/// read has been logged exactly once.
pub proof fn transition_keeps_invariant(s: HandlerState, e: EventModel)
    requires
        state_inv(s),
        event_fits(s.stage, e),
    ensures
        state_inv(initial_state()),
        state_inv(transition(s, e).0),
{
    assert(concat_chunks(initial_state().chunks) == Seq::<u8>::empty());
    if let EventModel::Received(b) = e {
        if s.stage is Reading && b.len() > 0 {
            assert(s.chunks.push(b).drop_last() =~= s.chunks);
        }
    }
}

/// A read of between one and `BUF_SIZE` bytes is answered by writing back
/// exactly those bytes, and the echoed stream grows by exactly them.
pub proof fn echo_identity(s: HandlerState, b: Seq<u8>)
    requires
        s.stage is Reading,
        0 < b.len() <= BUF_SIZE,
    ensures
        transition(s, EventModel::Received(b)).1 == ActionModel::Write(b),
        transition(s, EventModel::Received(b)).0.echoed == s.echoed + b,
{
}

/// A whole cycle on a chunk of valid UTF-8 (read, written back, logged) returns
/// to reading with the chunk appended to the echoed stream and exactly one new
/// log text, the chunk's decoding.
pub proof fn cycle_echoes_and_logs_once(s: HandlerState, b: Seq<u8>)
    requires
        s.stage is Reading,
        0 < b.len() <= BUF_SIZE,
        valid_utf8(b),
    ensures
        ({
            let s1 = transition(s, EventModel::Received(b)).0;
            let (s2, a2) = transition(s1, EventModel::Echoed);
            let (s3, a3) = transition(s2, EventModel::Logged);
            &&& a2 == ActionModel::Log(decode_utf8(b))
            &&& a3 == ActionModel::Read
            &&& s3.stage is Reading
            &&& s3.echoed == s.echoed + b
            &&& s3.logged == s.logged.push(decode_utf8(b))
        }),
{
    assert(s.chunks.push(b).last() == b);
}

/// The events of a connection on which every chunk is read, written back and
/// logged, after which the peer closes the stream.
pub open spec fn session_events(chunks: Seq<Seq<u8>>) -> Seq<EventModel>
    decreases chunks.len(),
{
    if chunks.len() == 0 {
        seq![EventModel::Received(seq![])]
    } else {
        seq![EventModel::Received(chunks[0]), EventModel::Echoed, EventModel::Logged]
            + session_events(chunks.drop_first())
    }
}

/// The actions owed for `session_events(chunks)` when every chunk is valid UTF-8:
/// for each chunk in turn, write it, log its text, read again; then finish.
pub open spec fn session_actions(chunks: Seq<Seq<u8>>) -> Seq<ActionModel>
    decreases chunks.len(),
{
    if chunks.len() == 0 {
        seq![ActionModel::Finish(Ok(()))]
    } else {
        seq![
            ActionModel::Write(chunks[0]),
            ActionModel::Log(decode_utf8(chunks[0])),
            ActionModel::Read,
        ] + session_actions(chunks.drop_first())
    }
}

/// Feeds `events` one after another from `s`: the last state and every action issued.
pub open spec fn run(s: HandlerState, events: Seq<EventModel>) -> (HandlerState, Seq<ActionModel>)
    decreases events.len(),
{
    if events.len() == 0 {
        (s, seq![])
    } else {
        let (t, a) = transition(s, events[0]);
        let (u, rest) = run(t, events.drop_first());
        (u, seq![a] + rest)
    }
}

/// The bytes of all `Write` actions, in order.
pub open spec fn written(actions: Seq<ActionModel>) -> Seq<u8>
    decreases actions.len(),
{
    if actions.len() == 0 {
        seq![]
    } else {
        let head = match actions[0] {
            ActionModel::Write(b) => b,
            _ => seq![],
        };
        head + written(actions.drop_first())
    }
}

/// The texts of all `Log` actions, in order.
pub open spec fn log_texts(actions: Seq<ActionModel>) -> Seq<Seq<char>>
    decreases actions.len(),
{
    if actions.len() == 0 {
        seq![]
    } else {
        let head = match actions[0] {
            ActionModel::Log(t) => seq![t],
            _ => seq![],
        };
        head + log_texts(actions.drop_first())
    }
}

proof fn concat_chunks_prepend(c: Seq<u8>, rest: Seq<Seq<u8>>)
    ensures
        concat_chunks(seq![c] + rest) == c + concat_chunks(rest),
    decreases rest.len(),
{
    let all = seq![c] + rest;
    assert(all.len() > 0);
    assert(concat_chunks(all) == concat_chunks(all.drop_last()) + all.last());
    if rest.len() == 0 {
        assert(all.drop_last() =~= Seq::<Seq<u8>>::empty());
        assert(all.last() == c);
        assert(concat_chunks(Seq::<Seq<u8>>::empty()) == Seq::<u8>::empty());
        assert(Seq::<u8>::empty() + c =~= c);
        assert(c + Seq::<u8>::empty() =~= c);
    } else {
        concat_chunks_prepend(c, rest.drop_last());
        assert(all.drop_last() =~= seq![c] + rest.drop_last());
        assert(all.last() == rest.last());
        assert(concat_chunks(rest) == concat_chunks(rest.drop_last()) + rest.last());
        assert(c + concat_chunks(rest.drop_last()) + rest.last() =~= c + (concat_chunks(
            rest.drop_last(),
        ) + rest.last()));
    }
}

/// A whole connection: the peer sends any number of chunks of valid UTF-8, each
/// read whole and each written back and logged successfully, then closes. The
/// handler issues, in order, each chunk's write, its log text and the next
/// read, then finishes successfully: the bytes written back are exactly the
/// bytes read, with nothing lost, repeated or reordered, and there is exactly
/// one log text per chunk, its decoding, in the order read.
pub proof fn session_echoes_and_logs_everything(s: HandlerState, chunks: Seq<Seq<u8>>)
    requires
        s.stage is Reading,
        forall|i: int|
            0 <= i < chunks.len() ==> 0 < (#[trigger] chunks[i]).len() <= BUF_SIZE && valid_utf8(
                chunks[i],
            ),
    ensures
        ({
            let (t, actions) = run(s, session_events(chunks));
            &&& actions == session_actions(chunks)
            &&& written(actions) == concat_chunks(chunks)
            &&& log_texts(actions) == chunks.map_values(|c: Seq<u8>| decode_utf8(c))
            &&& t.stage is Finished
            &&& t.outcome == Ok::<(), HandlerError>(())
            &&& t.echoed == s.echoed + concat_chunks(chunks)
            &&& t.logged == s.logged + chunks.map_values(|c: Seq<u8>| decode_utf8(c))
        }),
    decreases chunks.len(),
{
    let f = |x: Seq<u8>| decode_utf8(x);
    let ev = session_events(chunks);
    if chunks.len() == 0 {
        let t = finish(s, Ok(())).0;
        assert(ev =~= seq![EventModel::Received(seq![])]);
        assert(ev.drop_first() =~= Seq::<EventModel>::empty());
        assert(run(t, ev.drop_first()) == (t, Seq::<ActionModel>::empty()));
        let acts = run(s, ev).1;
        assert(acts =~= seq![ActionModel::Finish(Ok(()))]);
        assert(acts.drop_first() =~= Seq::<ActionModel>::empty());
        assert(written(acts.drop_first()) == Seq::<u8>::empty());
        assert(log_texts(acts.drop_first()) == Seq::<Seq<char>>::empty());
        assert(written(acts) =~= Seq::<u8>::empty());
        assert(log_texts(acts) =~= Seq::<Seq<char>>::empty());
        assert(chunks.map_values(f) =~= Seq::<Seq<char>>::empty());
        assert(concat_chunks(chunks) == Seq::<u8>::empty());
        assert(s.echoed + concat_chunks(chunks) =~= s.echoed);
        assert(s.logged + chunks.map_values(f) =~= s.logged);
    } else {
        let c = chunks[0];
        let rest = chunks.drop_first();
        assert forall|i: int| 0 <= i < rest.len() implies 0 < (#[trigger] rest[i]).len()
            <= BUF_SIZE && valid_utf8(rest[i]) by {
            assert(rest[i] == chunks[i + 1]);
        }
        cycle_echoes_and_logs_once(s, c);
        let s1 = transition(s, EventModel::Received(c)).0;
        let s2 = transition(s1, EventModel::Echoed).0;
        let s3 = transition(s2, EventModel::Logged).0;
        session_echoes_and_logs_everything(s3, rest);
        let tail = session_events(rest);
        let e1 = ev.drop_first();
        let e2 = e1.drop_first();
        let e3 = e2.drop_first();
        assert(ev[0] == EventModel::Received(c));
        assert(e1 =~= seq![EventModel::Echoed, EventModel::Logged] + tail);
        assert(e1[0] == EventModel::Echoed);
        assert(e2 =~= seq![EventModel::Logged] + tail);
        assert(e2[0] == EventModel::Logged);
        assert(e3 =~= tail);
        let (u, tail_acts) = run(s3, tail);
        assert(run(s2, e2) == (u, seq![ActionModel::Read] + tail_acts));
        assert(run(s1, e1) == (u, seq![ActionModel::Log(decode_utf8(c))] + (seq![
            ActionModel::Read,
        ] + tail_acts)));
        let acts = run(s, ev).1;
        assert(run(s, ev).0 == u);
        assert(acts == seq![ActionModel::Write(c)] + (seq![ActionModel::Log(decode_utf8(c))] + (
        seq![ActionModel::Read] + tail_acts)));
        assert(acts =~= seq![
            ActionModel::Write(c),
            ActionModel::Log(decode_utf8(c)),
            ActionModel::Read,
        ] + tail_acts);
        let a1 = acts.drop_first();
        let a2 = a1.drop_first();
        let a3 = a2.drop_first();
        assert(a1 =~= seq![ActionModel::Log(decode_utf8(c)), ActionModel::Read] + tail_acts);
        assert(a2 =~= seq![ActionModel::Read] + tail_acts);
        assert(a3 =~= tail_acts);
        assert(written(a2) == Seq::<u8>::empty() + written(a3));
        assert(written(a1) == Seq::<u8>::empty() + written(a2));
        assert(written(acts) == c + written(a1));
        assert(written(acts) =~= c + written(tail_acts));
        assert(log_texts(a2) == Seq::<Seq<char>>::empty() + log_texts(a3));
        assert(log_texts(a1) == seq![decode_utf8(c)] + log_texts(a2));
        assert(log_texts(acts) == Seq::<Seq<char>>::empty() + log_texts(a1));
        assert(log_texts(acts) =~= seq![decode_utf8(c)] + log_texts(tail_acts));
        assert(chunks =~= seq![c] + rest);
        concat_chunks_prepend(c, rest);
        assert(chunks.map_values(f) =~= seq![decode_utf8(c)] + rest.map_values(f));
        assert(s.echoed + concat_chunks(chunks) =~= (s.echoed + c) + concat_chunks(rest));
        assert(s.logged + chunks.map_values(f) =~= s.logged.push(decode_utf8(c))
            + rest.map_values(f));
    }
}

/// An empty read, the peer closing the stream, finishes the connection
/// successfully without writing or logging anything, and a finished connection
/// stays finished whatever happens next.
pub proof fn close_is_silent(s: HandlerState, e: EventModel)
    requires
        s.stage is Reading,
    ensures
        ({
            let (t, a) = transition(s, EventModel::Received(seq![]));
            &&& a == ActionModel::Finish(Ok(()))
            &&& t.stage is Finished
            &&& t.echoed == s.echoed
            &&& t.logged == s.logged
            &&& transition(t, e) == (t, ActionModel::Finish(Ok(())))
        }),
{
}

/// The handler of one connection.
pub struct ConnectionHandler {
    stage: Stage,
    outcome: Result<(), HandlerError>,
    pending: Vec<u8>,
    chunks: Ghost<Seq<Seq<u8>>>,
    echoed: Ghost<Seq<u8>>,
    logged: Ghost<Seq<Seq<char>>>,
}

impl View for ConnectionHandler {
    type V = HandlerState;

    closed spec fn view(&self) -> HandlerState {
        HandlerState {
            stage: self.stage,
            outcome: self.outcome,
            chunks: self.chunks@,
            echoed: self.echoed@,
            logged: self.logged@,
        }
    }
}

impl ConnectionHandler {
    #[verifier::type_invariant]
    closed spec fn wf(&self) -> bool {
        &&& state_inv(self@)
        &&& self.stage is Echoing ==> self.pending@ == self.chunks@.last()
    }

    /// A handler for a freshly accepted connection; its first action is `Action::Read`.
    pub fn new() -> (h: ConnectionHandler)
        ensures
            h@ == initial_state(),
            state_inv(h@),
    {
        ConnectionHandler {
            stage: Stage::Reading,
            outcome: Ok(()),
            pending: Vec::new(),
            chunks: Ghost(Seq::empty()),
            echoed: Ghost(Seq::empty()),
            logged: Ghost(Seq::empty()),
        }
    }

    /// The stage the handler is in.
    pub fn stage(&self) -> (r: Stage)
        ensures
            r == self@.stage,
    {
        self.stage
    }

    /// Whether `event` answers the action last issued.
    pub fn accepts(&self, event: &Event) -> (r: bool)
        ensures
            r == event_fits(self@.stage, event@),
    {
        match self.stage {
            Stage::Reading => match event {
                Event::Received(b) => b.len() <= BUF_SIZE,
                Event::ReadFailed => true,
                _ => false,
            },
            Stage::Echoing => match event {
                Event::Echoed | Event::WriteFailed => true,
                _ => false,
            },
            Stage::Logging => match event {
                Event::Logged | Event::LogFailed => true,
                _ => false,
            },
            Stage::Finished => true,
        }
    }

    fn finish(&mut self, outcome: Result<(), HandlerError>) -> (r: Action)
        requires
            state_inv(old(self)@),
        ensures
            (final(self)@, r@) == finish(old(self)@, outcome),
    {
        proof {
            use_type_invariant(&*self);
        }
        self.stage = Stage::Finished;
        self.outcome = outcome;
        Action::Finish(outcome)
    }

    /// Takes what happened on the connection and returns what to do next.
    pub fn step(&mut self, event: Event) -> (r: Action)
        requires
            event_fits(old(self)@.stage, event@),
        ensures
            (final(self)@, r@) == transition(old(self)@, event@),
            state_inv(final(self)@),
    {
        proof {
            use_type_invariant(&*self);
        }
        match self.stage {
            Stage::Reading => match event {
                Event::Received(b) => {
                    if b.len() == 0 {
                        self.finish(Ok(()))
                    } else {
                        let copy = b.clone();
                        let ghost chunks = self.chunks@.push(b@);
                        proof {
                            assert(copy@ =~= b@);
                            assert(chunks.drop_last() =~= self.chunks@);
                        }
                        *self = ConnectionHandler {
                            stage: Stage::Echoing,
                            outcome: self.outcome,
                            pending: copy,
                            chunks: Ghost(chunks),
                            echoed: Ghost(self.echoed@ + b@),
                            logged: Ghost(self.logged@),
                        };
                        Action::Write(b)
                    }
                },
                _ => self.finish(Err(HandlerError::Io)),
            },
            Stage::Echoing => match event {
                Event::Echoed => match decode_text(self.pending.as_slice()) {
                    Some(text) => {
                        *self = ConnectionHandler {
                            stage: Stage::Logging,
                            outcome: self.outcome,
                            pending: Vec::new(),
                            chunks: Ghost(self.chunks@),
                            echoed: Ghost(self.echoed@),
                            logged: Ghost(self.logged@.push(text@)),
                        };
                        Action::Log(text)
                    },
                    None => self.finish(Err(HandlerError::Decode)),
                },
                _ => self.finish(Err(HandlerError::Io)),
            },
            Stage::Logging => match event {
                Event::Logged => {
                    self.stage = Stage::Reading;
                    Action::Read
                },
                _ => self.finish(Err(HandlerError::LogClosed)),
            },
            Stage::Finished => Action::Finish(self.outcome),
        }
    }
}

/// Relies on `String::from_utf8`: it succeeds exactly on valid UTF-8, and the
/// string then holds the characters those bytes encode.
#[verifier::external_body]
pub(crate) fn decode_text(b: &[u8]) -> (r: Option<String>)
    ensures
        match r {
            Some(s) => valid_utf8(b@) && s@ == decode_utf8(b@),
            None => !valid_utf8(b@),
        },
{
    String::from_utf8(b.to_vec()).ok()
}

} // verus!
