//! The session handler: what one connection does with the lines it reads.
//!
//! The library decides; the caller performs the reads and writes. A
//! [`Session`] is the state of one connection. The caller looks at the state,
//! does the work that the state asks for, and reports how it went:
//!
//! * `Reading`: read a line and report it with [`Session::on_read`];
//! * `Dispatching`: take hold of the store and call [`Session::dispatch`];
//! * `Responding`: write [`Session::outgoing`] and report with
//!   [`Session::on_write`];
//! * `Closed`: release the connection.
//!
//! The store is touched in `Dispatching` only, so whatever guards it is held
//! for one store operation and never across a read or a write.

use crate::clock::current_timestamp;
use crate::json::{object_text, parsed_object};
use crate::protocol::{
    decode, decoded, error_message, error_response, ok_response, outcome_view,
    response_members, value_response, Command, CommandView, ParseError, ParseErrorView,
    Response, ResponseView,
};
use crate::store::{lookup, store_after_set, Store, StoreView};
use vstd::prelude::*;

verus! {

/// What a `set` without a value is answered with.
pub open spec fn missing_value_message() -> Seq<char> {
    "'set' command requires 'value' field"@
}

/// What a command that is neither `set` nor `get` is answered with.
pub open spec fn unknown_command_message() -> Seq<char> {
    "unknown command"@
}

/// The store after a command has been carried out at `now`: a `set` with a
/// value writes its entry, and every other command leaves the store as it is.
pub open spec fn store_after_command(
    store: StoreView,
    command: CommandView,
    now: i64,
) -> StoreView {
    if command.command == "set"@ && command.value.is_some() {
        store_after_set(store, command.key, command.value.unwrap(), command.ttl, now)
    } else {
        store
    }
}

/// The value that a `get` reports: the one read, or the empty string where
/// the key has no readable entry.
pub open spec fn reported_value(found: Option<Seq<char>>) -> Seq<char> {
    match found {
        Some(value) => value,
        None => Seq::empty(),
    }
}

/// The response to a command carried out at `now` on `store`.
pub open spec fn response_to_command(
    store: StoreView,
    command: CommandView,
    now: i64,
) -> ResponseView {
    if command.command == "set"@ {
        if command.value.is_some() {
            ok_response()
        } else {
            error_response(missing_value_message())
        }
    } else if command.command == "get"@ {
        value_response(reported_value(lookup(store, command.key, now)))
    } else {
        error_response(unknown_command_message())
    }
}

/// Carries out one command on the store as of the instant `now`.
///
/// A `set` with a value writes the entry and answers `ok`. A `set` without
/// one answers with an error and leaves the store alone. A `get` answers
/// `ok` with the value read, empty where there is none. Any other command
/// is answered with the error `unknown command`.
pub fn execute_at(store: &mut Store, command: Command, now: i64) -> (response: Response)
    ensures
        final(store)@ == store_after_command(old(store)@, command@, now),
        response@ == response_to_command(old(store)@, command@, now),
{
    let Command { command: name, key, value, ttl } = command;
    if name == "set".to_owned() {
        match value {
            Some(value) => {
                store.set_at(key, value, ttl, now);
                Response::ok()
            },
            None => Response::error("'set' command requires 'value' field".to_owned()),
        }
    } else if name == "get".to_owned() {
        match store.get_at(key.as_str(), now) {
            Some(value) => Response::with_value(value),
            None => Response::with_value(String::new()),
        }
    } else {
        Response::error("unknown command".to_owned())
    }
}

/// The store after a decoded line has been answered: a line that is no
/// request leaves it as it is.
pub open spec fn store_after_request(
    store: StoreView,
    request: Result<CommandView, ParseErrorView>,
    now: i64,
) -> StoreView {
    match request {
        Ok(command) => store_after_command(store, command, now),
        Err(_) => store,
    }
}

/// The response to a decoded line: a line that is no request is answered
/// with an error that carries the description of what is wrong with it.
pub open spec fn response_to_request(
    store: StoreView,
    request: Result<CommandView, ParseErrorView>,
    now: i64,
) -> ResponseView {
    match request {
        Ok(command) => response_to_command(store, command, now),
        Err(error) => error_response(error_message(error)),
    }
}

/// Answers the outcome of decoding one line, as of the instant `now`.
pub fn answer_at(store: &mut Store, request: Result<Command, ParseError>, now: i64) -> (response:
    Response)
    ensures
        final(store)@ == store_after_request(old(store)@, outcome_view(request), now),
        response@ == response_to_request(old(store)@, outcome_view(request), now),
{
    match request {
        Ok(command) => execute_at(store, command, now),
        Err(error) => Response::error(error.message()),
    }
}

/// A response text with its framing: the line break that ends it.
pub open spec fn framed(text: Seq<char>) -> Seq<char> {
    text + "\n"@
}

/// The line that answers `line`, given what the store held and the instant.
pub open spec fn reply_to_line(store: StoreView, line: Seq<char>, now: i64) -> Seq<char> {
    framed(
        object_text(
            response_members(response_to_request(store, decoded(parsed_object(line)), now)),
        ),
    )
}

/// The store after `line` has been answered at `now`.
pub open spec fn store_after_line(store: StoreView, line: Seq<char>, now: i64) -> StoreView {
    store_after_request(store, decoded(parsed_object(line)), now)
}

/// Whether a text is exactly one line: it ends with a line break and holds
/// no other.
pub open spec fn is_one_line(text: Seq<char>) -> bool {
    text.len() > 0 && text.last() == '\n' && !text.drop_last().contains('\n')
}

/// Handles one line of input as of the instant `now`: decodes it, carries
/// the command out, and returns the encoded response with its line break.
pub fn handle_line_at(store: &mut Store, line: &str, now: i64) -> (reply: String)
    ensures
        final(store)@ == store_after_line(old(store)@, line@, now),
        reply@ == reply_to_line(old(store)@, line@, now),
        is_one_line(reply@),
{
    let response = answer_at(store, decode(line), now);
    let text = response.encode();
    proof {
        reveal_strlit("\n");
        assert("\n"@ =~= seq!['\n']);
        assert((text@ + "\n"@).drop_last() =~= text@);
    }
    text.concat("\n")
}

/// Handles one line of input as of the current time.
///
/// The clock decides the instant, so the contract holds for whichever
/// instant it gave.
pub fn handle_line(store: &mut Store, line: &str) -> (reply: String)
    ensures
        exists|now: i64|
            final(store)@ == #[trigger] store_after_line(old(store)@, line@, now) && reply@
                == reply_to_line(old(store)@, line@, now),
        is_one_line(reply@),
{
    let now = current_timestamp();
    handle_line_at(store, line, now)
}

/// Where a session stands.
#[derive(Clone, Copy, Debug, PartialEq, Eq, Structural)]
pub enum State {
    /// Waiting for the next line from the peer.
    Reading,
    /// A line has been read and is waiting to be carried out on the store.
    Dispatching,
    /// A response is waiting to be written to the peer.
    Responding,
    /// The connection is over. Nothing is read or written any more.
    Closed,
}

/// How an attempt to read a line went.
#[derive(Clone, Debug, PartialEq, Eq)]
pub enum ReadOutcome {
    /// What was read, line break included. An empty text is a read of zero
    /// length and counts as the end of the stream.
    Line(String),
    /// The peer closed the stream in good order.
    EndOfStream,
    /// The read failed.
    Failed,
}

/// The mathematical content of a [`ReadOutcome`].
pub enum ReadOutcomeView {
    Line(Seq<char>),
    EndOfStream,
    Failed,
}

impl View for ReadOutcome {
    type V = ReadOutcomeView;

    open spec fn view(&self) -> ReadOutcomeView {
        match self {
            ReadOutcome::Line(text) => ReadOutcomeView::Line(text@),
            ReadOutcome::EndOfStream => ReadOutcomeView::EndOfStream,
            ReadOutcome::Failed => ReadOutcomeView::Failed,
        }
    }
}

/// How an attempt to write a response went.
#[derive(Clone, Copy, Debug, PartialEq, Eq, Structural)]
pub enum WriteOutcome {
    /// The whole response went out.
    Written,
    /// The write failed. It is not tried again.
    Failed,
}

/// The mathematical content of a [`Session`].
pub struct SessionView {
    pub state: State,
    /// In `Dispatching` the line that was read, in `Responding` the response
    /// to write, and empty otherwise.
    pub pending: Seq<char>,
}

/// A session that has just been accepted.
pub open spec fn fresh_session() -> SessionView {
    SessionView { state: State::Reading, pending: Seq::empty() }
}

/// A session that is over.
pub open spec fn closed_session() -> SessionView {
    SessionView { state: State::Closed, pending: Seq::empty() }
}

/// The session after a read was reported. A session that is not reading
/// ignores the report. A line that is not empty goes on to be dispatched;
/// the end of the stream and a failed read close the session.
pub open spec fn session_after_read(session: SessionView, outcome: ReadOutcomeView) -> SessionView {
    if session.state != State::Reading {
        session
    } else {
        match outcome {
            ReadOutcomeView::Line(text) => if text.len() > 0 {
                SessionView { state: State::Dispatching, pending: text }
            } else {
                closed_session()
            },
            ReadOutcomeView::EndOfStream => closed_session(),
            ReadOutcomeView::Failed => closed_session(),
        }
    }
}

/// The session after its pending line was dispatched at `now`. A malformed
/// line is answered like any other: the session goes on to respond.
pub open spec fn session_after_dispatch(
    session: SessionView,
    store: StoreView,
    now: i64,
) -> SessionView {
    if session.state != State::Dispatching {
        session
    } else {
        SessionView {
            state: State::Responding,
            pending: reply_to_line(store, session.pending, now),
        }
    }
}

/// The store after a session dispatched its pending line at `now`.
pub open spec fn store_after_dispatch(
    session: SessionView,
    store: StoreView,
    now: i64,
) -> StoreView {
    if session.state != State::Dispatching {
        store
    } else {
        store_after_line(store, session.pending, now)
    }
}

/// The session after a write was reported. A session that is not responding
/// ignores the report. After a complete write the session reads again; a
/// failed write closes it.
pub open spec fn session_after_write(session: SessionView, outcome: WriteOutcome) -> SessionView {
    if session.state != State::Responding {
        session
    } else {
        match outcome {
            WriteOutcome::Written => fresh_session(),
            WriteOutcome::Failed => closed_session(),
        }
    }
}

/// The state of one connection.
pub struct Session {
    state: State,
    pending: String,
}

impl View for Session {
    type V = SessionView;

    closed spec fn view(&self) -> SessionView {
        SessionView { state: self.state, pending: self.pending@ }
    }
}

impl Session {
    /// The session of a connection that has just been accepted.
    pub fn new() -> (session: Session)
        ensures
            session@ == fresh_session(),
    {
        Session { state: State::Reading, pending: String::new() }
    }

    /// Where the session stands.
    pub fn state(&self) -> (state: State)
        ensures
            state == self@.state,
    {
        self.state
    }

    /// Whether the connection is over.
    pub fn is_closed(&self) -> (closed: bool)
        ensures
            closed == (self@.state == State::Closed),
    {
        match self.state {
            State::Closed => true,
            _ => false,
        }
    }

    /// The text to write while the session is responding.
    pub fn outgoing(&self) -> (text: &str)
        ensures
            text@ == self@.pending,
    {
        self.pending.as_str()
    }

    /// Reports how the read went that the session was waiting for.
    pub fn on_read(&mut self, outcome: ReadOutcome)
        ensures
            final(self)@ == session_after_read(old(self)@, outcome@),
    {
        match self.state {
            State::Reading => {
                match outcome {
                    ReadOutcome::Line(text) => {
                        if !text.as_str().is_empty() {
                            self.state = State::Dispatching;
                            self.pending = text;
                        } else {
                            self.state = State::Closed;
                            self.pending = String::new();
                        }
                    },
                    ReadOutcome::EndOfStream => {
                        self.state = State::Closed;
                        self.pending = String::new();
                    },
                    ReadOutcome::Failed => {
                        self.state = State::Closed;
                        self.pending = String::new();
                    },
                }
            },
            _ => {},
        }
    }

    /// Carries out the pending line on the store as of the instant `now`,
    /// and holds the response ready to be written.
    pub fn dispatch_at(&mut self, store: &mut Store, now: i64)
        ensures
            final(self)@ == session_after_dispatch(old(self)@, old(store)@, now),
            final(store)@ == store_after_dispatch(old(self)@, old(store)@, now),
    {
        match self.state {
            State::Dispatching => {
                let reply = handle_line_at(store, self.pending.as_str(), now);
                self.state = State::Responding;
                self.pending = reply;
            },
            _ => {},
        }
    }

    /// Carries out the pending line on the store as of the current time.
    ///
    /// The clock decides the instant, so the contract holds for whichever
    /// instant it gave.
    pub fn dispatch(&mut self, store: &mut Store)
        ensures
            exists|now: i64|
                final(self)@ == #[trigger] session_after_dispatch(old(self)@, old(store)@, now)
                    && final(store)@ == store_after_dispatch(old(self)@, old(store)@, now),
    {
        let now = current_timestamp();
        self.dispatch_at(store, now);
    }

    /// Reports how the write of the response went.
    pub fn on_write(&mut self, outcome: WriteOutcome)
        ensures
            final(self)@ == session_after_write(old(self)@, outcome),
    {
        match self.state {
            State::Responding => {
                match outcome {
                    WriteOutcome::Written => {
                        self.state = State::Reading;
                    },
                    WriteOutcome::Failed => {
                        self.state = State::Closed;
                    },
                }
                self.pending = String::new();
            },
            _ => {},
        }
    }
}

/// The command that stores `value` under `key`.
pub open spec fn set_command(key: Seq<char>, value: Seq<char>, ttl: Option<i64>) -> CommandView {
    CommandView { command: "set"@, key, value: Some(value), ttl }
}

/// A command that reads `key`. Whatever else it carries is ignored.
pub open spec fn is_get_of(command: CommandView, key: Seq<char>) -> bool {
    command.command == "get"@ && command.key == key
}

/// A `set` followed by a `get` of the same key returns the value that was
/// set, whichever sessions the two commands came from, unless the entry has
/// expired by the time of the `get`: then the value returned is empty.
pub proof fn lemma_set_then_get_round_trip(
    store: StoreView,
    key: Seq<char>,
    value: Seq<char>,
    ttl: Option<i64>,
    set_at: i64,
    get: CommandView,
    get_at: i64,
)
    requires
        is_get_of(get, key),
    ensures
        response_to_command(store, set_command(key, value, ttl), set_at) == ok_response(),
        response_to_command(
            store_after_command(store, set_command(key, value, ttl), set_at),
            get,
            get_at,
        ) == if ttl.is_some() && set_at + ttl.unwrap() < get_at {
            value_response(Seq::empty())
        } else {
            value_response(value)
        },
{
    reveal_strlit("set");
    reveal_strlit("get");
    assert("set"@ != "get"@) by {
        assert("set"@[0] != "get"@[0]);
    }
}

/// The round trip holds across sessions: when one session dispatches a line
/// that sets a key and then any session, the same or another, dispatches a
/// line that gets it, the second is handed the response that carries the
/// value, as long as the entry has not expired by then.
pub proof fn lemma_round_trip_across_sessions(
    writer: SessionView,
    reader: SessionView,
    store: StoreView,
    key: Seq<char>,
    value: Seq<char>,
    ttl: Option<i64>,
    set_at: i64,
    get: CommandView,
    get_at: i64,
)
    requires
        writer.state == State::Dispatching,
        reader.state == State::Dispatching,
        decoded(parsed_object(writer.pending)) == Ok::<CommandView, ParseErrorView>(
            set_command(key, value, ttl),
        ),
        decoded(parsed_object(reader.pending)) == Ok::<CommandView, ParseErrorView>(get),
        is_get_of(get, key),
        !(ttl.is_some() && set_at + ttl.unwrap() < get_at),
    ensures
        session_after_dispatch(writer, store, set_at).pending == framed(
            object_text(response_members(ok_response())),
        ),
        session_after_dispatch(
            reader,
            store_after_dispatch(writer, store, set_at),
            get_at,
        ).pending == framed(object_text(response_members(value_response(value)))),
{
    lemma_set_then_get_round_trip(store, key, value, ttl, set_at, get, get_at);
}

/// A value set without a time-to-live is returned by a `get` at every later
/// or earlier instant.
pub proof fn lemma_value_without_ttl_persists(
    store: StoreView,
    key: Seq<char>,
    value: Seq<char>,
    set_at: i64,
    get: CommandView,
    get_at: i64,
)
    requires
        is_get_of(get, key),
    ensures
        response_to_command(
            store_after_command(store, set_command(key, value, None), set_at),
            get,
            get_at,
        ) == value_response(value),
{
    lemma_set_then_get_round_trip(store, key, value, None, set_at, get, get_at);
}

/// A `set` without a value is answered with an error and changes nothing:
/// whatever the key held before, it still holds.
pub proof fn lemma_set_without_value_changes_nothing(
    store: StoreView,
    command: CommandView,
    now: i64,
)
    requires
        command.command == "set"@,
        command.value.is_none(),
    ensures
        response_to_command(store, command, now) == error_response(missing_value_message()),
        store_after_command(store, command, now) == store,
{
}

/// A `get` changes nothing, and on a key without an entry it is answered
/// `ok` with an empty value.
pub proof fn lemma_get_of_missing_key(store: StoreView, command: CommandView, now: i64)
    requires
        command.command == "get"@,
        !store.contains_key(command.key),
    ensures
        response_to_command(store, command, now) == value_response(Seq::empty()),
        store_after_command(store, command, now) == store,
{
    reveal_strlit("set");
    reveal_strlit("get");
    assert("set"@ != "get"@) by {
        assert("set"@[0] != "get"@[0]);
    }
}

/// A line that is no request does not end the session. The store is left
/// alone, the client is answered with an error that carries the description
/// of what is wrong, and once that answer is written the session reads the
/// next line.
pub proof fn lemma_malformed_line_keeps_session(
    session: SessionView,
    store: StoreView,
    error: ParseErrorView,
    now: i64,
)
    requires
        session.state == State::Dispatching,
        decoded(parsed_object(session.pending)) == Err::<CommandView, ParseErrorView>(error),
    ensures
        store_after_dispatch(session, store, now) == store,
        session_after_dispatch(session, store, now) == (SessionView {
            state: State::Responding,
            pending: framed(object_text(response_members(error_response(error_message(error))))),
        }),
        session_after_write(session_after_dispatch(session, store, now), WriteOutcome::Written)
            == fresh_session(),
{
}

/// Every line that is read is answered: whatever the line holds, a session
/// that dispatches goes on to respond, and after the write it reads again.
pub proof fn lemma_every_line_is_answered(
    line: Seq<char>,
    store: StoreView,
    now: i64,
)
    requires
        line.len() > 0,
    ensures
        session_after_read(fresh_session(), ReadOutcomeView::Line(line)).state
            == State::Dispatching,
        session_after_dispatch(
            session_after_read(fresh_session(), ReadOutcomeView::Line(line)),
            store,
            now,
        ) == (SessionView { state: State::Responding, pending: reply_to_line(store, line, now) }),
        session_after_write(
            session_after_dispatch(
                session_after_read(fresh_session(), ReadOutcomeView::Line(line)),
                store,
                now,
            ),
            WriteOutcome::Written,
        ) == fresh_session(),
{
}

/// A closed session stays closed and leaves the store alone, whatever is
/// reported to it.
pub proof fn lemma_closed_is_final(
    session: SessionView,
    store: StoreView,
    read: ReadOutcomeView,
    write: WriteOutcome,
    now: i64,
)
    requires
        session.state == State::Closed,
    ensures
        session_after_read(session, read) == session,
        session_after_dispatch(session, store, now) == session,
        store_after_dispatch(session, store, now) == store,
        session_after_write(session, write) == session,
{
}

/// The end of the stream, a failed read and a failed write each close the
/// session.
pub proof fn lemma_transport_failure_closes(session: SessionView)
    ensures
        session.state == State::Reading ==> session_after_read(
            session,
            ReadOutcomeView::EndOfStream,
        ).state == State::Closed,
        session.state == State::Reading ==> session_after_read(
            session,
            ReadOutcomeView::Failed,
        ).state == State::Closed,
        session.state == State::Responding ==> session_after_write(
            session,
            WriteOutcome::Failed,
        ).state == State::Closed,
{
}

} // verus!
