use crate::error::SshError;
use crate::health::SSH_PORT;
use vstd::prelude::*;
use vstd::utf8::{decode_utf8, valid_utf8};

verus! {

/// What the remote execution engine asks of the SSH transport next.
pub enum SessionAction {
    /// Open a fresh TCP connection.
    Connect { host: String, port: u16 },
    /// Perform the SSH handshake on it.
    Handshake,
    /// Authenticate with an in-memory private key.
    Authenticate { user: String, private_key: String },
    /// Open one command channel.
    OpenChannel,
    /// Run the command on the channel.
    Exec { command: String },
    /// Read the next chunk of standard output.
    ReadStdout,
    /// Read the next chunk of standard error.
    ReadStderr,
    /// Send end-of-file on the channel.
    SendEof,
    /// Wait for the channel's close acknowledgment.
    WaitClose,
    /// The command ran and its channel is closed.
    Done,
    /// The execution stopped on this error.
    Fail(SshError),
}

/// What came back from the last transport action.
pub enum SessionEvent {
    /// The action succeeded.
    Success,
    /// A read returned these bytes.
    Data(Vec<u8>),
    /// A read reached the end of its stream.
    Eof,
    /// The action failed with this message.
    Failed(String),
}

/// A transport event as a value.
pub enum EventView {
    Success,
    Data(Seq<u8>),
    Eof,
    Failed(String),
}

impl View for SessionEvent {
    type V = EventView;

    open spec fn view(&self) -> EventView {
        match self {
            SessionEvent::Success => EventView::Success,
            SessionEvent::Data(v) => EventView::Data(v@),
            SessionEvent::Eof => EventView::Eof,
            SessionEvent::Failed(m) => EventView::Failed(*m),
        }
    }
}

/// Where a remote execution stands; each phase waits for the event of the
/// action that entered it.
#[derive(Clone, Copy, Debug, PartialEq, Eq, Structural)]
pub enum SessionPhase {
    Connecting,
    Handshaking,
    Authenticating,
    OpeningChannel,
    Executing,
    ReadingStdout,
    ReadingStderr,
    SendingEof,
    Closing,
    Finished,
    Failed,
}

/// The state of an execution as values: its phase and what each stream
/// has delivered so far.
pub struct SessionState {
    pub phase: SessionPhase,
    pub stdout: Seq<u8>,
    pub stderr: Seq<u8>,
}

/// One command run on a host over one fresh SSH session and channel.
/// Nothing is retried: the first failure ends the execution.
pub struct Command {
    pub user: String,
    pub host: String,
    pub private_key: String,
    pub command: String,
    pub phase: SessionPhase,
    /// Standard output received so far.
    pub stdout: Vec<u8>,
    /// Standard error received so far, kept apart from standard output.
    pub stderr: Vec<u8>,
}

/// The next state and action of an execution, given the event of its last
/// action.
pub open spec fn session_step(c: Command, s: SessionState, e: EventView) -> (
    SessionState,
    SessionAction,
) {
    let failed = SessionState { phase: SessionPhase::Failed, ..s };
    match e {
        EventView::Failed(m) => (
            failed,
            SessionAction::Fail(
                match s.phase {
                    SessionPhase::Connecting => SshError::Io(m),
                    SessionPhase::Authenticating => SshError::Auth(m),
                    _ => SshError::Session(m),
                },
            ),
        ),
        _ => match (s.phase, e) {
            (SessionPhase::Connecting, EventView::Success) => (
                SessionState { phase: SessionPhase::Handshaking, ..s },
                SessionAction::Handshake,
            ),
            (SessionPhase::Handshaking, EventView::Success) => (
                SessionState { phase: SessionPhase::Authenticating, ..s },
                SessionAction::Authenticate { user: c.user, private_key: c.private_key },
            ),
            (SessionPhase::Authenticating, EventView::Success) => (
                SessionState { phase: SessionPhase::OpeningChannel, ..s },
                SessionAction::OpenChannel,
            ),
            (SessionPhase::OpeningChannel, EventView::Success) => (
                SessionState { phase: SessionPhase::Executing, ..s },
                SessionAction::Exec { command: c.command },
            ),
            (SessionPhase::Executing, EventView::Success) => (
                SessionState { phase: SessionPhase::ReadingStdout, ..s },
                SessionAction::ReadStdout,
            ),
            (SessionPhase::ReadingStdout, EventView::Data(d)) => (
                SessionState { stdout: s.stdout + d, ..s },
                SessionAction::ReadStdout,
            ),
            (SessionPhase::ReadingStdout, EventView::Eof) => (
                SessionState { phase: SessionPhase::ReadingStderr, ..s },
                SessionAction::ReadStderr,
            ),
            (SessionPhase::ReadingStderr, EventView::Data(d)) => (
                SessionState { stderr: s.stderr + d, ..s },
                SessionAction::ReadStderr,
            ),
            (SessionPhase::ReadingStderr, EventView::Eof) => (
                SessionState { phase: SessionPhase::SendingEof, ..s },
                SessionAction::SendEof,
            ),
            (SessionPhase::SendingEof, EventView::Success) => (
                SessionState { phase: SessionPhase::Closing, ..s },
                SessionAction::WaitClose,
            ),
            (SessionPhase::Closing, EventView::Success) => (
                SessionState { phase: SessionPhase::Finished, ..s },
                SessionAction::Done,
            ),
            _ => (failed, SessionAction::Fail(SshError::UnexpectedEvent)),
        },
    }
}

/// Relies on std's `String::from_utf8`: it succeeds exactly on valid UTF-8,
/// and then holds the characters the bytes encode.
#[verifier::external_body]
fn text_of(bytes: &Vec<u8>) -> (r: Option<String>)
    ensures
        match r {
            Some(s) => valid_utf8(bytes@) && s@ == decode_utf8(bytes@),
            None => !valid_utf8(bytes@),
        },
{
    String::from_utf8(bytes.clone()).ok()
}

impl Command {
    pub open spec fn state(self) -> SessionState {
        SessionState { phase: self.phase, stdout: self.stdout@, stderr: self.stderr@ }
    }

    pub open spec fn is_terminal(self) -> bool {
        self.phase == SessionPhase::Finished || self.phase == SessionPhase::Failed
    }

    /// An execution of `command` on `host` as `user`, and its first action:
    /// connect to the SSH port.
    pub fn new(user: String, host: String, private_key: String, command: String) -> (r: (
        Command,
        SessionAction,
    ))
        ensures
            r.0.user == user,
            r.0.host == host,
            r.0.private_key == private_key,
            r.0.command == command,
            r.0.state() == (SessionState {
                phase: SessionPhase::Connecting,
                stdout: Seq::empty(),
                stderr: Seq::empty(),
            }),
            r.1 == (SessionAction::Connect { host, port: SSH_PORT }),
    {
        let action = SessionAction::Connect { host: host.clone(), port: SSH_PORT };
        (
            Command {
                user,
                host,
                private_key,
                command,
                phase: SessionPhase::Connecting,
                stdout: Vec::new(),
                stderr: Vec::new(),
            },
            action,
        )
    }

    /// The standard output received so far, as text.
    pub fn output(&self) -> (r: Result<String, SshError>)
        ensures
            match r {
                Ok(s) => valid_utf8(self.stdout@) && s@ == decode_utf8(self.stdout@),
                Err(e) => !valid_utf8(self.stdout@) && e == SshError::Utf8,
            },
    {
        match text_of(&self.stdout) {
            Some(s) => Ok(s),
            None => Err(SshError::Utf8),
        }
    }

    /// Advances the execution on the event of its last action.
    pub fn next(&mut self, event: SessionEvent) -> (a: SessionAction)
        requires
            !old(self).is_terminal(),
        ensures
            final(self).user == old(self).user,
            final(self).host == old(self).host,
            final(self).private_key == old(self).private_key,
            final(self).command == old(self).command,
            (final(self).state(), a) == session_step(*old(self), old(self).state(), event@),
    {
        match event {
            SessionEvent::Failed(m) => {
                let err = match self.phase {
                    SessionPhase::Connecting => SshError::Io(m),
                    SessionPhase::Authenticating => SshError::Auth(m),
                    _ => SshError::Session(m),
                };
                self.phase = SessionPhase::Failed;
                SessionAction::Fail(err)
            },
            SessionEvent::Success => match self.phase {
                SessionPhase::Connecting => {
                    self.phase = SessionPhase::Handshaking;
                    SessionAction::Handshake
                },
                SessionPhase::Handshaking => {
                    self.phase = SessionPhase::Authenticating;
                    SessionAction::Authenticate {
                        user: self.user.clone(),
                        private_key: self.private_key.clone(),
                    }
                },
                SessionPhase::Authenticating => {
                    self.phase = SessionPhase::OpeningChannel;
                    SessionAction::OpenChannel
                },
                SessionPhase::OpeningChannel => {
                    self.phase = SessionPhase::Executing;
                    SessionAction::Exec { command: self.command.clone() }
                },
                SessionPhase::Executing => {
                    self.phase = SessionPhase::ReadingStdout;
                    SessionAction::ReadStdout
                },
                SessionPhase::SendingEof => {
                    self.phase = SessionPhase::Closing;
                    SessionAction::WaitClose
                },
                SessionPhase::Closing => {
                    self.phase = SessionPhase::Finished;
                    SessionAction::Done
                },
                _ => {
                    self.phase = SessionPhase::Failed;
                    SessionAction::Fail(SshError::UnexpectedEvent)
                },
            },
            SessionEvent::Data(mut chunk) => match self.phase {
                SessionPhase::ReadingStdout => {
                    self.stdout.append(&mut chunk);
                    SessionAction::ReadStdout
                },
                SessionPhase::ReadingStderr => {
                    self.stderr.append(&mut chunk);
                    SessionAction::ReadStderr
                },
                _ => {
                    self.phase = SessionPhase::Failed;
                    SessionAction::Fail(SshError::UnexpectedEvent)
                },
            },
            SessionEvent::Eof => match self.phase {
                SessionPhase::ReadingStdout => {
                    self.phase = SessionPhase::ReadingStderr;
                    SessionAction::ReadStderr
                },
                SessionPhase::ReadingStderr => {
                    self.phase = SessionPhase::SendingEof;
                    SessionAction::SendEof
                },
                _ => {
                    self.phase = SessionPhase::Failed;
                    SessionAction::Fail(SshError::UnexpectedEvent)
                },
            },
        }
    }
}

/// The chunks one after the other.
pub open spec fn concat_all(chunks: Seq<Seq<u8>>) -> Seq<u8>
    decreases chunks.len(),
{
    if chunks.len() == 0 {
        Seq::empty()
    } else {
        chunks[0] + concat_all(chunks.drop_first())
    }
}

/// Reads that deliver these chunks.
pub open spec fn data_events(chunks: Seq<Seq<u8>>) -> Seq<EventView> {
    chunks.map_values(|d: Seq<u8>| EventView::Data(d))
}

/// The state of an execution after a run of events, until it ends.
pub open spec fn feed(c: Command, s: SessionState, events: Seq<EventView>) -> SessionState
    decreases events.len(),
{
    if events.len() == 0 || s.phase == SessionPhase::Finished || s.phase == SessionPhase::Failed {
        s
    } else {
        feed(c, session_step(c, s, events[0]).0, events.drop_first())
    }
}

proof fn lemma_feed_stdout(c: Command, s: SessionState, chunks: Seq<Seq<u8>>, rest: Seq<EventView>)
    requires
        s.phase == SessionPhase::ReadingStdout,
    ensures
        feed(c, s, data_events(chunks) + rest) == feed(
            c,
            SessionState { stdout: s.stdout + concat_all(chunks), ..s },
            rest,
        ),
    decreases chunks.len(),
{
    if chunks.len() == 0 {
        assert(data_events(chunks) + rest =~= rest);
        assert(s.stdout + concat_all(chunks) =~= s.stdout);
    } else {
        let evs = data_events(chunks) + rest;
        let s1 = SessionState { stdout: s.stdout + chunks[0], ..s };
        assert(evs[0] == EventView::Data(chunks[0]));
        assert(evs.drop_first() =~= data_events(chunks.drop_first()) + rest);
        lemma_feed_stdout(c, s1, chunks.drop_first(), rest);
        assert(s1.stdout + concat_all(chunks.drop_first()) =~= s.stdout + concat_all(chunks));
    }
}

proof fn lemma_feed_stderr(c: Command, s: SessionState, chunks: Seq<Seq<u8>>, rest: Seq<EventView>)
    requires
        s.phase == SessionPhase::ReadingStderr,
    ensures
        feed(c, s, data_events(chunks) + rest) == feed(
            c,
            SessionState { stderr: s.stderr + concat_all(chunks), ..s },
            rest,
        ),
    decreases chunks.len(),
{
    if chunks.len() == 0 {
        assert(data_events(chunks) + rest =~= rest);
        assert(s.stderr + concat_all(chunks) =~= s.stderr);
    } else {
        let evs = data_events(chunks) + rest;
        let s1 = SessionState { stderr: s.stderr + chunks[0], ..s };
        assert(evs[0] == EventView::Data(chunks[0]));
        assert(evs.drop_first() =~= data_events(chunks.drop_first()) + rest);
        lemma_feed_stderr(c, s1, chunks.drop_first(), rest);
        assert(s1.stderr + concat_all(chunks.drop_first()) =~= s.stderr + concat_all(chunks));
    }
}

/// Once the command runs, the standard output buffer gains exactly the
/// bytes of every standard output read, in order, up to the end of that
/// stream; standard error is gathered apart in the same way, and neither
/// stream's bytes reach the other's buffer.
pub proof fn lemma_output_concatenates(
    c: Command,
    s: SessionState,
    out: Seq<Seq<u8>>,
    err: Seq<Seq<u8>>,
)
    requires
        s.phase == SessionPhase::ReadingStdout,
    ensures
        feed(c, s, data_events(out) + seq![EventView::Eof] + data_events(err) + seq![EventView::Eof])
            == (SessionState {
            phase: SessionPhase::SendingEof,
            stdout: s.stdout + concat_all(out),
            stderr: s.stderr + concat_all(err),
        }),
{
    let tail = seq![EventView::Eof] + data_events(err) + seq![EventView::Eof];
    assert(data_events(out) + seq![EventView::Eof] + data_events(err) + seq![EventView::Eof]
        =~= data_events(out) + tail);
    lemma_feed_stdout(c, s, out, tail);
    let s1 = SessionState { stdout: s.stdout + concat_all(out), ..s };
    let s2 = SessionState { phase: SessionPhase::ReadingStderr, ..s1 };
    let tail2 = data_events(err) + seq![EventView::Eof];
    assert(tail.drop_first() =~= tail2);
    assert(feed(c, s1, tail) == feed(c, s2, tail2));
    lemma_feed_stderr(c, s2, err, seq![EventView::Eof]);
    let s3 = SessionState { stderr: s.stderr + concat_all(err), ..s2 };
    let s4 = SessionState { phase: SessionPhase::SendingEof, ..s3 };
    assert(seq![EventView::Eof].drop_first() =~= Seq::<EventView>::empty());
    assert(feed(c, s3, seq![EventView::Eof]) == feed(c, s4, Seq::<EventView>::empty()));
}

} // verus!
