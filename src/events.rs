//! The decisions of the event multiplexer and of the audio ingest task. The
//! loops that wait on the timer, the terminal and the sockets run outside;
//! each iteration hands what became ready to these functions.
use vstd::prelude::*;

verus! {

/// Size of the buffer a control-channel read fills, and of a network update.
pub const NET_BUFFER_LEN: usize = 1024;

/// Most bytes one audio-channel read takes into a chunk.
pub const CHUNK_SIZE: usize = 10000;

/// Period of the tick event in milliseconds.
pub const TICK_RATE_MS: u64 = 250;

/// A key of the terminal, as far as the client tells keys apart.
#[derive(Debug, Clone, Copy, PartialEq, Eq, Structural)]
pub enum KeyCode {
    Esc,
    Enter,
    Tab,
    Up,
    Down,
    Char(char),
    Other,
}

/// A key notification from the terminal.
#[derive(Debug, Clone, Copy, PartialEq, Eq, Structural)]
pub struct KeyInput {
    pub code: KeyCode,
    /// The control modifier alone was held.
    pub ctrl: bool,
    /// The notification is a press (not a repeat or a release).
    pub pressed: bool,
}

/// A mouse notification from the terminal.
#[derive(Debug, Clone, Copy, PartialEq, Eq, Structural)]
pub struct MouseInput {
    pub column: u16,
    pub row: u16,
}

/// A notification read from the terminal.
#[derive(Debug, Clone, PartialEq, Eq)]
pub enum TerminalInput {
    Key(KeyInput),
    Mouse(MouseInput),
    Resize(u16, u16),
    FocusGained,
    FocusLost,
    Paste(String),
}

/// Outcome of one non-blocking read on the control channel.
#[derive(Debug, Clone, PartialEq, Eq)]
pub enum Probe {
    /// The bytes read; none on a zero-length read.
    Read(Vec<u8>),
    /// No data was ready.
    WouldBlock,
    /// The read failed.
    Failed,
}

/// What became ready in one iteration of the multiplexer.
#[derive(Debug, Clone, PartialEq, Eq)]
pub enum Readiness {
    TimerElapsed,
    Socket(Probe),
    Terminal(TerminalInput),
}

/// An event handed to the control loop.
#[derive(Debug, Clone, PartialEq, Eq)]
pub enum Event {
    Tick,
    Key(KeyInput),
    Mouse(MouseInput),
    Resize(u16, u16),
    /// A control-channel read, zero-padded to `NET_BUFFER_LEN` bytes.
    Net(Vec<u8>),
    /// Enter was pressed: upload the selected file.
    FileTransfer,
}

/// State of the multiplexer.
#[derive(Debug, Clone, Copy, PartialEq, Eq, Structural)]
pub enum MuxState {
    Running,
    ShuttingDown,
}

/// `data` followed by zeros up to `NET_BUFFER_LEN` bytes (cut there if longer).
pub open spec fn padded(data: Seq<u8>) -> Seq<u8> {
    Seq::new(
        NET_BUFFER_LEN as nat,
        |i: int|
            if i < data.len() {
                data[i]
            } else {
                0u8
            },
    )
}

/// The event, if any, for a terminal notification.
pub open spec fn terminal_event(input: TerminalInput) -> Option<Event> {
    match input {
        TerminalInput::Key(k) => if !k.pressed {
            None
        } else if k.code == KeyCode::Enter {
            Some(Event::FileTransfer)
        } else {
            Some(Event::Key(k))
        },
        TerminalInput::Mouse(m) => Some(Event::Mouse(m)),
        TerminalInput::Resize(w, h) => Some(Event::Resize(w, h)),
        _ => None,
    }
}

/// Whether `out` is the event for a control-channel probe: a read of at
/// least one byte gives a network update; a zero-length read, no data or a
/// failed read gives none.
pub open spec fn probe_emits(probe: Probe, out: Option<Event>) -> bool {
    match probe {
        Probe::Read(data) => if data@.len() == 0 {
            out is None
        } else {
            &&& out is Some
            &&& out->Some_0 is Net
            &&& out->Some_0->Net_0@ == padded(data@)
        },
        _ => out is None,
    }
}

/// Whether `next` and `out` are the next state of the multiplexer and the
/// event it emits. A shutdown request wins over whatever else is ready, and
/// shutting down is final.
pub open spec fn mux_step(
    state: MuxState,
    shutdown: bool,
    ready: Readiness,
    next: MuxState,
    out: Option<Event>,
) -> bool {
    if shutdown || state == MuxState::ShuttingDown {
        next == MuxState::ShuttingDown && out is None
    } else {
        &&& next == MuxState::Running
        &&& match ready {
            Readiness::TimerElapsed => out == Some(Event::Tick),
            Readiness::Socket(p) => probe_emits(p, out),
            Readiness::Terminal(t) => out == terminal_event(t),
        }
    }
}

/// Outcome of one read on the audio channel into the ingest buffer.
#[derive(Debug, Clone, Copy, PartialEq, Eq, Structural)]
pub enum ReadOutcome {
    /// This many bytes were read; zero means the stream closed.
    Read(usize),
    /// No data was ready.
    WouldBlock,
    /// The read failed.
    Failed,
}

/// Outcome of handing a chunk to the bounded ingest channel.
#[derive(Debug, Clone, PartialEq, Eq)]
pub enum SendOutcome {
    /// The channel took the chunk.
    Sent,
    /// The channel is full; the chunk comes back.
    Full(Vec<u8>),
    /// The receiving side is gone.
    Closed,
}

/// What the ingest task does next.
#[derive(Debug, Clone, PartialEq, Eq)]
pub enum IngestAction {
    /// Hand this chunk to the channel.
    Send(Vec<u8>),
    /// Read the socket again.
    ReadAgain,
    /// End the task, dropping the sending side.
    Stop,
}

/// Whether `r` is the ingest task's answer to a read of `buffer`: a shutdown
/// request, a closed stream or a failed read stop it; `WouldBlock` reads again;
/// `n` bytes read become the chunk of the first `n` bytes of `buffer`.
pub open spec fn ingest_after_read(
    shutdown: bool,
    outcome: ReadOutcome,
    buffer: Seq<u8>,
    r: IngestAction,
) -> bool {
    if shutdown {
        r is Stop
    } else {
        match outcome {
            ReadOutcome::Read(n) => if n == 0 {
                r is Stop
            } else {
                r is Send && r->Send_0@ == buffer.take(n as int)
            },
            ReadOutcome::WouldBlock => r is ReadAgain,
            ReadOutcome::Failed => r is Stop,
        }
    }
}

/// Whether `r` is the ingest task's answer to a send: a full channel gives the
/// same chunk back to be sent again, so nothing is lost unreported.
pub open spec fn ingest_after_send(shutdown: bool, outcome: SendOutcome, r: IngestAction) -> bool {
    if shutdown {
        r is Stop
    } else {
        match outcome {
            SendOutcome::Sent => r is ReadAgain,
            SendOutcome::Full(c) => r == IngestAction::Send(c),
            SendOutcome::Closed => r is Stop,
        }
    }
}

/// `data` followed by zeros up to `NET_BUFFER_LEN` bytes (cut there if longer).
pub fn pad_update(data: &[u8]) -> (r: Vec<u8>)
    ensures
        r@ == padded(data@),
{
    let mut r: Vec<u8> = Vec::new();
    let mut i: usize = 0;
    while i < NET_BUFFER_LEN
        invariant
            i <= NET_BUFFER_LEN,
            r@.len() == i,
            forall|j: int| 0 <= j < i ==> r@[j] == padded(data@)[j],
        decreases NET_BUFFER_LEN - i,
    {
        if i < data.len() {
            r.push(data[i]);
        } else {
            r.push(0u8);
        }
        i = i + 1;
    }
    assert(r@ =~= padded(data@));
    r
}

/// The event, if any, for a terminal notification: a key press of Enter asks
/// for an upload; other key presses, mouse and resize notifications pass on;
/// key releases, focus changes and pastes are dropped.
pub fn classify_terminal(input: TerminalInput) -> (r: Option<Event>)
    ensures
        r == terminal_event(input),
{
    match input {
        TerminalInput::Key(k) => {
            if !k.pressed {
                None
            } else if let KeyCode::Enter = k.code {
                Some(Event::FileTransfer)
            } else {
                Some(Event::Key(k))
            }
        },
        TerminalInput::Mouse(m) => Some(Event::Mouse(m)),
        TerminalInput::Resize(w, h) => Some(Event::Resize(w, h)),
        _ => None,
    }
}

/// The event, if any, for a probe of the control channel.
pub fn classify_probe(probe: Probe) -> (r: Option<Event>)
    ensures
        probe_emits(probe, r),
{
    match probe {
        Probe::Read(data) => {
            if data.len() == 0 {
                None
            } else {
                Some(Event::Net(pad_update(data.as_slice())))
            }
        },
        _ => None,
    }
}

/// The multiplexer: it turns what became ready into events until shutdown.
pub struct Multiplexer {
    state: MuxState,
}

impl Multiplexer {
    /// The current state.
    pub closed spec fn view_state(&self) -> MuxState {
        self.state
    }

    /// A running multiplexer.
    pub fn new() -> (r: Self)
        ensures
            r.view_state() == MuxState::Running,
    {
        Multiplexer { state: MuxState::Running }
    }

    /// Whether the multiplexer still produces events.
    pub fn is_running(&self) -> (r: bool)
        ensures
            r == (self.view_state() == MuxState::Running),
    {
        match self.state {
            MuxState::Running => true,
            MuxState::ShuttingDown => false,
        }
    }

    /// One iteration: `shutdown` tells whether the cancellation signal has
    /// fired, `ready` what else became ready. Returns the event to emit.
    pub fn step(&mut self, shutdown: bool, ready: Readiness) -> (r: Option<Event>)
        ensures
            mux_step(old(self).view_state(), shutdown, ready, final(self).view_state(), r),
    {
        if shutdown || !self.is_running() {
            self.state = MuxState::ShuttingDown;
            return None;
        }
        match ready {
            Readiness::TimerElapsed => Some(Event::Tick),
            Readiness::Socket(p) => classify_probe(p),
            Readiness::Terminal(t) => classify_terminal(t),
        }
    }
}

/// The ingest task's answer to a read of `buffer`.
pub fn ingest_on_read(shutdown: bool, outcome: ReadOutcome, buffer: &[u8]) -> (r: IngestAction)
    requires
        outcome is Read ==> outcome->Read_0 <= buffer@.len(),
    ensures
        ingest_after_read(shutdown, outcome, buffer@, r),
{
    if shutdown {
        return IngestAction::Stop;
    }
    match outcome {
        ReadOutcome::Read(n) => {
            if n == 0 {
                IngestAction::Stop
            } else {
                let mut chunk: Vec<u8> = Vec::new();
                let mut i: usize = 0;
                while i < n
                    invariant
                        i <= n <= buffer@.len(),
                        chunk@ == buffer@.take(i as int),
                    decreases n - i,
                {
                    chunk.push(buffer[i]);
                    i = i + 1;
                    assert(chunk@ =~= buffer@.take(i as int));
                }
                IngestAction::Send(chunk)
            }
        },
        ReadOutcome::WouldBlock => IngestAction::ReadAgain,
        ReadOutcome::Failed => IngestAction::Stop,
    }
}

/// The ingest task's answer to a send.
pub fn ingest_on_send(shutdown: bool, outcome: SendOutcome) -> (r: IngestAction)
    ensures
        ingest_after_send(shutdown, outcome, r),
{
    if shutdown {
        return IngestAction::Stop;
    }
    match outcome {
        SendOutcome::Sent => IngestAction::ReadAgain,
        SendOutcome::Full(c) => IngestAction::Send(c),
        SendOutcome::Closed => IngestAction::Stop,
    }
}

/// Once the cancellation signal has fired, the multiplexer and the ingest task
/// each stop within the iteration that sees it, whatever else is ready, and a
/// multiplexer that is shutting down emits nothing more.
pub proof fn lemma_shutdown_liveness(
    state: MuxState,
    shutdown: bool,
    ready: Readiness,
    next: MuxState,
    out: Option<Event>,
    read: ReadOutcome,
    buffer: Seq<u8>,
    sent: SendOutcome,
    action: IngestAction,
)
    ensures
        (shutdown || state == MuxState::ShuttingDown) && mux_step(state, shutdown, ready, next, out)
            ==> next == MuxState::ShuttingDown && out is None,
        ingest_after_read(true, read, buffer, action) ==> action is Stop,
        ingest_after_send(true, sent, action) ==> action is Stop,
{
}

/// A full channel never loses a chunk: the ingest task sends the very chunk
/// again, unless shutdown has been requested.
pub proof fn lemma_back_pressure(chunk: Vec<u8>, shutdown: bool, action: IngestAction)
    ensures
        ingest_after_send(shutdown, SendOutcome::Full(chunk), action) ==> (shutdown && action is Stop)
            || action == IngestAction::Send(chunk),
{
}

} // verus!
