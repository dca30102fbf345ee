//! The chat session: its connection, its one pending dial, and the last
//! failure it saw.
//!
//! The session decides; the program around it acts. It asks the session
//! whether to dial or to bind, performs the network work (a dial runs on a
//! thread of its own and hands its one result back over a channel), and
//! reports the outcome, which the session turns into its next state.
use vstd::prelude::*;
use crate::addr::SocketAddress;
use crate::term::{step, InputEvent, InputState, KeyInput, Reaction};

verus! {

/// How long a dial may take before it fails, in seconds.
pub const DIAL_TIMEOUT_SECS: u64 = 120;

/// Why binding a listening socket failed.
#[derive(Clone, Copy, Debug, PartialEq, Eq, Structural)]
pub enum BindErrorKind {
    AddrInUse,
    PermissionDenied,
    Other,
}

/// Why a dial failed.
#[derive(Clone, Copy, Debug, PartialEq, Eq, Structural)]
pub enum ConnectErrorKind {
    Refused,
    TimedOut,
    Unreachable,
    Other,
}

/// A failure that the session reports.
#[derive(Clone, Copy, Debug, PartialEq, Eq, Structural)]
pub enum ChatError {
    /// The session already has a connection or a pending dial.
    Busy,
    Bind(BindErrorKind),
    Connect(ConnectErrorKind),
}

/// An established connection: a listening socket with its bound address, or
/// a connected stream with its peer's address.
#[derive(Clone, Copy, Debug, PartialEq, Eq, Structural)]
pub enum Connection {
    Listener(SocketAddress),
    Client(SocketAddress),
}

/// A dial in flight: where to, and within how many seconds.
#[derive(Clone, Copy, Debug, PartialEq, Eq, Structural)]
pub struct TcpThread {
    pub target: SocketAddress,
    pub timeout_secs: u64,
}

impl TcpThread {
    /// A dial to `target` with the default timeout.
    pub fn new(target: SocketAddress) -> (r: TcpThread)
        ensures
            r.target == target,
            r.timeout_secs == DIAL_TIMEOUT_SECS,
    {
        TcpThread { target, timeout_secs: DIAL_TIMEOUT_SECS }
    }
}

/// What the status bar shows of a session.
#[derive(Clone, Copy, Debug, PartialEq, Eq, Structural)]
pub enum Status {
    NotConnected,
    /// Not connected, and the last attempt to bind or dial failed.
    Failed(ChatError),
    Dialing(SocketAddress),
    Listening(SocketAddress),
    Connected(SocketAddress),
}

/// How a status is styled: as an error, a warning, or a success.
#[derive(Clone, Copy, Debug, PartialEq, Eq, Structural)]
pub enum Tone {
    Error,
    Warning,
    Success,
}

impl Status {
    pub open spec fn tone_of(self) -> Tone {
        match self {
            Status::NotConnected | Status::Failed(_) => Tone::Error,
            Status::Dialing(_) | Status::Listening(_) => Tone::Warning,
            Status::Connected(_) => Tone::Success,
        }
    }

    /// Not connected is an error, listening or dialing a warning, connected
    /// a success.
    pub fn tone(&self) -> (r: Tone)
        ensures
            r == self.tone_of(),
    {
        match self {
            Status::NotConnected | Status::Failed(_) => Tone::Error,
            Status::Dialing(_) | Status::Listening(_) => Tone::Warning,
            Status::Connected(_) => Tone::Success,
        }
    }
}

/// A chat session.
#[derive(Debug)]
pub struct Chat {
    /// The address that `listen` binds.
    pub self_addr: SocketAddress,
    pub tcp_handle: Option<TcpThread>,
    pub conn: Option<Connection>,
    pub last_error: Option<ChatError>,
}

impl Chat {
    /// A dial is pending only while there is no connection.
    pub open spec fn wf(&self) -> bool {
        self.tcp_handle.is_some() ==> self.conn.is_none()
    }

    /// A session may dial or listen only when it has neither a connection
    /// nor a pending dial.
    pub open spec fn idle(&self) -> bool {
        self.conn.is_none() && self.tcp_handle.is_none()
    }

    /// The session after a dial to `target` starts.
    pub open spec fn dialing(self, target: SocketAddress) -> Chat {
        Chat {
            self_addr: self.self_addr,
            tcp_handle: Some(TcpThread { target, timeout_secs: DIAL_TIMEOUT_SECS }),
            conn: self.conn,
            last_error: None,
        }
    }

    /// The session after the pending dial delivers `outcome`: connected to
    /// the peer, or back to no connection with the failure kept.
    pub open spec fn resolved(self, outcome: Result<SocketAddress, ConnectErrorKind>) -> Chat {
        match outcome {
            Ok(peer) => Chat {
                self_addr: self.self_addr,
                tcp_handle: None,
                conn: Some(Connection::Client(peer)),
                last_error: None,
            },
            Err(kind) => Chat {
                self_addr: self.self_addr,
                tcp_handle: None,
                conn: None,
                last_error: Some(ChatError::Connect(kind)),
            },
        }
    }

    /// The session after a bind attempt reports `bound`.
    pub open spec fn bound(self, bound: Result<SocketAddress, BindErrorKind>) -> Chat {
        match bound {
            Ok(addr) => Chat {
                self_addr: self.self_addr,
                tcp_handle: self.tcp_handle,
                conn: Some(Connection::Listener(addr)),
                last_error: None,
            },
            Err(kind) => Chat {
                self_addr: self.self_addr,
                tcp_handle: self.tcp_handle,
                conn: self.conn,
                last_error: Some(ChatError::Bind(kind)),
            },
        }
    }

    /// The session after submitted address text was parsed to `parsed`:
    /// text that is no address changes nothing; an address is dialed if the
    /// session is idle.
    pub open spec fn submitted(self, parsed: Option<SocketAddress>) -> Chat {
        match parsed {
            Some(target) => if self.idle() {
                self.dialing(target)
            } else {
                self
            },
            None => self,
        }
    }

    pub open spec fn status_of(self) -> Status {
        match self.conn {
            Some(Connection::Client(peer)) => Status::Connected(peer),
            Some(Connection::Listener(addr)) => Status::Listening(addr),
            None => match self.tcp_handle {
                Some(dial) => Status::Dialing(dial.target),
                None => match self.last_error {
                    Some(e) => Status::Failed(e),
                    None => Status::NotConnected,
                },
            },
        }
    }

    /// A session with no connection that listens on `addr` when asked to.
    pub fn new(addr: SocketAddress) -> (r: Chat)
        ensures
            r.wf(),
            r.idle(),
            r.self_addr == addr,
            r.last_error.is_none(),
    {
        Chat { self_addr: addr, tcp_handle: None, conn: None, last_error: None }
    }

    /// Starts a dial to `with`, unless the session already has a connection
    /// or a pending dial. On success returns the dial that the caller has to
    /// run and later report through `poll_connect`.
    pub fn connect(&mut self, with: SocketAddress) -> (r: Result<TcpThread, ChatError>)
        requires
            old(self).wf(),
        ensures
            final(self).wf(),
            old(self).idle() ==> r == Ok::<TcpThread, ChatError>(
                TcpThread { target: with, timeout_secs: DIAL_TIMEOUT_SECS },
            ) && *final(self) == old(self).dialing(with),
            !old(self).idle() ==> r == Err::<TcpThread, ChatError>(ChatError::Busy)
                && *final(self) == *old(self),
    {
        if self.conn.is_none() && self.tcp_handle.is_none() {
            let dial = TcpThread::new(with);
            self.tcp_handle = Some(dial);
            self.last_error = None;
            Ok(dial)
        } else {
            Err(ChatError::Busy)
        }
    }

    /// Acts on address text submitted from the prompt, as parsed by the
    /// caller: text that is no address is dropped and changes nothing
    /// (`Ok(None)`); an address is dialed as by `connect`.
    pub fn submit_address(&mut self, parsed: Option<SocketAddress>) -> (r: Result<
        Option<TcpThread>,
        ChatError,
    >)
        requires
            old(self).wf(),
        ensures
            final(self).wf(),
            *final(self) == old(self).submitted(parsed),
            parsed.is_none() ==> r == Ok::<Option<TcpThread>, ChatError>(None),
            parsed.is_some() && old(self).idle() ==> r == Ok::<Option<TcpThread>, ChatError>(
                Some(TcpThread { target: parsed.unwrap(), timeout_secs: DIAL_TIMEOUT_SECS }),
            ),
            parsed.is_some() && !old(self).idle() ==> r == Err::<Option<TcpThread>, ChatError>(
                ChatError::Busy,
            ),
    {
        match parsed {
            None => Ok(None),
            Some(target) => match self.connect(target) {
                Ok(dial) => Ok(Some(dial)),
                Err(e) => Err(e),
            },
        }
    }

    /// Takes what the pending dial's channel held at this poll: nothing yet,
    /// or its one result. A result ends the pending dial; returns whether
    /// one did.
    pub fn poll_connect(
        &mut self,
        received: Option<Result<SocketAddress, ConnectErrorKind>>,
    ) -> (r: bool)
        requires
            old(self).wf(),
        ensures
            final(self).wf(),
            r == (received.is_some() && old(self).tcp_handle.is_some()),
            r ==> *final(self) == old(self).resolved(received.unwrap()),
            !r ==> *final(self) == *old(self),
    {
        if self.tcp_handle.is_none() {
            return false;
        }
        match received {
            None => false,
            Some(Ok(peer)) => {
                self.tcp_handle = None;
                self.conn = Some(Connection::Client(peer));
                self.last_error = None;
                true
            },
            Some(Err(kind)) => {
                self.tcp_handle = None;
                self.conn = None;
                self.last_error = Some(ChatError::Connect(kind));
                true
            },
        }
    }

    /// The address to bind when asked to listen, if the session may listen.
    pub fn listen_addr(&self) -> (r: Option<SocketAddress>)
        ensures
            r == (if self.idle() {
                Some(self.self_addr)
            } else {
                None::<SocketAddress>
            }),
    {
        if self.conn.is_none() && self.tcp_handle.is_none() {
            Some(self.self_addr)
        } else {
            None
        }
    }

    /// Takes the outcome of binding the listening socket: its local address,
    /// or why it failed. A session that is not idle refuses it and stays as
    /// it was; so does a failed bind, which is kept as the last error.
    pub fn listen(&mut self, bound: Result<SocketAddress, BindErrorKind>) -> (r: Result<(), ChatError>)
        requires
            old(self).wf(),
        ensures
            final(self).wf(),
            !old(self).idle() ==> r == Err::<(), ChatError>(ChatError::Busy) && *final(self)
                == *old(self),
            old(self).idle() ==> *final(self) == old(self).bound(bound),
            old(self).idle() ==> (r matches Ok(_) <==> bound matches Ok(_)),
            old(self).idle() ==> forall|k: BindErrorKind|
                bound == Err::<SocketAddress, BindErrorKind>(k) ==> r == Err::<(), ChatError>(
                    ChatError::Bind(k),
                ),
    {
        if !(self.conn.is_none() && self.tcp_handle.is_none()) {
            return Err(ChatError::Busy);
        }
        match bound {
            Ok(addr) => {
                self.conn = Some(Connection::Listener(addr));
                self.last_error = None;
                Ok(())
            },
            Err(kind) => {
                self.last_error = Some(ChatError::Bind(kind));
                Err(ChatError::Bind(kind))
            },
        }
    }

    /// Drops the connection, if there is one; returns whether there was.
    /// A pending dial is left to finish.
    pub fn disconnect(&mut self) -> (r: bool)
        requires
            old(self).wf(),
        ensures
            final(self).wf(),
            r == old(self).conn.is_some(),
            final(self).conn.is_none(),
            final(self).tcp_handle == old(self).tcp_handle,
            final(self).self_addr == old(self).self_addr,
            final(self).last_error == old(self).last_error,
    {
        let had = self.conn.is_some();
        self.conn = None;
        had
    }

    /// What the status bar shows: the connection if there is one, else the
    /// pending dial, else the last failure, else not connected.
    pub fn status(&self) -> (r: Status)
        ensures
            r == self.status_of(),
    {
        match self.conn {
            Some(Connection::Client(peer)) => Status::Connected(peer),
            Some(Connection::Listener(addr)) => Status::Listening(addr),
            None => match self.tcp_handle {
                Some(dial) => Status::Dialing(dial.target),
                None => match self.last_error {
                    Some(e) => Status::Failed(e),
                    None => Status::NotConnected,
                },
            },
        }
    }

    /// The help text for the actions available: connect or listen while
    /// there is no connection, disconnect while there is one.
    pub fn help(&self) -> (r: &'static str)
        ensures
            self.conn.is_none() ==> r@ == "[C: Connect | L: listen]"@,
            self.conn.is_some() ==> r@ == "[Shift-Q: Disconnect]"@,
    {
        if self.conn.is_none() {
            "[C: Connect | L: listen]"
        } else {
            "[Shift-Q: Disconnect]"
        }
    }
}

/// Submitting text that is no address returns the router to normal mode
/// with an empty buffer, hands over the text, and leaves the session as it
/// was.
pub proof fn lemma_invalid_address_changes_nothing(s: InputState, c: Chat)
    requires
        s.wf(),
        s.entering,
        c.wf(),
    ensures
        step(s, InputEvent::Key { code: KeyInput::Enter, ctrl: false }) == (
            s.with_mode(false, Seq::empty()),
            Reaction::Submit(s.buffer),
        ),
        c.submitted(None) == c,
{
}

/// Dialing an address from an idle session leaves exactly one dial pending,
/// to that address; the session is then no longer idle, so a second
/// submission is refused and changes nothing.
pub proof fn lemma_one_pending_dial(c: Chat, first: SocketAddress, second: SocketAddress)
    requires
        c.wf(),
        c.idle(),
    ensures
        c.submitted(Some(first)) == c.dialing(first),
        c.dialing(first).wf(),
        c.dialing(first).tcp_handle == Some(
            TcpThread { target: first, timeout_secs: DIAL_TIMEOUT_SECS },
        ),
        !c.dialing(first).idle(),
        c.dialing(first).submitted(Some(second)) == c.dialing(first),
{
}

/// A pending dial that succeeds leaves the session connected to the peer,
/// with no dial pending, and the status shows it.
pub proof fn lemma_dial_success_connects(c: Chat, peer: SocketAddress)
    requires
        c.wf(),
        c.tcp_handle.is_some(),
    ensures
        c.resolved(Ok(peer)).wf(),
        c.resolved(Ok(peer)).conn == Some(Connection::Client(peer)),
        c.resolved(Ok(peer)).tcp_handle.is_none(),
        c.resolved(Ok(peer)).status_of() == Status::Connected(peer),
{
}

/// A pending dial that fails leaves the session with no connection and no
/// dial pending, so it may dial or listen again, and the status shows the
/// kind of failure.
pub proof fn lemma_dial_failure_reported(c: Chat, kind: ConnectErrorKind)
    requires
        c.wf(),
        c.tcp_handle.is_some(),
    ensures
        c.resolved(Err(kind)).wf(),
        c.resolved(Err(kind)).conn.is_none(),
        c.resolved(Err(kind)).idle(),
        c.resolved(Err(kind)).last_error == Some(ChatError::Connect(kind)),
        c.resolved(Err(kind)).status_of() == Status::Failed(ChatError::Connect(kind)),
{
}

} // verus!
