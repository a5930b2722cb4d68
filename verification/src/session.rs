//! The connection lifecycle.
//!
//! One [`Session`] stands for one open connection. It performs no I/O: the
//! connection handler tells it what happened (a message arrived, a snapshot
//! was flushed, the peer went silent) and gets back the session's next
//! state together with what to do. A session that has been torn down no
//! longer exists: the step that ends it consumes it.

use crate::identity::Identity;
use crate::identity::IdentityView;
use crate::message::ClientMessage;
use crate::message::ServerMessage;
use crate::transfer::bytes_view;
use crate::transfer::Passport;
use crate::transfer::PassportView;
use crate::transfer::Transfer;
use crate::transfer::TransferView;
use vstd::prelude::*;

verus! {

/// Connection lifecycle state.
#[derive(Debug, Clone, Copy, PartialEq, Eq, Structural)]
pub enum ConnectionState {
    /// Establishing connection.
    Connecting,
    /// Receiving initial state.
    Syncing,
    /// Normal operation.
    Live,
    /// Ghost: authority lost, read-only mode.
    Ghosted,
}

/// Why a session was torn down.
#[derive(Debug, Clone, Copy, PartialEq, Eq, Structural)]
pub enum SessionError {
    /// The identity of an `Auth` message could not be read.
    MalformedIdentity,
    /// A message arrived that the current state does not allow.
    ProtocolViolation,
    /// More intents arrived while syncing than the session may hold.
    BufferOverflow,
    /// No `Auth` arrived in time.
    IdleTimeout,
}

/// What a [`Session`] stands for in contracts.
pub struct SessionView<I> {
    pub state: ConnectionState,
    /// The authenticated identity, once there is one.
    pub identity: Option<IdentityView>,
    /// Intents that arrived while syncing, oldest first.
    pub pending: Seq<I>,
    /// How many intents may wait at once.
    pub capacity: usize,
    /// The sequence number of the next snapshot.
    pub next_seq: u64,
}

impl<I> SessionView<I> {
    /// What holds of every session.
    pub open spec fn wf(self) -> bool {
        &&& self.state == ConnectionState::Connecting <==> self.identity is None
        &&& self.pending.len() <= self.capacity
        &&& self.state != ConnectionState::Syncing ==> self.pending.len() == 0
        &&& self.state == ConnectionState::Connecting ==> self.next_seq == 0
        &&& (self.state == ConnectionState::Live || self.state == ConnectionState::Ghosted)
            ==> self.next_seq > 0
    }
}

/// The session's answer to a message: what the connection handler does next.
#[derive(Debug)]
pub enum Reaction<I> {
    /// The client is authenticated. Evaluate the passport, if there is one,
    /// then send the manifest and the first snapshot.
    Welcome { identity: Identity, passport: Option<Vec<u8>> },
    /// The intent waits until the first snapshot has been flushed.
    Buffered,
    /// Apply the intent to the application's state.
    Apply(I),
    /// The client has received the snapshot with this number.
    Acked { seq: u64 },
    /// The client leaves: build the transfer from the session's passport
    /// data, send it, and apply nothing more for this identity.
    Depart(Departure),
    /// The message has no effect.
    Ignored,
}

/// What a [`Reaction`] stands for in contracts.
pub enum ReactionView<I> {
    Welcome { identity: IdentityView, passport: Option<Seq<u8>> },
    Buffered,
    Apply(I),
    Acked { seq: u64 },
    Depart { destination: Seq<char>, identity: IdentityView },
    Ignored,
}

impl<I> View for Reaction<I> {
    type V = ReactionView<I>;

    open spec fn view(&self) -> ReactionView<I> {
        match self {
            Reaction::Welcome { identity, passport } => ReactionView::Welcome {
                identity: identity@,
                passport: bytes_view(*passport),
            },
            Reaction::Buffered => ReactionView::Buffered,
            Reaction::Apply(intent) => ReactionView::Apply(*intent),
            Reaction::Acked { seq } => ReactionView::Acked { seq: *seq },
            Reaction::Depart(departure) => ReactionView::Depart {
                destination: departure.destination(),
                identity: departure.identity(),
            },
            Reaction::Ignored => ReactionView::Ignored,
        }
    }
}

/// The right to issue the one transfer that ends a session: where the
/// client goes, and who it is. It is used up by issuing the transfer.
#[derive(Debug)]
pub struct Departure {
    destination: String,
    identity: Identity,
}

impl Departure {
    /// Where the client asked to go.
    pub closed spec fn destination(&self) -> Seq<char> {
        self.destination@
    }

    /// The identity that the session was authenticated with.
    pub closed spec fn identity(&self) -> IdentityView {
        self.identity@
    }

    /// The transfer directive with an unsigned passport around `data`.
    pub fn into_transfer(self, data: Vec<u8>) -> (transfer: Transfer)
        ensures
            transfer@ == (TransferView {
                destination: self.destination(),
                passport: PassportView { identity: self.identity(), data: data@, signature: None },
            }),
    {
        Transfer { destination: self.destination, passport: Passport::new(self.identity, data) }
    }

    /// The transfer directive with a signed passport around `data`.
    pub fn into_signed_transfer(self, data: Vec<u8>, signature: Vec<u8>) -> (transfer: Transfer)
        ensures
            transfer@ == (TransferView {
                destination: self.destination(),
                passport: PassportView {
                    identity: self.identity(),
                    data: data@,
                    signature: Some(signature@),
                },
            }),
    {
        Transfer {
            destination: self.destination,
            passport: Passport::signed(self.identity, data, signature),
        }
    }
}

/// What receiving `msg` does to a session: the next state and the reaction,
/// or the reason for which the session ends.
///
/// - Connecting: only `Auth` is legal, and leads to Syncing whether or not
///   a passport came with it.
/// - Syncing: an intent waits, and one more than may wait ends the session;
///   an `Ack` is noted; nothing else is legal.
/// - Live: an intent is applied; an `Ack` is noted; `RequestTransfer` leads
///   to Ghost; a second `Auth` is not legal.
/// - Ghost: an `Ack` is noted; intents and further transfer requests have
///   no effect; an `Auth` is not legal.
pub open spec fn receive_spec<I>(s: SessionView<I>, msg: ClientMessage<I>) -> Result<
    (SessionView<I>, ReactionView<I>),
    SessionError,
> {
    match s.state {
        ConnectionState::Connecting => match msg {
            ClientMessage::Auth { identity, passport } => Ok(
                (
                    SessionView {
                        state: ConnectionState::Syncing,
                        identity: Some(identity@),
                        ..s
                    },
                    ReactionView::Welcome { identity: identity@, passport: bytes_view(passport) },
                ),
            ),
            _ => Err(SessionError::ProtocolViolation),
        },
        ConnectionState::Syncing => match msg {
            ClientMessage::Intent(intent) => if s.pending.len() < s.capacity {
                Ok((SessionView { pending: s.pending.push(intent), ..s }, ReactionView::Buffered))
            } else {
                Err(SessionError::BufferOverflow)
            },
            ClientMessage::Ack { seq } => Ok((s, ReactionView::Acked { seq })),
            _ => Err(SessionError::ProtocolViolation),
        },
        ConnectionState::Live => match msg {
            ClientMessage::Intent(intent) => Ok((s, ReactionView::Apply(intent))),
            ClientMessage::Ack { seq } => Ok((s, ReactionView::Acked { seq })),
            ClientMessage::RequestTransfer { destination } => Ok(
                (
                    SessionView { state: ConnectionState::Ghosted, ..s },
                    ReactionView::Depart {
                        destination: destination@,
                        identity: s.identity->Some_0,
                    },
                ),
            ),
            ClientMessage::Auth { .. } => Err(SessionError::ProtocolViolation),
        },
        ConnectionState::Ghosted => match msg {
            ClientMessage::Ack { seq } => Ok((s, ReactionView::Acked { seq })),
            ClientMessage::Auth { .. } => Err(SessionError::ProtocolViolation),
            _ => Ok((s, ReactionView::Ignored)),
        },
    }
}

/// What asking for the next snapshot's number does: the first snapshot, with
/// number 0, goes out while syncing; every later one while live, each
/// with the number after the one before. No number is given out before
/// `Auth`, while the first snapshot is still on its way, after the handoff,
/// or when the numbers have run out.
pub open spec fn snapshot_spec<I>(s: SessionView<I>) -> (SessionView<I>, Option<u64>) {
    if (s.state == ConnectionState::Syncing && s.next_seq == 0) || (s.state
        == ConnectionState::Live && s.next_seq < u64::MAX) {
        (SessionView { next_seq: (s.next_seq + 1) as u64, ..s }, Some(s.next_seq))
    } else {
        (s, None)
    }
}

/// What the flushing of a snapshot does: when it is the first one, the
/// session goes live and hands back the intents that waited, oldest first.
pub open spec fn flushed_spec<I>(s: SessionView<I>) -> (SessionView<I>, Seq<I>) {
    if s.state == ConnectionState::Syncing && s.next_seq > 0 {
        (SessionView { state: ConnectionState::Live, pending: Seq::empty(), ..s }, s.pending)
    } else {
        (s, Seq::empty())
    }
}

/// What a frame whose identity cannot be read does: it ends a session that
/// still waits for its `Auth`; any other session refuses the one message
/// and goes on unchanged.
pub open spec fn malformed_identity_spec<I>(s: SessionView<I>) -> Result<
    SessionView<I>,
    SessionError,
> {
    if s.state == ConnectionState::Connecting {
        Err(SessionError::MalformedIdentity)
    } else {
        Ok(s)
    }
}

/// What the passing of the idle time does: it ends a session that still
/// waits for its `Auth`, and no other.
pub open spec fn idle_timeout_spec<I>(s: SessionView<I>) -> Result<SessionView<I>, SessionError> {
    if s.state == ConnectionState::Connecting {
        Err(SessionError::IdleTimeout)
    } else {
        Ok(s)
    }
}

/// The view of an optional identity.
pub open spec fn identity_view(identity: Option<Identity>) -> Option<IdentityView> {
    match identity {
        Some(id) => Some(id@),
        None => None,
    }
}

/// The view of the result of a step that leaves the session as it is or
/// ends it.
pub open spec fn guard_view<I>(r: Result<Session<I>, SessionError>) -> Result<
    SessionView<I>,
    SessionError,
> {
    match r {
        Ok(session) => Ok(session@),
        Err(e) => Err(e),
    }
}

/// The per-connection record of the protocol phase.
#[derive(Debug)]
pub struct Session<I> {
    state: ConnectionState,
    identity: Option<Identity>,
    pending: Vec<I>,
    capacity: usize,
    next_seq: u64,
}

impl<I> View for Session<I> {
    type V = SessionView<I>;

    closed spec fn view(&self) -> SessionView<I> {
        SessionView {
            state: self.state,
            identity: match self.identity {
                Some(id) => Some(id@),
                None => None,
            },
            pending: self.pending@,
            capacity: self.capacity,
            next_seq: self.next_seq,
        }
    }
}

/// The view of the result of a step that may end the session.
pub open spec fn step_view<I>(r: Result<(Session<I>, Reaction<I>), SessionError>) -> Result<
    (SessionView<I>, ReactionView<I>),
    SessionError,
> {
    match r {
        Ok((session, reaction)) => Ok((session@, reaction@)),
        Err(e) => Err(e),
    }
}

impl<I> Session<I> {
    /// A session for a connection that has just been opened. At most
    /// `capacity` intents may wait while it is syncing.
    pub fn new(capacity: usize) -> (session: Session<I>)
        ensures
            session@ == (SessionView::<I> {
                state: ConnectionState::Connecting,
                identity: None,
                pending: Seq::empty(),
                capacity,
                next_seq: 0,
            }),
            session@.wf(),
    {
        Session {
            state: ConnectionState::Connecting,
            identity: None,
            pending: Vec::new(),
            capacity,
            next_seq: 0,
        }
    }

    /// The current phase.
    pub fn state(&self) -> (state: ConnectionState)
        ensures
            state == self@.state,
    {
        self.state
    }

    /// The authenticated identity; `None` before `Auth`.
    pub fn identity(&self) -> (identity: Option<&Identity>)
        ensures
            match identity {
                Some(id) => self@.identity == Some(id@),
                None => self@.identity is None,
            },
    {
        self.identity.as_ref()
    }

    /// How many intents wait for the first snapshot to be flushed.
    pub fn pending_len(&self) -> (n: usize)
        ensures
            n == self@.pending.len(),
    {
        self.pending.len()
    }

    /// A message from the client has arrived.
    pub fn receive(self, msg: ClientMessage<I>) -> (r: Result<
        (Session<I>, Reaction<I>),
        SessionError,
    >)
        requires
            self@.wf(),
        ensures
            step_view(r) == receive_spec(self@, msg),
            r is Ok ==> r->Ok_0.0@.wf(),
    {
        let mut session = self;
        match session.state {
            ConnectionState::Connecting => match msg {
                ClientMessage::Auth { identity, passport } => {
                    session.state = ConnectionState::Syncing;
                    session.identity = Some(identity.clone());
                    Ok((session, Reaction::Welcome { identity, passport }))
                },
                _ => Err(SessionError::ProtocolViolation),
            },
            ConnectionState::Syncing => match msg {
                ClientMessage::Intent(intent) => {
                    if session.pending.len() < session.capacity {
                        session.pending.push(intent);
                        Ok((session, Reaction::Buffered))
                    } else {
                        Err(SessionError::BufferOverflow)
                    }
                },
                ClientMessage::Ack { seq } => Ok((session, Reaction::Acked { seq })),
                _ => Err(SessionError::ProtocolViolation),
            },
            ConnectionState::Live => match msg {
                ClientMessage::Intent(intent) => Ok((session, Reaction::Apply(intent))),
                ClientMessage::Ack { seq } => Ok((session, Reaction::Acked { seq })),
                ClientMessage::RequestTransfer { destination } => {
                    let identity = session.identity.as_ref().unwrap().clone();
                    session.state = ConnectionState::Ghosted;
                    Ok((session, Reaction::Depart(Departure { destination, identity })))
                },
                ClientMessage::Auth { .. } => Err(SessionError::ProtocolViolation),
            },
            ConnectionState::Ghosted => match msg {
                ClientMessage::Ack { seq } => Ok((session, Reaction::Acked { seq })),
                ClientMessage::Auth { .. } => Err(SessionError::ProtocolViolation),
                _ => Ok((session, Reaction::Ignored)),
            },
        }
    }

    /// The server wants to push a snapshot with `data`. Gives the message to
    /// send, numbered, or `None` where no snapshot may go out now; `data` is
    /// then dropped.
    pub fn snapshot<S>(self, data: S) -> (r: (Session<I>, Option<ServerMessage<S>>))
        requires
            self@.wf(),
        ensures
            r.0@ == snapshot_spec(self@).0,
            r.0@.wf(),
            match snapshot_spec(self@).1 {
                Some(seq) => r.1 == Some(ServerMessage::Snapshot { seq, data }),
                None => r.1 is None,
            },
    {
        let mut session = self;
        let first = session.next_seq == 0 && matches!(session.state, ConnectionState::Syncing);
        let later = session.next_seq < u64::MAX && matches!(session.state, ConnectionState::Live);
        if first || later {
            let seq = session.next_seq;
            session.next_seq = seq + 1;
            (session, Some(ServerMessage::Snapshot { seq, data }))
        } else {
            (session, None)
        }
    }

    /// A snapshot has been flushed to the transport. When it was the first
    /// one, the session is live from now on, and the intents that waited
    /// are handed back, oldest first, to be applied at once.
    pub fn flushed(self) -> (r: (Session<I>, Vec<I>))
        requires
            self@.wf(),
        ensures
            r.0@ == flushed_spec(self@).0,
            r.0@.wf(),
            r.1@ == flushed_spec(self@).1,
    {
        let mut session = self;
        if session.next_seq > 0 && matches!(session.state, ConnectionState::Syncing) {
            session.state = ConnectionState::Live;
            let mut waited: Vec<I> = Vec::new();
            std::mem::swap(&mut session.pending, &mut waited);
            (session, waited)
        } else {
            (session, Vec::new())
        }
    }

    /// A frame arrived whose identity could not be read.
    pub fn malformed_identity(self) -> (r: Result<Session<I>, SessionError>)
        ensures
            guard_view(r) == malformed_identity_spec(self@),
            r is Ok ==> r->Ok_0 == self,
    {
        match self.state {
            ConnectionState::Connecting => Err(SessionError::MalformedIdentity),
            _ => Ok(self),
        }
    }

    /// The idle time has passed without a message.
    pub fn idle_timeout(self) -> (r: Result<Session<I>, SessionError>)
        ensures
            guard_view(r) == idle_timeout_spec(self@),
            r is Ok ==> r->Ok_0 == self,
    {
        match self.state {
            ConnectionState::Connecting => Err(SessionError::IdleTimeout),
            _ => Ok(self),
        }
    }

    /// The transport was closed or failed. The session is gone; what is
    /// handed back is the identity whose resources the server must release
    /// now, if the client had authenticated.
    pub fn close(self) -> (identity: Option<Identity>)
        ensures
            identity_view(identity) == self@.identity,
    {
        self.identity
    }
}

/// What a run of messages does to a session: the session after the last
/// one and the reactions in order, or the reason for which the session
/// ended on the way.
pub open spec fn run_spec<I>(s: SessionView<I>, msgs: Seq<ClientMessage<I>>) -> Result<
    (SessionView<I>, Seq<ReactionView<I>>),
    SessionError,
>
    decreases msgs.len(),
{
    if msgs.len() == 0 {
        Ok((s, Seq::empty()))
    } else {
        match run_spec(s, msgs.drop_last()) {
            Ok((t, reactions)) => match receive_spec(t, msgs.last()) {
                Ok((u, reaction)) => Ok((u, reactions.push(reaction))),
                Err(e) => Err(e),
            },
            Err(e) => Err(e),
        }
    }
}

/// Every step keeps a session well formed.
pub proof fn lemma_steps_keep_wf<I>(s: SessionView<I>, msg: ClientMessage<I>)
    requires
        s.wf(),
    ensures
        receive_spec(s, msg) is Ok ==> receive_spec(s, msg)->Ok_0.0.wf(),
        snapshot_spec(s).0.wf(),
        flushed_spec(s).0.wf(),
{
}

/// A session that waits for its `Auth` accepts nothing else: `Auth` leads to
/// Syncing, with or without a passport and whatever the passport holds;
/// every other message ends the session as a protocol violation. No other
/// step leads into Syncing.
pub proof fn lemma_connecting_accepts_only_auth<I>(s: SessionView<I>, msg: ClientMessage<I>)
    requires
        s.wf(),
    ensures
        s.state == ConnectionState::Connecting && msg is Auth ==> {
            &&& receive_spec(s, msg) is Ok
            &&& receive_spec(s, msg)->Ok_0.0.state == ConnectionState::Syncing
            &&& receive_spec(s, msg)->Ok_0.0.identity == Some(msg->Auth_identity@)
        },
        s.state == ConnectionState::Connecting && !(msg is Auth) ==> receive_spec(s, msg) == Err::<
            (SessionView<I>, ReactionView<I>),
            SessionError,
        >(SessionError::ProtocolViolation),
        s.state != ConnectionState::Syncing && receive_spec(s, msg) is Ok && receive_spec(
            s,
            msg,
        )->Ok_0.0.state == ConnectionState::Syncing ==> s.state == ConnectionState::Connecting
            && msg is Auth,
        snapshot_spec(s).0.state == s.state,
        flushed_spec(s).0.state == ConnectionState::Syncing ==> s.state
            == ConnectionState::Syncing,
{
}

/// Intents that arrive while a session is syncing wait, and come back
/// together, each once and in the order of arrival, when the first
/// snapshot has been flushed: the session is then live and holds none of
/// them any more.
pub proof fn lemma_buffered_intents_replay_in_order<I>(
    s: SessionView<I>,
    msgs: Seq<ClientMessage<I>>,
)
    requires
        s.wf(),
        s.state == ConnectionState::Syncing,
        forall|k: int| 0 <= k < msgs.len() ==> (#[trigger] msgs[k]) is Intent,
        s.pending.len() + msgs.len() <= s.capacity,
    ensures
        run_spec(s, msgs) is Ok,
        run_spec(s, msgs)->Ok_0.0 == (SessionView {
            pending: s.pending + Seq::new(msgs.len(), |k: int| msgs[k]->Intent_0),
            ..s
        }),
        run_spec(s, msgs)->Ok_0.1 == Seq::new(msgs.len(), |k: int| ReactionView::<I>::Buffered),
        s.next_seq > 0 ==> {
            let live = flushed_spec(run_spec(s, msgs)->Ok_0.0);
            &&& live.0.state == ConnectionState::Live
            &&& live.1 == s.pending + Seq::new(msgs.len(), |k: int| msgs[k]->Intent_0)
            &&& live.0.pending.len() == 0
            &&& flushed_spec(live.0).1.len() == 0
        },
    decreases msgs.len(),
{
    if msgs.len() == 0 {
        assert(s.pending + Seq::new(msgs.len(), |k: int| msgs[k]->Intent_0) =~= s.pending);
        assert(run_spec(s, msgs)->Ok_0.1 =~= Seq::new(
            msgs.len(),
            |k: int| ReactionView::<I>::Buffered,
        ));
    } else {
        let front = msgs.drop_last();
        lemma_buffered_intents_replay_in_order(s, front);
        let t = run_spec(s, front)->Ok_0.0;
        assert(msgs.last() == msgs[msgs.len() - 1]);
        assert(msgs.last() is Intent);
        assert(t.pending.len() == s.pending.len() + front.len());
        assert(t.pending.push(msgs.last()->Intent_0) =~= s.pending + Seq::new(
            msgs.len(),
            |k: int| msgs[k]->Intent_0,
        ));
        assert(run_spec(s, msgs)->Ok_0.1 =~= Seq::new(
            msgs.len(),
            |k: int| ReactionView::<I>::Buffered,
        ));
    }
}

/// A transfer request ends a live session's authority, and nothing else
/// does: it leads to Ghost with one departure, which names the destination
/// asked for and the identity that the session was authenticated with.
/// Every other message leaves a live session live, or ends it.
pub proof fn lemma_request_transfer_departs<I>(s: SessionView<I>, msg: ClientMessage<I>)
    requires
        s.wf(),
        s.state == ConnectionState::Live,
    ensures
        s.identity is Some,
        msg is RequestTransfer ==> receive_spec(s, msg) == Ok::<
            (SessionView<I>, ReactionView<I>),
            SessionError,
        >(
            (
                SessionView { state: ConnectionState::Ghosted, ..s },
                ReactionView::Depart {
                    destination: msg->RequestTransfer_destination@,
                    identity: s.identity->Some_0,
                },
            ),
        ),
        !(msg is RequestTransfer) && receive_spec(s, msg) is Ok ==> {
            &&& receive_spec(s, msg)->Ok_0.0 == s
            &&& !(receive_spec(s, msg)->Ok_0.1 is Depart)
        },
{
}

/// After the handoff a session is read-only: whatever arrives, it stays as
/// it is (or ends), no intent is handed on to be applied, nothing waits,
/// no second departure is issued, and no snapshot goes out.
pub proof fn lemma_ghost_is_read_only<I>(s: SessionView<I>, msgs: Seq<ClientMessage<I>>)
    requires
        s.wf(),
        s.state == ConnectionState::Ghosted,
    ensures
        run_spec(s, msgs) is Ok ==> {
            &&& run_spec(s, msgs)->Ok_0.0 == s
            &&& run_spec(s, msgs)->Ok_0.1.len() == msgs.len()
            &&& forall|k: int|
                0 <= k < msgs.len() ==> {
                    let reaction = #[trigger] run_spec(s, msgs)->Ok_0.1[k];
                    reaction is Ignored || reaction is Acked
                }
        },
        snapshot_spec(s) == (s, None::<u64>),
        flushed_spec(s) == (s, Seq::<I>::empty()),
    decreases msgs.len(),
{
    if msgs.len() > 0 {
        lemma_ghost_is_read_only(s, msgs.drop_last());
    }
}

/// Snapshot numbers only go up: no step lowers the next number, and a
/// snapshot that goes out carries the next number and raises it by one.
pub proof fn lemma_snapshot_numbers_increase<I>(s: SessionView<I>, msg: ClientMessage<I>)
    requires
        s.wf(),
    ensures
        receive_spec(s, msg) is Ok ==> receive_spec(s, msg)->Ok_0.0.next_seq == s.next_seq,
        flushed_spec(s).0.next_seq == s.next_seq,
        match snapshot_spec(s).1 {
            Some(seq) => seq == s.next_seq && snapshot_spec(s).0.next_seq == seq + 1,
            None => snapshot_spec(s).0.next_seq == s.next_seq,
        },
{
}

} // verus!
