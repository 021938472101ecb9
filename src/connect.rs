use vstd::prelude::*;
use crate::address::{parse_address, parse_address_spec, PeerIdentifier};
use crate::outcome::{OperationOutcome, ValidationError};

verus! {

/// The next remote call that a connect command asks of its caller.
#[derive(Debug, Clone, PartialEq, Eq)]
pub enum ConnectAction {
    /// Ask the node to drop the peer, then report `Disconnected` whatever it answered.
    Disconnect { pubkey: String },
    /// Ask the node to connect to the peer, timing this call alone, then report
    /// `ConnectReturned`.
    Connect { pubkey: String, host: String },
    /// Nothing is left to do: the command ended with this outcome.
    Finish { outcome: OperationOutcome },
}

/// What the caller reports back after performing an action.
#[derive(Debug, Clone, PartialEq, Eq)]
pub enum ConnectEvent {
    /// A disconnect call returned; its result does not matter.
    Disconnected,
    /// The connect call returned after `elapsed_secs` whole seconds, with the
    /// root cause of its error if it failed.
    ConnectReturned { elapsed_secs: u64, error: Option<String> },
}

/// A connect command in progress: disconnect, connect, disconnect, done.
#[derive(Debug, Clone, PartialEq, Eq)]
pub enum ConnectSession {
    /// Waiting for the disconnect that clears a stale connection.
    ClearingStale { peer: PeerIdentifier },
    /// Waiting for the timed connect call.
    Connecting { peer: PeerIdentifier },
    /// Waiting for the cleanup disconnect; the outcome is already known.
    CleaningUp { peer: PeerIdentifier, outcome: OperationOutcome },
    /// Over.
    Done { outcome: OperationOutcome },
}

/// The outcome of a connect call that took `elapsed_secs` and failed with
/// `error`, if it did.
pub open spec fn connect_outcome(elapsed_secs: u64, error: Option<String>) -> OperationOutcome {
    match error {
        None => OperationOutcome::ConnectSuccess { elapsed_secs },
        Some(cause) => OperationOutcome::ConnectFailure { elapsed_secs, cause },
    }
}

/// The action that a session waits on.
pub open spec fn pending_action(s: ConnectSession) -> ConnectAction {
    match s {
        ConnectSession::ClearingStale { peer } => ConnectAction::Disconnect { pubkey: peer.pubkey },
        ConnectSession::Connecting { peer } => ConnectAction::Connect { pubkey: peer.pubkey, host: peer.host },
        ConnectSession::CleaningUp { peer, .. } => ConnectAction::Disconnect { pubkey: peer.pubkey },
        ConnectSession::Done { outcome } => ConnectAction::Finish { outcome },
    }
}

/// The session after `event`. An event that does not answer the pending
/// action leaves the session as it was.
pub open spec fn next_session(s: ConnectSession, event: ConnectEvent) -> ConnectSession {
    match s {
        ConnectSession::ClearingStale { peer } => match event {
            ConnectEvent::Disconnected => ConnectSession::Connecting { peer },
            _ => s,
        },
        ConnectSession::Connecting { peer } => match event {
            ConnectEvent::ConnectReturned { elapsed_secs, error } => ConnectSession::CleaningUp {
                peer,
                outcome: connect_outcome(elapsed_secs, error),
            },
            _ => s,
        },
        ConnectSession::CleaningUp { outcome, .. } => match event {
            ConnectEvent::Disconnected => ConnectSession::Done { outcome },
            _ => s,
        },
        ConnectSession::Done { .. } => s,
    }
}

fn copy_peer(p: &PeerIdentifier) -> (r: PeerIdentifier)
    ensures
        r == *p,
{
    PeerIdentifier { pubkey: p.pubkey.clone(), host: p.host.clone() }
}

impl ConnectSession {
    /// Starts a connect command for `addr`. A malformed address ends it at
    /// once, before any remote call; otherwise the first call is the
    /// disconnect that clears a stale connection to the parsed key.
    pub fn start(addr: &str) -> (r: (ConnectSession, ConnectAction))
        ensures
            match parse_address_spec(addr@) {
                Ok((pubkey, host)) => r.0 is ClearingStale && r.0->ClearingStale_peer.pubkey@ == pubkey
                    && r.0->ClearingStale_peer.host@ == host,
                Err(e) => r.0 == (ConnectSession::Done {
                    outcome: OperationOutcome::ValidationError { cause: ValidationError::Address(e) },
                }),
            },
            r.1 == pending_action(r.0),
    {
        match parse_address(addr) {
            Ok(peer) => {
                let action = ConnectAction::Disconnect { pubkey: peer.pubkey.clone() };
                (ConnectSession::ClearingStale { peer }, action)
            },
            Err(e) => {
                let outcome = OperationOutcome::ValidationError { cause: ValidationError::Address(e) };
                let action = ConnectAction::Finish { outcome: outcome.copy() };
                (ConnectSession::Done { outcome }, action)
            },
        }
    }

    /// The action this session waits on.
    pub fn pending(&self) -> (r: ConnectAction)
        ensures
            r == pending_action(*self),
    {
        match self {
            ConnectSession::ClearingStale { peer } => ConnectAction::Disconnect { pubkey: peer.pubkey.clone() },
            ConnectSession::Connecting { peer } => ConnectAction::Connect {
                pubkey: peer.pubkey.clone(),
                host: peer.host.clone(),
            },
            ConnectSession::CleaningUp { peer, .. } => ConnectAction::Disconnect { pubkey: peer.pubkey.clone() },
            ConnectSession::Done { outcome } => ConnectAction::Finish { outcome: outcome.copy() },
        }
    }

    /// Takes in what the last action returned and gives the next action.
    pub fn step(&mut self, event: ConnectEvent) -> (r: ConnectAction)
        ensures
            *final(self) == next_session(*old(self), event),
            r == pending_action(*final(self)),
    {
        let next = match (&*self, event) {
            (ConnectSession::ClearingStale { peer }, ConnectEvent::Disconnected) => {
                ConnectSession::Connecting { peer: copy_peer(peer) }
            },
            (ConnectSession::Connecting { peer }, ConnectEvent::ConnectReturned { elapsed_secs, error }) => {
                let outcome = match error {
                    None => OperationOutcome::ConnectSuccess { elapsed_secs },
                    Some(cause) => OperationOutcome::ConnectFailure { elapsed_secs, cause },
                };
                ConnectSession::CleaningUp { peer: copy_peer(peer), outcome }
            },
            (ConnectSession::CleaningUp { outcome, .. }, ConnectEvent::Disconnected) => {
                ConnectSession::Done { outcome: outcome.copy() }
            },
            _ => {
                return self.pending();
            },
        };
        *self = next;
        self.pending()
    }

    /// Whether the command is over.
    pub fn is_done(&self) -> (r: bool)
        ensures
            r == (*self is Done),
    {
        matches!(self, ConnectSession::Done { .. })
    }
}

/// The actions of a connect command that starts at `s0`, when the connect
/// call takes `elapsed_secs` and fails with `error`, if it does.
pub open spec fn connect_run(s0: ConnectSession, elapsed_secs: u64, error: Option<String>) -> Seq<ConnectAction> {
    let s1 = next_session(s0, ConnectEvent::Disconnected);
    let s2 = next_session(s1, ConnectEvent::ConnectReturned { elapsed_secs, error });
    let s3 = next_session(s2, ConnectEvent::Disconnected);
    seq![pending_action(s0), pending_action(s1), pending_action(s2), pending_action(s3)]
}

/// How many of `actions` are disconnects.
pub open spec fn disconnect_count(actions: Seq<ConnectAction>) -> nat
    decreases actions.len(),
{
    if actions.len() == 0 {
        0
    } else {
        (if actions.last() is Disconnect { 1nat } else { 0nat }) + disconnect_count(actions.drop_last())
    }
}

/// A connect command for a well-formed address disconnects the peer, connects
/// to it, disconnects it again and finishes, whatever the connect call
/// returned: exactly two disconnects, both for the parsed key, one on each
/// side of the connect. The outcome carries the connect call's own time.
pub proof fn lemma_connect_disconnects_twice(peer: PeerIdentifier, elapsed_secs: u64, error: Option<String>)
    ensures
        connect_run(ConnectSession::ClearingStale { peer }, elapsed_secs, error) == seq![
            ConnectAction::Disconnect { pubkey: peer.pubkey },
            ConnectAction::Connect { pubkey: peer.pubkey, host: peer.host },
            ConnectAction::Disconnect { pubkey: peer.pubkey },
            ConnectAction::Finish { outcome: connect_outcome(elapsed_secs, error) },
        ],
        disconnect_count(connect_run(ConnectSession::ClearingStale { peer }, elapsed_secs, error)) == 2,
{
    let run = connect_run(ConnectSession::ClearingStale { peer }, elapsed_secs, error);
    assert(run.drop_last().drop_last().drop_last().drop_last() =~= Seq::<ConnectAction>::empty());
    reveal_with_fuel(disconnect_count, 5);
}

/// A finished command makes no further remote call: it stays finished, and
/// all it asks is to finish. `start` leaves a malformed address's command
/// finished from the outset, so such a command calls nothing at all.
pub proof fn lemma_finished_session_makes_no_call(s0: ConnectSession, event: ConnectEvent)
    requires
        s0 is Done,
    ensures
        next_session(s0, event) == s0,
        pending_action(s0) is Finish,
{
}

} // verus!
