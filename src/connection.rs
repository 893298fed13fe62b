use vstd::prelude::*;

use crate::player_state::{PlayerState, PlayerStateDiff};
use crate::update_from_diff::UpdateFromDiff;

verus! {

/// How long a session waits after losing its connection before it connects
/// again, in seconds.
pub const RECONNECT_DELAY_SECS: u64 = 3;

/// The state of the connection to the player, as the user sees it.
#[derive(Clone, Debug, PartialEq, Eq, PartialOrd, Ord)]
pub enum ConnectionState {
    Connecting,
    Connected,
    Disconnected,
    ConnectionError(String),
}

impl ConnectionState {
    /// The state that a session ends in: `Disconnected` when the player closed
    /// the connection in order, `ConnectionError` with the message when it
    /// failed.
    pub fn handle_closed(result: Result<(), String>) -> (r: Self)
        ensures
            r == match result {
                Ok(()) => ConnectionState::Disconnected,
                Err(message) => ConnectionState::ConnectionError(message),
            },
    {
        match result {
            Ok(()) => ConnectionState::Disconnected,
            Err(message) => ConnectionState::ConnectionError(message),
        }
    }
}

/// What happened to a session, as its driver reports it.
#[derive(Clone, Debug)]
pub enum SessionEvent<C> {
    /// The channel to the player was opened.
    Opened,
    /// The channel could not be opened, or failed while open (a receive, a
    /// send or a decode failed).
    Failed(String),
    /// A state diff arrived.
    Received(PlayerStateDiff),
    /// The player closed the channel in order.
    Closed,
    /// The user issued a command.
    Command(C),
    /// The delay before reconnecting has run out.
    DelayElapsed,
}

/// What the driver of a session does next.
#[derive(Debug, PartialEq, Eq)]
pub enum SessionAction<C> {
    /// Nothing: wait for the next event.
    Idle,
    /// Send the command on the open channel.
    Send(C),
    /// Wait this many seconds, then report `DelayElapsed`.
    Sleep(u64),
    /// Open a channel to the player.
    Connect,
    /// The session is over, with this outcome.
    Finish(Result<(), String>),
}

/// One session with the player: the connection state, the player state kept up
/// to date from the diffs received, and whether the session is over.
#[derive(Clone, Debug)]
pub struct Session {
    pub connection_state: ConnectionState,
    pub is_first_connection_attempt: bool,
    pub player_state: PlayerState,
    pub is_finished: bool,
}

impl Session {
    /// The states a session can be in: it is over exactly when it is
    /// disconnected or failed for good, and it has connected at least once
    /// when it is connected.
    pub open spec fn wf(&self) -> bool {
        &&& self.connection_state is Disconnected ==> self.is_finished
        &&& self.is_finished ==> (self.connection_state is Disconnected
            || self.connection_state is ConnectionError)
        &&& self.connection_state is Connected ==> !self.is_first_connection_attempt
    }

    /// A channel is being opened, or is open: a failure now ends this attempt.
    pub open spec fn is_attempting(&self) -> bool {
        self.connection_state is Connecting || self.connection_state is Connected
    }

    /// `updated` and `action` are what this session becomes and does on `event`.
    ///
    /// Commands go out only on an open channel, and are dropped otherwise. A
    /// failure before the first successful connection ends the session with
    /// that error; a later one shows the error, and the session connects again
    /// after the delay. An orderly close ends the session.
    pub open spec fn next<C>(
        self,
        event: SessionEvent<C>,
        updated: Session,
        action: SessionAction<C>,
    ) -> bool {
        if self.is_finished {
            updated == self && action is Idle
        } else {
            match event {
                SessionEvent::Opened => if self.connection_state is Connecting {
                    &&& updated == (Session {
                        connection_state: ConnectionState::Connected,
                        is_first_connection_attempt: false,
                        ..self
                    })
                    &&& action is Idle
                } else {
                    updated == self && action is Idle
                },
                SessionEvent::Failed(message) => if self.is_attempting() {
                    if self.is_first_connection_attempt {
                        &&& updated == (Session {
                            connection_state: ConnectionState::ConnectionError(message),
                            is_finished: true,
                            ..self
                        })
                        &&& action == SessionAction::<C>::Finish(Err(message))
                    } else {
                        &&& updated == (Session {
                            connection_state: ConnectionState::ConnectionError(message),
                            ..self
                        })
                        &&& action == SessionAction::<C>::Sleep(RECONNECT_DELAY_SECS)
                    }
                } else {
                    updated == self && action is Idle
                },
                SessionEvent::Received(diff) => if self.connection_state is Connected {
                    &&& updated.connection_state == self.connection_state
                    &&& updated.is_first_connection_attempt == self.is_first_connection_attempt
                    &&& updated.is_finished == self.is_finished
                    &&& PlayerState::diff_applied(self.player_state, diff, updated.player_state)
                    &&& action is Idle
                } else {
                    updated == self && action is Idle
                },
                SessionEvent::Closed => if self.connection_state is Connected {
                    &&& updated == (Session {
                        connection_state: ConnectionState::Disconnected,
                        is_finished: true,
                        ..self
                    })
                    &&& action == SessionAction::<C>::Finish(Ok(()))
                } else {
                    updated == self && action is Idle
                },
                SessionEvent::Command(command) => {
                    &&& updated == self
                    &&& action == if self.connection_state is Connected {
                        SessionAction::Send(command)
                    } else {
                        SessionAction::Idle
                    }
                },
                SessionEvent::DelayElapsed => if self.connection_state is ConnectionError {
                    &&& updated == (Session {
                        connection_state: ConnectionState::Connecting,
                        ..self
                    })
                    &&& action is Connect
                } else {
                    updated == self && action is Idle
                },
            }
        }
    }

    /// A new session: connecting for the first time, with the initial player
    /// state. Its driver starts by opening a channel.
    pub fn new() -> (r: Self)
        ensures
            r.wf(),
            r.connection_state is Connecting,
            r.is_first_connection_attempt,
            !r.is_finished,
            r.player_state.is_initial(),
    {
        Session {
            connection_state: ConnectionState::Connecting,
            is_first_connection_attempt: true,
            player_state: PlayerState::default(),
            is_finished: false,
        }
    }

    /// Takes in one event and says what to do next.
    pub fn step<C>(&mut self, event: SessionEvent<C>) -> (action: SessionAction<C>)
        ensures
            old(self).next(event, *final(self), action),
            old(self).wf() ==> final(self).wf(),
    {
        if self.is_finished {
            return SessionAction::Idle;
        }
        match event {
            SessionEvent::Opened => {
                if let ConnectionState::Connecting = self.connection_state {
                    self.connection_state = ConnectionState::Connected;
                    self.is_first_connection_attempt = false;
                }
                SessionAction::Idle
            },
            SessionEvent::Failed(message) => {
                let attempting = match self.connection_state {
                    ConnectionState::Connecting | ConnectionState::Connected => true,
                    _ => false,
                };
                if !attempting {
                    SessionAction::Idle
                } else if self.is_first_connection_attempt {
                    self.connection_state = ConnectionState::handle_closed(Err(message.clone()));
                    self.is_finished = true;
                    SessionAction::Finish(Err(message))
                } else {
                    self.connection_state = ConnectionState::ConnectionError(message);
                    SessionAction::Sleep(RECONNECT_DELAY_SECS)
                }
            },
            SessionEvent::Received(diff) => {
                if let ConnectionState::Connected = self.connection_state {
                    self.player_state.update_from_diff(diff);
                }
                SessionAction::Idle
            },
            SessionEvent::Closed => {
                if let ConnectionState::Connected = self.connection_state {
                    self.connection_state = ConnectionState::handle_closed(Ok(()));
                    self.is_finished = true;
                    SessionAction::Finish(Ok(()))
                } else {
                    SessionAction::Idle
                }
            },
            SessionEvent::Command(command) => {
                if let ConnectionState::Connected = self.connection_state {
                    SessionAction::Send(command)
                } else {
                    SessionAction::Idle
                }
            },
            SessionEvent::DelayElapsed => {
                if let ConnectionState::ConnectionError(_) = self.connection_state {
                    self.connection_state = ConnectionState::Connecting;
                    SessionAction::Connect
                } else {
                    SessionAction::Idle
                }
            },
        }
    }
}

/// A failure before the first successful connection ends the session with that
/// error, and nothing that happens afterwards makes it connect again.
pub proof fn lemma_first_failure_ends_session<C>(
    session: Session,
    message: String,
    failed: Session,
    action: SessionAction<C>,
    later: SessionEvent<C>,
    after: Session,
    later_action: SessionAction<C>,
)
    requires
        !session.is_finished,
        session.is_attempting(),
        session.is_first_connection_attempt,
        session.next(SessionEvent::Failed(message), failed, action),
        failed.next(later, after, later_action),
    ensures
        action == SessionAction::<C>::Finish(Err(message)),
        failed.connection_state == ConnectionState::ConnectionError(message),
        failed.is_finished,
        after == failed,
        later_action is Idle,
{
}

/// A failure after the session has connected shows the error at once and asks
/// for the delay; when the delay has run out the session connects again, once.
pub proof fn lemma_later_failure_reconnects_once<C>(
    session: Session,
    message: String,
    failed: Session,
    failed_action: SessionAction<C>,
    waited: Session,
    waited_action: SessionAction<C>,
    again: Session,
    again_action: SessionAction<C>,
)
    requires
        session.wf(),
        session.connection_state is Connected,
        !session.is_finished,
        session.next(SessionEvent::Failed(message), failed, failed_action),
        failed.next(SessionEvent::<C>::DelayElapsed, waited, waited_action),
        waited.next(SessionEvent::<C>::DelayElapsed, again, again_action),
    ensures
        failed.connection_state == ConnectionState::ConnectionError(message),
        !failed.is_finished,
        failed_action == SessionAction::<C>::Sleep(RECONNECT_DELAY_SECS),
        waited.connection_state is Connecting,
        waited_action is Connect,
        again_action is Idle,
        waited.player_state == session.player_state,
{
}

/// A command issued while the channel is not open is dropped: nothing is sent
/// and the session is unchanged.
pub proof fn lemma_command_dropped_unless_connected<C>(
    session: Session,
    command: C,
    updated: Session,
    action: SessionAction<C>,
)
    requires
        !(session.connection_state is Connected),
        session.next(SessionEvent::Command(command), updated, action),
    ensures
        action is Idle,
        updated == session,
{
}

} // verus!
