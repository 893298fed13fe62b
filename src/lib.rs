//! State synchronisation for a remote media player: a change-identity wrapper,
//! a diff-merge engine over the player state, and the connection state machine
//! that drives it.

pub mod fast_eq_rc;
pub mod time_span;
pub mod update_from_diff;
pub mod player_state;
pub mod connection;
pub mod app_view;
pub mod track_position;
pub mod player_view;
pub mod podcasts;
