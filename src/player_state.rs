use vstd::prelude::*;

use crate::fast_eq_rc::FastEqRc;
use crate::time_span::TimeSpan;
use crate::update_from_diff::UpdateFromDiff;

verus! {

/// The phase of the player's playback pipeline.
#[derive(Clone, Copy, Debug, PartialEq, Eq)]
pub enum PipelineState {
    VoidPending,
    Null,
    Ready,
    Paused,
    Playing,
}

impl Default for PipelineState {
    fn default() -> (r: Self)
        ensures
            r == PipelineState::Null,
    {
        PipelineState::Null
    }
}

/// One entry of a station's playlist.
#[derive(Clone, Debug, PartialEq)]
pub struct Track {
    pub title: Option<String>,
    pub album: Option<String>,
    pub artist: Option<String>,
    pub url: String,
    pub is_notification: bool,
}

/// The metadata tags of the track being played.
#[derive(Clone, Debug, PartialEq)]
pub struct TrackTags {
    pub title: Option<String>,
    pub organisation: Option<String>,
    pub artist: Option<String>,
    pub album: Option<String>,
    pub genre: Option<String>,
    pub image: Option<String>,
    pub comment: Option<String>,
}

/// What the player is playing.
#[derive(Clone, Debug, PartialEq)]
pub enum CurrentStation {
    NoStation,
    FailedToPlayStation { error: String },
    PlayingStation {
        index: Option<String>,
        source_type: String,
        title: Option<String>,
        tracks: Option<Vec<Track>>,
    },
}

/// The latest round-trip times measured by the player.
#[derive(Clone, Debug, PartialEq)]
pub struct PingTimes {
    pub gateway: Option<TimeSpan>,
    pub remote: Option<TimeSpan>,
}

impl Default for PingTimes {
    fn default() -> (r: Self)
        ensures
            r.gateway is None,
            r.remote is None,
    {
        PingTimes { gateway: None, remote: None }
    }
}

/// The most recent error that the player reported.
#[derive(Clone, Debug, PartialEq)]
pub struct LatestError {
    pub message: String,
}

/// Everything the user interface shows of the remote player.
///
/// The station, the track tags and the latest error sit behind a change-identity
/// wrapper: a view can tell that one of them changed by identity alone.
#[derive(Clone, Debug, PartialEq)]
pub struct PlayerState {
    pub pipeline_state: PipelineState,
    pub current_station: FastEqRc<CurrentStation>,
    pub pause_before_playing: Option<TimeSpan>,
    pub current_track_index: usize,
    pub current_track_tags: FastEqRc<Option<TrackTags>>,
    pub is_muted: bool,
    pub volume: i32,
    pub buffering: u8,
    pub track_duration: Option<TimeSpan>,
    pub track_position: Option<TimeSpan>,
    pub ping_times: PingTimes,
    pub latest_error: FastEqRc<Option<LatestError>>,
}

/// A change to a [`PlayerState`], field by field: `None` leaves the field as it
/// is, `Some(x)` replaces it with `x`.
#[derive(Clone, Debug)]
pub struct PlayerStateDiff {
    pub pipeline_state: Option<PipelineState>,
    pub current_station: Option<CurrentStation>,
    pub pause_before_playing: Option<Option<TimeSpan>>,
    pub current_track_index: Option<usize>,
    pub current_track_tags: Option<Option<TrackTags>>,
    pub is_muted: Option<bool>,
    pub volume: Option<i32>,
    pub buffering: Option<u8>,
    pub track_duration: Option<Option<TimeSpan>>,
    pub track_position: Option<Option<TimeSpan>>,
    pub ping_times: Option<PingTimes>,
    pub latest_error: Option<Option<LatestError>>,
}

impl PlayerStateDiff {
    /// Every field is left as it is.
    pub open spec fn changes_nothing(&self) -> bool {
        &&& self.pipeline_state is None
        &&& self.current_station is None
        &&& self.pause_before_playing is None
        &&& self.current_track_index is None
        &&& self.current_track_tags is None
        &&& self.is_muted is None
        &&& self.volume is None
        &&& self.buffering is None
        &&& self.track_duration is None
        &&& self.track_position is None
        &&& self.ping_times is None
        &&& self.latest_error is None
    }
}

impl Default for PlayerStateDiff {
    /// The diff that changes nothing.
    fn default() -> (r: Self)
        ensures
            r.changes_nothing(),
    {
        PlayerStateDiff {
            pipeline_state: None,
            current_station: None,
            pause_before_playing: None,
            current_track_index: None,
            current_track_tags: None,
            is_muted: None,
            volume: None,
            buffering: None,
            track_duration: None,
            track_position: None,
            ping_times: None,
            latest_error: None,
        }
    }
}

impl PlayerState {
    /// The state a session starts from: no station, nothing playing, volume
    /// and indices at zero, no tags and no error.
    pub open spec fn is_initial(&self) -> bool {
        &&& self.pipeline_state == PipelineState::Null
        &&& self.current_station@ == CurrentStation::NoStation
        &&& self.pause_before_playing is None
        &&& self.current_track_index == 0
        &&& self.current_track_tags@ is None
        &&& !self.is_muted
        &&& self.volume == 0
        &&& self.buffering == 0
        &&& self.track_duration is None
        &&& self.track_position is None
        &&& self.ping_times.gateway is None
        &&& self.ping_times.remote is None
        &&& self.latest_error@ is None
    }

    /// The two states hold the same values, field by field; the wrapped fields
    /// are compared by the values they hold, not by identity.
    pub open spec fn same_values(&self, other: &Self) -> bool {
        &&& self.pipeline_state == other.pipeline_state
        &&& self.current_station@ == other.current_station@
        &&& self.pause_before_playing == other.pause_before_playing
        &&& self.current_track_index == other.current_track_index
        &&& self.current_track_tags@ == other.current_track_tags@
        &&& self.is_muted == other.is_muted
        &&& self.volume == other.volume
        &&& self.buffering == other.buffering
        &&& self.track_duration == other.track_duration
        &&& self.track_position == other.track_position
        &&& self.ping_times == other.ping_times
        &&& self.latest_error@ == other.latest_error@
    }
}

impl Default for PlayerState {
    fn default() -> (r: Self)
        ensures
            r.is_initial(),
    {
        PlayerState {
            pipeline_state: PipelineState::Null,
            current_station: FastEqRc::new(CurrentStation::NoStation),
            pause_before_playing: None,
            current_track_index: 0,
            current_track_tags: FastEqRc::new(None),
            is_muted: false,
            volume: 0,
            buffering: 0,
            track_duration: None,
            track_position: None,
            ping_times: PingTimes::default(),
            latest_error: FastEqRc::new(None),
        }
    }
}

impl UpdateFromDiff<PlayerStateDiff> for PlayerState {
    /// Field by field, each by its own rule.
    open spec fn diff_applied(current: Self, diff: PlayerStateDiff, updated: Self) -> bool {
        &&& <PipelineState as UpdateFromDiff<Option<PipelineState>>>::diff_applied(
            current.pipeline_state,
            diff.pipeline_state,
            updated.pipeline_state,
        )
        &&& <FastEqRc<CurrentStation> as UpdateFromDiff<Option<CurrentStation>>>::diff_applied(
            current.current_station,
            diff.current_station,
            updated.current_station,
        )
        &&& <Option<TimeSpan> as UpdateFromDiff<Option<Option<TimeSpan>>>>::diff_applied(
            current.pause_before_playing,
            diff.pause_before_playing,
            updated.pause_before_playing,
        )
        &&& <usize as UpdateFromDiff<Option<usize>>>::diff_applied(
            current.current_track_index,
            diff.current_track_index,
            updated.current_track_index,
        )
        &&& <FastEqRc<Option<TrackTags>> as UpdateFromDiff<Option<Option<TrackTags>>>>::diff_applied(
            current.current_track_tags,
            diff.current_track_tags,
            updated.current_track_tags,
        )
        &&& <bool as UpdateFromDiff<Option<bool>>>::diff_applied(
            current.is_muted,
            diff.is_muted,
            updated.is_muted,
        )
        &&& <i32 as UpdateFromDiff<Option<i32>>>::diff_applied(
            current.volume,
            diff.volume,
            updated.volume,
        )
        &&& <u8 as UpdateFromDiff<Option<u8>>>::diff_applied(
            current.buffering,
            diff.buffering,
            updated.buffering,
        )
        &&& <Option<TimeSpan> as UpdateFromDiff<Option<Option<TimeSpan>>>>::diff_applied(
            current.track_duration,
            diff.track_duration,
            updated.track_duration,
        )
        &&& <Option<TimeSpan> as UpdateFromDiff<Option<Option<TimeSpan>>>>::diff_applied(
            current.track_position,
            diff.track_position,
            updated.track_position,
        )
        &&& <PingTimes as UpdateFromDiff<Option<PingTimes>>>::diff_applied(
            current.ping_times,
            diff.ping_times,
            updated.ping_times,
        )
        &&& <FastEqRc<Option<LatestError>> as UpdateFromDiff<Option<Option<LatestError>>>>::diff_applied(
            current.latest_error,
            diff.latest_error,
            updated.latest_error,
        )
    }

    fn update_from_diff(&mut self, diff: PlayerStateDiff) {
        let PlayerStateDiff {
            pipeline_state,
            current_station,
            pause_before_playing,
            current_track_index,
            current_track_tags,
            is_muted,
            volume,
            buffering,
            track_duration,
            track_position,
            ping_times,
            latest_error,
        } = diff;

        self.pipeline_state.update_from_diff(pipeline_state);
        self.current_station.update_from_diff(current_station);
        self.pause_before_playing.update_from_diff(pause_before_playing);
        self.current_track_index.update_from_diff(current_track_index);
        self.current_track_tags.update_from_diff(current_track_tags);
        self.is_muted.update_from_diff(is_muted);
        self.volume.update_from_diff(volume);
        self.buffering.update_from_diff(buffering);
        self.track_duration.update_from_diff(track_duration);
        self.track_position.update_from_diff(track_position);
        self.ping_times.update_from_diff(ping_times);
        self.latest_error.update_from_diff(latest_error);
    }
}

/// A diff that changes nothing leaves the state as it was: every field holds the
/// same value, and every wrapped field is still the same instance.
pub proof fn lemma_empty_diff_keeps_state(
    state: PlayerState,
    diff: PlayerStateDiff,
    updated: PlayerState,
)
    requires
        diff.changes_nothing(),
        PlayerState::diff_applied(state, diff, updated),
    ensures
        updated == state,
        updated.same_values(&state),
        updated.current_station.same_instance(&state.current_station),
        updated.current_track_tags.same_instance(&state.current_track_tags),
        updated.latest_error.same_instance(&state.latest_error),
{
    updated.current_station.lemma_equal_same_instance(&state.current_station);
    updated.current_track_tags.lemma_equal_same_instance(&state.current_track_tags);
    updated.latest_error.lemma_equal_same_instance(&state.latest_error);
}

/// A field for which the diff carries a value holds exactly that value
/// afterwards, and a wrapped one is a new instance, even where the value equals
/// the old one; a field for which the diff carries none is left as it was, a
/// wrapped one as the same instance.
pub proof fn lemma_diff_replaces_fields(
    state: PlayerState,
    diff: PlayerStateDiff,
    updated: PlayerState,
)
    requires
        PlayerState::diff_applied(state, diff, updated),
    ensures
        updated.pipeline_state == match diff.pipeline_state {
            Some(x) => x,
            None => state.pipeline_state,
        },
        diff.current_station matches Some(x) ==> updated.current_station@ == x,
        diff.current_station is Some ==> !updated.current_station.same_instance(&state.current_station),
        diff.current_station is None ==> updated.current_station == state.current_station,
        updated.pause_before_playing == match diff.pause_before_playing {
            Some(x) => x,
            None => state.pause_before_playing,
        },
        updated.current_track_index == match diff.current_track_index {
            Some(x) => x,
            None => state.current_track_index,
        },
        diff.current_track_tags matches Some(x) ==> updated.current_track_tags@ == x,
        diff.current_track_tags is Some ==> !updated.current_track_tags.same_instance(&state.current_track_tags),
        diff.current_track_tags is None ==> updated.current_track_tags
            == state.current_track_tags,
        updated.is_muted == match diff.is_muted {
            Some(x) => x,
            None => state.is_muted,
        },
        updated.volume == match diff.volume {
            Some(x) => x,
            None => state.volume,
        },
        updated.buffering == match diff.buffering {
            Some(x) => x,
            None => state.buffering,
        },
        updated.track_duration == match diff.track_duration {
            Some(x) => x,
            None => state.track_duration,
        },
        updated.track_position == match diff.track_position {
            Some(x) => x,
            None => state.track_position,
        },
        updated.ping_times == match diff.ping_times {
            Some(x) => x,
            None => state.ping_times,
        },
        diff.latest_error matches Some(x) ==> updated.latest_error@ == x,
        diff.latest_error is Some ==> !updated.latest_error.same_instance(&state.latest_error),
        diff.latest_error is None ==> updated.latest_error == state.latest_error,
{
}

/// Applying one diff to one state twice gives results that hold the same
/// values. The wrapped fields that the diff replaced may be different instances
/// in the two results; those it left alone are the same instance in both.
pub proof fn lemma_same_diff_same_values(
    state: PlayerState,
    diff: PlayerStateDiff,
    first: PlayerState,
    second: PlayerState,
)
    requires
        PlayerState::diff_applied(state, diff, first),
        PlayerState::diff_applied(state, diff, second),
    ensures
        first.same_values(&second),
        diff.current_station is None ==> first.current_station.same_instance(
            &second.current_station,
        ),
        diff.current_track_tags is None ==> first.current_track_tags.same_instance(
            &second.current_track_tags,
        ),
        diff.latest_error is None ==> first.latest_error.same_instance(&second.latest_error),
{
    if diff.current_station is None {
        first.current_station.lemma_equal_same_instance(&second.current_station);
    }
    if diff.current_track_tags is None {
        first.current_track_tags.lemma_equal_same_instance(&second.current_track_tags);
    }
    if diff.latest_error is None {
        first.latest_error.lemma_equal_same_instance(&second.latest_error);
    }
}

/// Applying a diff again to its own result changes no value, yet every wrapped
/// field that the diff replaces becomes a new instance once more.
pub proof fn lemma_reapplied_diff_keeps_values(
    state: PlayerState,
    diff: PlayerStateDiff,
    once: PlayerState,
    twice: PlayerState,
)
    requires
        PlayerState::diff_applied(state, diff, once),
        PlayerState::diff_applied(once, diff, twice),
    ensures
        twice.same_values(&once),
        diff.current_station is Some ==> !twice.current_station.same_instance(
            &once.current_station,
        ),
        diff.current_track_tags is Some ==> !twice.current_track_tags.same_instance(
            &once.current_track_tags,
        ),
        diff.latest_error is Some ==> !twice.latest_error.same_instance(&once.latest_error),
{
}

} // verus!
