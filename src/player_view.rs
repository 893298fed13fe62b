use vstd::prelude::*;
use vstd::string::StringExecFns;

use crate::connection::ConnectionState;
use crate::player_state::{CurrentStation, PlayerState, Track, TrackTags};

verus! {

/// The text of an optional string, empty when there is none.
pub open spec fn text_or_empty(s: Option<String>) -> Seq<char> {
    match s {
        Some(s) => s@,
        None => Seq::empty(),
    }
}

/// The first of two optional strings that is present.
pub open spec fn first_present(first: Option<String>, second: Option<String>) -> Option<String> {
    match first {
        Some(s) => Some(s),
        None => second,
    }
}

/// The text of `s`, or empty.
fn owned_or_empty(s: Option<&String>) -> (r: String)
    ensures
        r@ == match s {
            Some(s) => s@,
            None => Seq::empty(),
        },
{
    match s {
        Some(s) => s.clone(),
        None => String::new(),
    }
}

/// The text of `first` if present, else of `second`, else empty.
fn first_or_empty(first: &Option<String>, second: &Option<String>) -> (r: String)
    ensures
        r@ == text_or_empty(first_present(*first, *second)),
{
    match first {
        Some(s) => s.clone(),
        None => owned_or_empty(second.as_ref()),
    }
}

/// A tag of the current track, when there are tags.
pub open spec fn tag_of(tags: Option<TrackTags>, tag: spec_fn(TrackTags) -> Option<String>) -> Option<
    String,
> {
    match tags {
        Some(t) => tag(t),
        None => None,
    }
}

impl ConnectionState {
    /// The message of the status banner: none while connected, else what the
    /// state says.
    pub fn banner(&self) -> (r: Option<String>)
        ensures
            r matches Some(m) ==> match *self {
                ConnectionState::Connecting => m@ == "Connecting..."@,
                ConnectionState::Disconnected => m@ == "RRadio has terminated"@,
                ConnectionState::ConnectionError(e) => m@ == e@,
                ConnectionState::Connected => false,
            },
            r is None <==> *self is Connected,
    {
        match self {
            ConnectionState::Connecting => {
                proof {
                    reveal_strlit("Connecting...");
                }
                Some("Connecting...".to_owned())
            },
            ConnectionState::Connected => None,
            ConnectionState::Disconnected => {
                proof {
                    reveal_strlit("RRadio has terminated");
                }
                Some("RRadio has terminated".to_owned())
            },
            ConnectionState::ConnectionError(e) => Some(e.clone()),
        }
    }
}

/// What the current-track panel shows: each of title, artist and album from the
/// track's tags, else from the playlist entry; genre and image from the tags
/// only; empty where neither has it.
#[derive(Clone, Debug, PartialEq, Eq)]
pub struct CurrentTrackText {
    pub title: String,
    pub artist: String,
    pub album: String,
    pub genre: String,
    pub image: String,
}

impl CurrentTrackText {
    pub fn new(track: &Track, tags: &Option<TrackTags>) -> (r: Self)
        ensures
            r.title@ == text_or_empty(
                first_present(tag_of(*tags, |t: TrackTags| t.title), track.title),
            ),
            r.artist@ == text_or_empty(
                first_present(tag_of(*tags, |t: TrackTags| t.artist), track.artist),
            ),
            r.album@ == text_or_empty(
                first_present(tag_of(*tags, |t: TrackTags| t.album), track.album),
            ),
            r.genre@ == text_or_empty(tag_of(*tags, |t: TrackTags| t.genre)),
            r.image@ == text_or_empty(tag_of(*tags, |t: TrackTags| t.image)),
    {
        match tags {
            Some(t) => CurrentTrackText {
                title: first_or_empty(&t.title, &track.title),
                artist: first_or_empty(&t.artist, &track.artist),
                album: first_or_empty(&t.album, &track.album),
                genre: owned_or_empty(t.genre.as_ref()),
                image: owned_or_empty(t.image.as_ref()),
            },
            None => CurrentTrackText {
                title: owned_or_empty(track.title.as_ref()),
                artist: owned_or_empty(track.artist.as_ref()),
                album: owned_or_empty(track.album.as_ref()),
                genre: String::new(),
                image: String::new(),
            },
        }
    }
}

impl PlayerState {
    /// The playlist entry being played: the one at the current index of the
    /// station's playlist, when a station is playing and the index is in range.
    pub open spec fn spec_current_track(&self) -> Option<Track> {
        match self.current_station@ {
            CurrentStation::PlayingStation { tracks: Some(tracks), .. } => {
                if self.current_track_index < tracks.len() {
                    Some(tracks@[self.current_track_index as int])
                } else {
                    None
                }
            },
            _ => None,
        }
    }

    /// The playlist entry being played, if any.
    pub fn current_track(&self) -> (r: Option<&Track>)
        ensures
            r matches Some(t) ==> self.spec_current_track() == Some(*t),
            r is None <==> self.spec_current_track() is None,
    {
        match self.current_station.as_ref() {
            CurrentStation::PlayingStation { tracks: Some(tracks), .. } => {
                if self.current_track_index < tracks.len() {
                    Some(&tracks[self.current_track_index])
                } else {
                    None
                }
            },
            _ => None,
        }
    }

    /// The title shown under the podcast player: the title tag of the current
    /// track, else the title of its playlist entry, else empty.
    pub fn current_track_title(&self) -> (r: String)
        ensures
            r@ == text_or_empty(
                first_present(
                    tag_of(self.current_track_tags@, |t: TrackTags| t.title),
                    match self.spec_current_track() {
                        Some(track) => track.title,
                        None => None,
                    },
                ),
            ),
    {
        match self.current_track_tags.as_ref() {
            Some(TrackTags { title: Some(title), .. }) => title.clone(),
            _ => match self.current_track() {
                Some(track) => owned_or_empty(track.title.as_ref()),
                None => String::new(),
            },
        }
    }
}

impl CurrentStation {
    /// The legend of the station panel.
    pub fn legend(&self) -> (r: String)
        ensures
            r@ == match *self {
                CurrentStation::NoStation => "No Station"@,
                CurrentStation::FailedToPlayStation { .. } => "Failed to Play Station"@,
                CurrentStation::PlayingStation { index: Some(index), .. } => "Station "@
                    + index@,
                CurrentStation::PlayingStation { index: None, .. } => "Station"@,
            },
    {
        match self {
            CurrentStation::NoStation => {
                proof {
                    reveal_strlit("No Station");
                }
                "No Station".to_owned()
            },
            CurrentStation::FailedToPlayStation { .. } => {
                proof {
                    reveal_strlit("Failed to Play Station");
                }
                "Failed to Play Station".to_owned()
            },
            CurrentStation::PlayingStation { index: Some(index), .. } => {
                proof {
                    reveal_strlit("Station ");
                }
                let mut legend = "Station ".to_owned();
                legend.append(index.as_str());
                legend
            },
            CurrentStation::PlayingStation { index: None, .. } => {
                proof {
                    reveal_strlit("Station");
                }
                "Station".to_owned()
            },
        }
    }

    /// The title of a playing station, else the kind of its source; none when
    /// no station is playing.
    pub fn display_title(&self) -> (r: Option<String>)
        ensures
            r == match *self {
                CurrentStation::PlayingStation { title: Some(title), .. } => Some(title),
                CurrentStation::PlayingStation { title: None, source_type, .. } => Some(
                    source_type,
                ),
                _ => None,
            },
    {
        match self {
            CurrentStation::PlayingStation { title: Some(title), .. } => Some(title.clone()),
            CurrentStation::PlayingStation { title: None, source_type, .. } => Some(
                source_type.clone(),
            ),
            _ => None,
        }
    }
}

/// What percent-decoding `s` as UTF-8 gives, or `None` where the decoded bytes
/// are not UTF-8.
pub uninterp spec fn percent_decoded(s: Seq<char>) -> Option<Seq<char>>;

/// Relies on `urlencoding::decode`: percent-decodes `s` as UTF-8, failing where
/// the decoded bytes are not UTF-8; a string without `%` comes back as it is.
#[verifier::external_body]
fn decode_percent(s: &str) -> (r: Option<String>)
    ensures
        match r {
            Some(d) => percent_decoded(s@) == Some(d@) && (!s@.contains('%') ==> d@ == s@),
            None => percent_decoded(s@) is None && s@.contains('%'),
        },
{
    urlencoding::decode(s).ok().map(|d| d.into_owned())
}

/// Relies on `str::rsplit_once`: splits `s` around its last `/`.
#[verifier::external_body]
fn split_at_last_slash(s: &str) -> (r: Option<(&str, &str)>)
    ensures
        r is None <==> !s@.contains('/'),
        r matches Some((head, tail)) ==> s@ == head@ + seq!['/'] + tail@ && !tail@.contains(
            '/',
        ),
{
    s.rsplit_once('/')
}

/// What follows the last `/` of `s`; `None` when there is no `/`.
pub open spec fn after_last_slash(s: Seq<char>) -> Option<Seq<char>>
    decreases s.len(),
{
    if s.len() == 0 {
        None
    } else if s.last() == '/' {
        Some(Seq::empty())
    } else {
        match after_last_slash(s.drop_last()) {
            Some(tail) => Some(tail.push(s.last())),
            None => None,
        }
    }
}

/// Splitting around a `/` that no later `/` follows finds what `after_last_slash`
/// names.
proof fn lemma_after_last_slash(head: Seq<char>, tail: Seq<char>)
    requires
        !tail.contains('/'),
    ensures
        after_last_slash(head + seq!['/'] + tail) == Some(tail),
    decreases tail.len(),
{
    let s = head + seq!['/'] + tail;
    if tail.len() == 0 {
        assert(s.last() == '/');
    } else {
        let shorter = tail.drop_last();
        assert(!shorter.contains('/')) by {
            if shorter.contains('/') {
                let i = choose|i: int| 0 <= i < shorter.len() && shorter[i] == '/';
                assert(tail[i] == '/');
            }
        }
        lemma_after_last_slash(head, shorter);
        assert(s.drop_last() =~= head + seq!['/'] + shorter);
        assert(s.last() == tail.last());
        assert(tail.last() != '/') by {
            assert(tail[tail.len() - 1] == '/' ==> tail.contains('/'));
        }
        assert(shorter.push(tail.last()) =~= tail);
    }
}

/// The text for a playlist entry whose title is unknown: the last segment of
/// its URL, percent-decoded where that succeeds; the whole URL when it has no
/// `/`.
pub open spec fn url_label(url: Seq<char>) -> Seq<char> {
    match after_last_slash(url) {
        Some(name) => match percent_decoded(name) {
            Some(decoded) => decoded,
            None => name,
        },
        None => url,
    }
}

/// The text of a playlist entry.
pub open spec fn spec_track_label(track: Track) -> Seq<char> {
    if track.is_notification {
        "<Notification>"@
    } else {
        match (track.title, track.artist) {
            (Some(title), Some(artist)) => title@ + " - "@ + artist@,
            (Some(title), None) => title@,
            (None, _) => url_label(track.url@),
        }
    }
}

/// The text of a playlist entry: `<Notification>` for a notification, else
/// `title - artist`, or the title alone, or, without a title, the file name at
/// the end of the URL.
pub fn track_label(track: &Track) -> (r: String)
    ensures
        r@ == spec_track_label(*track),
{
    if track.is_notification {
        proof {
            reveal_strlit("<Notification>");
        }
        return "<Notification>".to_owned();
    }
    match (&track.title, &track.artist) {
        (Some(title), Some(artist)) => {
            proof {
                reveal_strlit(" - ");
            }
            let mut label = title.clone();
            label.append(" - ");
            label.append(artist.as_str());
            label
        },
        (Some(title), None) => title.clone(),
        (None, _) => match split_at_last_slash(track.url.as_str()) {
            Some((head, name)) => {
                proof {
                    lemma_after_last_slash(head@, name@);
                }
                match decode_percent(name) {
                    Some(decoded) => decoded,
                    None => name.to_owned(),
                }
            },
            None => {
                proof {
                    if after_last_slash(track.url@) is Some {
                        lemma_no_slash_no_tail(track.url@);
                    }
                }
                track.url.clone()
            },
        },
    }
}

/// Without a `/` there is nothing after the last one.
proof fn lemma_no_slash_no_tail(s: Seq<char>)
    requires
        !s.contains('/'),
    ensures
        after_last_slash(s) is None,
    decreases s.len(),
{
    if s.len() > 0 {
        assert(s.last() != '/') by {
            assert(s[s.len() - 1] == s.last());
        }
        assert(!s.drop_last().contains('/')) by {
            if s.drop_last().contains('/') {
                let i = choose|i: int| 0 <= i < s.drop_last().len() && s.drop_last()[i] == '/';
                assert(s[i] == '/');
            }
        }
        lemma_no_slash_no_tail(s.drop_last());
    }
}

} // verus!
