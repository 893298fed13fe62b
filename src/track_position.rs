use vstd::prelude::*;
use vstd::string::StringExecFns;

use crate::time_span::TimeSpan;

verus! {

/// Where playback stands in the current track, when both the position and the
/// length of the track are known.
#[derive(Clone, Copy, Debug, PartialEq, Eq)]
pub enum TrackPositionText {
    NoTrack,
    Track { position: TimeSpan, duration: TimeSpan },
}

/// The values of the seek slider.
#[derive(Clone, Copy, Debug, PartialEq, Eq)]
pub struct TrackPositionSliderValues {
    pub disabled: bool,
    pub position: u64,
    pub duration: u64,
}

/// The decimal digits of `n`.
pub open spec fn decimal(n: nat) -> Seq<char>
    decreases n,
{
    if n < 10 {
        seq![digit_char(n)]
    } else {
        decimal(n / 10) + seq![digit_char(n % 10)]
    }
}

/// The digit for `d`, below ten.
pub open spec fn digit_char(d: nat) -> char {
    if d == 0 {
        '0'
    } else if d == 1 {
        '1'
    } else if d == 2 {
        '2'
    } else if d == 3 {
        '3'
    } else if d == 4 {
        '4'
    } else if d == 5 {
        '5'
    } else if d == 6 {
        '6'
    } else if d == 7 {
        '7'
    } else if d == 8 {
        '8'
    } else {
        '9'
    }
}

/// `n` in decimal, with a leading zero below ten.
pub open spec fn two_digits(n: nat) -> Seq<char> {
    if n < 10 {
        seq!['0'] + decimal(n)
    } else {
        decimal(n)
    }
}

/// A number of seconds as minutes and seconds, `mm:ss`.
pub open spec fn clock_text(secs: nat) -> Seq<char> {
    two_digits(secs / 60) + seq![':'] + two_digits(secs % 60)
}

/// Appends the digit for `d`.
fn push_digit(out: &mut String, d: u64)
    requires
        d < 10,
    ensures
        final(out)@ == old(out)@ + seq![digit_char(d as nat)],
{
    proof {
        reveal_strlit("0");
        reveal_strlit("1");
        reveal_strlit("2");
        reveal_strlit("3");
        reveal_strlit("4");
        reveal_strlit("5");
        reveal_strlit("6");
        reveal_strlit("7");
        reveal_strlit("8");
        reveal_strlit("9");
    }
    let digit = if d == 0 {
        "0"
    } else if d == 1 {
        "1"
    } else if d == 2 {
        "2"
    } else if d == 3 {
        "3"
    } else if d == 4 {
        "4"
    } else if d == 5 {
        "5"
    } else if d == 6 {
        "6"
    } else if d == 7 {
        "7"
    } else if d == 8 {
        "8"
    } else {
        "9"
    };
    out.append(digit);
}

/// Appends `n` in decimal.
fn push_decimal(out: &mut String, n: u64)
    ensures
        final(out)@ == old(out)@ + decimal(n as nat),
    decreases n,
{
    if n >= 10 {
        push_decimal(out, n / 10);
    }
    push_digit(out, n % 10);
}

/// Appends `n` in decimal, with a leading zero below ten.
fn push_two_digits(out: &mut String, n: u64)
    ensures
        final(out)@ == old(out)@ + two_digits(n as nat),
{
    if n < 10 {
        proof {
            reveal_strlit("0");
        }
        out.append("0");
    }
    push_decimal(out, n);
}

/// Appends `secs` as `mm:ss`.
fn push_clock(out: &mut String, secs: u64)
    ensures
        final(out)@ == old(out)@ + clock_text(secs as nat),
{
    push_two_digits(out, secs / 60);
    proof {
        reveal_strlit(":");
    }
    out.append(":");
    push_two_digits(out, secs % 60);
}

/// The text of a track position, given in whole seconds: `mm:ss - mm:ss`.
pub fn clock_pair_text(position_secs: u64, duration_secs: u64) -> (r: String)
    ensures
        r@ == clock_text(position_secs as nat) + " - "@ + clock_text(duration_secs as nat),
{
    let mut text = String::new();
    push_clock(&mut text, position_secs);
    proof {
        reveal_strlit(" - ");
    }
    text.append(" - ");
    push_clock(&mut text, duration_secs);
    text
}

impl TrackPositionText {
    /// `Track` when both the position and the length are known, else `NoTrack`.
    pub fn new(track_position: &Option<TimeSpan>, track_duration: &Option<TimeSpan>) -> (r: Self)
        ensures
            r == match (*track_position, *track_duration) {
                (Some(position), Some(duration)) => TrackPositionText::Track { position, duration },
                _ => TrackPositionText::NoTrack,
            },
    {
        match (*track_position, *track_duration) {
            (Some(position), Some(duration)) => TrackPositionText::Track { position, duration },
            _ => TrackPositionText::NoTrack,
        }
    }

    /// The text shown for the position: `--` without a track, else the
    /// position and the length as `mm:ss - mm:ss`.
    pub fn to_string(&self) -> (r: String)
        ensures
            r@ == match *self {
                TrackPositionText::NoTrack => "--"@,
                TrackPositionText::Track { position, duration } => clock_text(position.secs as nat)
                    + " - "@ + clock_text(duration.secs as nat),
            },
    {
        match *self {
            TrackPositionText::NoTrack => {
                proof {
                    reveal_strlit("--");
                }
                "--".to_owned()
            },
            TrackPositionText::Track { position, duration } => clock_pair_text(
                position.as_secs(),
                duration.as_secs(),
            ),
        }
    }
}

impl TrackPositionSliderValues {
    /// A disabled slider over `0..100` without a track, else one over the
    /// track's length in whole seconds, at the position.
    pub fn from(track_position_text: TrackPositionText) -> (r: Self)
        ensures
            r == match track_position_text {
                TrackPositionText::NoTrack => TrackPositionSliderValues {
                    disabled: true,
                    position: 0,
                    duration: 100,
                },
                TrackPositionText::Track { position, duration } => TrackPositionSliderValues {
                    disabled: false,
                    position: position.secs,
                    duration: duration.secs,
                },
            },
    {
        match track_position_text {
            TrackPositionText::NoTrack => TrackPositionSliderValues {
                disabled: true,
                position: 0,
                duration: 100,
            },
            TrackPositionText::Track { position, duration } => TrackPositionSliderValues {
                disabled: false,
                position: position.as_secs(),
                duration: duration.as_secs(),
            },
        }
    }
}

} // verus!
