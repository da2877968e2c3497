//! Countdown timers: their records, the duration field, the large-digit
//! display and moving the selection through the grid of timer cards.
use vstd::prelude::*;
use crate::countdown::Countdown;
use crate::text::{chars_of, split_chars, split_on, parse_u64, parsed_u64, string_of};

verus! {

/// A timer card.
#[derive(Debug)]
pub struct TimerInfo {
    pub name: String,
    /// The length of the timer, in seconds.
    pub duration: u64,
    pub status: String,
    pub countdown: Countdown,
}

/// What is stored of a timer.
#[derive(Debug, PartialEq, Eq)]
pub struct TimerInfoData {
    pub name: String,
    pub duration: u64,
    pub status: String,
}

/// The duration field of the timer popup, `HH:MM:SS`.
#[derive(Debug)]
pub struct DurationInput {
    pub value: String,
    pub cursor: usize,
}

/// Milliseconds in `secs` seconds.
pub open spec fn secs_to_millis(secs: u64) -> u128 {
    (secs * 1000) as u128
}

/// Converts seconds to milliseconds; every number of seconds fits.
pub fn millis_of_secs(secs: u64) -> (r: u128)
    ensures
        r == secs_to_millis(secs),
        r == secs * 1000,
{
    secs as u128 * 1000
}

impl TimerInfo {
    /// What to store of the timer.
    pub fn to_data(&self) -> (d: TimerInfoData)
        ensures
            d.name == self.name,
            d.duration == self.duration,
            d.status == self.status,
    {
        TimerInfoData { name: self.name.clone(), duration: self.duration, status: self.status.clone() }
    }

    /// A timer restored from what was stored, its countdown ready to run
    /// for the whole duration.
    pub fn from_data(data: TimerInfoData) -> (t: TimerInfo)
        ensures
            t.name == data.name,
            t.duration == data.duration,
            t.status == data.status,
            t.countdown@.ends_at is None,
            t.countdown@.ends_at_timestamp is None,
            t.countdown@.remaining == secs_to_millis(data.duration),
    {
        let ms = millis_of_secs(data.duration);
        TimerInfo { name: data.name, duration: data.duration, status: data.status, countdown: Countdown::new(ms) }
    }
}

/// The seconds that a `HH:MM:SS` text stands for, as the timer popup reads
/// it: three parts split at `:`, each an unsigned decimal number, minutes
/// and seconds below 60.
pub open spec fn duration_spec(s: Seq<char>) -> Option<int> {
    let parts = split_on(s, ':');
    if parts.len() != 3 {
        None
    } else {
        match (parsed_u64(parts[0]), parsed_u64(parts[1]), parsed_u64(parts[2])) {
            (Some(h), Some(m), Some(sec)) => if m >= 60 || sec >= 60 {
                None
            } else {
                Some(h * 3600 + m * 60 + sec)
            },
            _ => None,
        }
    }
}

/// Whether the duration that a text stands for fits in a `u64` of seconds.
pub open spec fn duration_fits(s: Seq<char>) -> bool {
    duration_spec(s) matches Some(v) ==> v <= u64::MAX
}

/// Reads `HH:MM:SS` as a number of seconds; `None` when the text is not of
/// that form or minutes or seconds reach 60.
pub fn parse_duration(input: &str) -> (r: Option<u64>)
    requires
        duration_fits(input@),
    ensures
        match duration_spec(input@) {
            Some(v) => r == Some(v as u64),
            None => r is None,
        },
{
    let chars = chars_of(input);
    let parts = split_chars(chars.as_slice(), ':');
    if parts.len() != 3 {
        return None;
    }
    let hours = match parse_u64(parts[0].as_slice()) {
        Some(v) => v,
        None => return None,
    };
    let minutes = match parse_u64(parts[1].as_slice()) {
        Some(v) => v,
        None => return None,
    };
    let seconds = match parse_u64(parts[2].as_slice()) {
        Some(v) => v,
        None => return None,
    };
    if minutes >= 60 || seconds >= 60 {
        return None;
    }
    assert(hours * 3600 + minutes * 60 + seconds <= u64::MAX);
    Some(hours * 3600 + minutes * 60 + seconds)
}

/// Whether a text's duration fits in a `u64` of seconds.
pub fn duration_in_range(input: &str) -> (r: bool)
    ensures
        r == duration_fits(input@),
{
    let chars = chars_of(input);
    let parts = split_chars(chars.as_slice(), ':');
    if parts.len() != 3 {
        return true;
    }
    let hours = match parse_u64(parts[0].as_slice()) {
        Some(v) => v,
        None => return true,
    };
    let minutes = match parse_u64(parts[1].as_slice()) {
        Some(v) => v,
        None => return true,
    };
    let seconds = match parse_u64(parts[2].as_slice()) {
        Some(v) => v,
        None => return true,
    };
    if minutes >= 60 || seconds >= 60 {
        return true;
    }
    hours <= (u64::MAX - minutes * 60 - seconds) / 3600
}

/// The three rows of a character in large digits.
pub open spec fn glyph(c: char) -> (Seq<char>, Seq<char>, Seq<char>) {
    if c == '0' { ("█▀█"@, "█ █"@, "▀▀▀"@) }
    else if c == '1' { ("█"@, "█"@, "▀"@) }
    else if c == '2' { ("▀▀█"@, "█▀▀"@, "▀▀▀"@) }
    else if c == '3' { ("▀▀█"@, "▀▀█"@, "▀▀▀"@) }
    else if c == '4' { ("█ █"@, "▀▀█"@, "  ▀"@) }
    else if c == '5' { ("█▀▀"@, "▀▀█"@, "▀▀▀"@) }
    else if c == '6' { ("█▀▀"@, "█▀█"@, "▀▀▀"@) }
    else if c == '7' { ("▀▀█"@, "  █"@, "  ▀"@) }
    else if c == '8' { ("█▀█"@, "█▀█"@, "▀▀▀"@) }
    else if c == '9' { ("█▀█"@, "▀▀█"@, "▀▀▀"@) }
    else if c == ':' { ("▄"@, "▄"@, " "@) }
    else { ("   "@, "   "@, "   "@) }
}

/// The rows of a character drawn in large digits.
pub fn get_big_glyph(c: char) -> (r: (&'static str, &'static str, &'static str))
    ensures
        (r.0@, r.1@, r.2@) == glyph(c),
{
    match c {
        '0' => ("█▀█", "█ █", "▀▀▀"),
        '1' => ("█", "█", "▀"),
        '2' => ("▀▀█", "█▀▀", "▀▀▀"),
        '3' => ("▀▀█", "▀▀█", "▀▀▀"),
        '4' => ("█ █", "▀▀█", "  ▀"),
        '5' => ("█▀▀", "▀▀█", "▀▀▀"),
        '6' => ("█▀▀", "█▀█", "▀▀▀"),
        '7' => ("▀▀█", "  █", "  ▀"),
        '8' => ("█▀█", "█▀█", "▀▀▀"),
        '9' => ("█▀█", "▀▀█", "▀▀▀"),
        ':' => ("▄", "▄", " "),
        _ => ("   ", "   ", "   "),
    }
}

/// The three rows of a text in large digits, characters separated by a
/// space.
pub open spec fn big_rows(s: Seq<char>) -> (Seq<char>, Seq<char>, Seq<char>)
    decreases s.len(),
{
    if s.len() == 0 {
        (Seq::empty(), Seq::empty(), Seq::empty())
    } else {
        let (t, m, b) = big_rows(s.drop_last());
        let g = glyph(s.last());
        if s.len() == 1 {
            (g.0, g.1, g.2)
        } else {
            (t + " "@ + g.0, m + " "@ + g.1, b + " "@ + g.2)
        }
    }
}

/// Draws a time like `01:30:00` in large digits, as three rows of text.
pub fn render_time_display(time_str: &str) -> (r: (String, String, String))
    ensures
        (r.0@, r.1@, r.2@) == big_rows(time_str@),
{
    let chars = chars_of(time_str);
    let mut top = String::new();
    let mut mid = String::new();
    let mut bot = String::new();
    let mut i: usize = 0;
    while i < chars.len()
        invariant
            i <= chars@.len(),
            chars@ == time_str@,
            (top@, mid@, bot@) == big_rows(chars@.take(i as int)),
        decreases chars@.len() - i,
    {
        let ghost pre = chars@.take(i as int);
        assert(chars@.take(i + 1).drop_last() =~= pre);
        if i > 0 {
            top.append(" ");
            mid.append(" ");
            bot.append(" ");
        }
        let (t, m, b) = get_big_glyph(chars[i]);
        top.append(t);
        mid.append(m);
        bot.append(b);
        proof {
            if i == 0 {
                assert(top@ =~= glyph(chars@[0]).0);
                assert(mid@ =~= glyph(chars@[0]).1);
                assert(bot@ =~= glyph(chars@[0]).2);
            }
        }
        i = i + 1;
    }
    assert(chars@.take(chars@.len() as int) =~= chars@);
    (top, mid, bot)
}

/// The timer to the left: the previous one, or the first.
pub fn left_of(current: usize) -> (r: usize)
    ensures
        r == (if current > 0 { current - 1 } else { 0 }),
{
    if current > 0 { current - 1 } else { 0 }
}

/// The timer to the right: the next one, or the last. `None` when there are
/// no timers.
pub fn right_of(current: usize, len: usize) -> (r: Option<usize>)
    requires
        current < usize::MAX,
    ensures
        r == (if len == 0 { None } else if current + 1 < len - 1 { Some((current + 1) as usize) } else { Some((len - 1) as usize) }),
{
    if len == 0 {
        return None;
    }
    let next = current + 1;
    Some(if next < len - 1 { next } else { len - 1 })
}

/// The timer below in the grid of three columns, or `None` to stay. With
/// four or five timers the bottom row is centred, so its cards sit under
/// the gaps of the top row.
pub open spec fn timer_below(current: int, len: int) -> Option<int> {
    if len == 4 && current == 1 { Some(3) }
    else if len == 5 && current == 2 { Some(4) }
    else if len == 5 && current == 1 { Some(3) }
    else if current > 2 { None }
    else if len == 0 { None }
    else if current + 3 < len { Some(current + 3) }
    else { Some(len - 1) }
}

/// The timer above in the grid of three columns, or `None` to stay.
pub open spec fn timer_above(current: int, len: int) -> Option<int> {
    if len == 4 && current == 3 { Some(1) }
    else if len == 5 && current == 4 { Some(2) }
    else if current >= 3 { Some(current - 3) }
    else { None }
}

/// The timer below the selected one, or `None` to stay.
pub fn below(current: usize, len: usize) -> (r: Option<usize>)
    ensures
        r == (match timer_below(current as int, len as int) { Some(v) => Some(v as usize), None => None }),
{
    if len == 4 && current == 1 {
        return Some(3);
    }
    if len == 5 && current == 2 {
        return Some(4);
    }
    if len == 5 && current == 1 {
        return Some(3);
    }
    if current > 2 {
        return None;
    }
    if len == 0 {
        return None;
    }
    let target = current + 3;
    if target < len { Some(target) } else { Some(len - 1) }
}

/// The timer above the selected one, or `None` to stay.
pub fn above(current: usize, len: usize) -> (r: Option<usize>)
    ensures
        r == (match timer_above(current as int, len as int) { Some(v) => Some(v as usize), None => None }),
{
    if len == 4 && current == 3 {
        return Some(1);
    }
    if len == 5 && current == 4 {
        return Some(2);
    }
    if current >= 3 {
        Some(current - 3)
    } else {
        None
    }
}

/// Moving up or down from a timer lands on a timer.
pub proof fn lemma_grid_moves_stay_on_timers(current: int, len: int)
    requires
        0 <= current < len,
    ensures
        timer_below(current, len) matches Some(v) ==> 0 <= v < len,
        timer_above(current, len) matches Some(v) ==> 0 <= v < len,
{
}

/// From the top row, going down and then up comes back when the row below
/// is full.
pub proof fn lemma_down_then_up_returns(current: int, len: int)
    requires
        0 <= current < 3,
        len >= 6,
    ensures
        timer_below(current, len) == Some(current + 3),
        timer_above(current + 3, len) == Some(current),
{
}

} // verus!
