//! Agenda events: their records, yearly repetition, the 30-day window shown
//! in the agenda panel and how its rows map to events.
use vstd::prelude::*;
use crate::dates::{Date, valid_date, valid_ymd, max_year, date_lt, date_le, date_plus_days, day_number, fits_days_after, current_date, day_diff, is_before, is_not_after, with_year, with_day, add_days};
use crate::keys::{Key, KeyCode};
use crate::selection::{Selectable, SelectionState};
use crate::text::{decimal, string_of, decimal_chars};

verus! {

/// An agenda event.
#[derive(Debug)]
pub struct AgendaEvent {
    pub name: String,
    pub date: Date,
    /// Seconds after midnight, if the event has a time.
    pub time: Option<u32>,
    /// Whether the event comes back every year.
    pub repeat: bool,
}

/// A date or time field of the event popup: its text, the cursor, and the
/// positions in the text that hold digits.
#[derive(Debug)]
pub struct DateTimeInput {
    pub value: String,
    pub cursor: usize,
    pub editable_positions: Vec<usize>,
}

/// What is stored of an event.
#[derive(Debug, PartialEq, Eq)]
pub struct AgendaEventData {
    pub name: String,
    pub date: Date,
    pub time: Option<u32>,
    pub repeat: bool,
}

impl AgendaEvent {
    /// What to store of the event.
    pub fn to_data(&self) -> (d: AgendaEventData)
        ensures
            d.name == self.name && d.date == self.date && d.time == self.time && d.repeat == self.repeat,
    {
        AgendaEventData { name: self.name.clone(), date: self.date, time: self.time, repeat: self.repeat }
    }

    /// The event that was stored.
    pub fn from_data(data: AgendaEventData) -> (e: AgendaEvent)
        ensures
            e.name == data.name && e.date == data.date && e.time == data.time && e.repeat == data.repeat,
    {
        AgendaEvent { name: data.name, date: data.date, time: data.time, repeat: data.repeat }
    }
}

/// `n` in decimal, with a minus sign when negative.
pub open spec fn signed_decimal(n: int) -> Seq<char> {
    if n < 0 { seq!['-'] + decimal((-n) as nat) } else { decimal(n as nat) }
}

/// How long until an event, `days` away: "1 day" or "N days".
pub open spec fn countdown_text(days: int) -> Seq<char> {
    if days == 1 { "1 day"@ } else { signed_decimal(days) + " days"@ }
}

/// Writes `n` in decimal, with a minus sign when negative.
pub fn format_i64(n: i64) -> (s: String)
    ensures
        s@ == signed_decimal(n as int),
{
    if n < 0 {
        let magnitude: u64 = ((-(n + 1)) as u64) + 1;
        let mut v: Vec<char> = Vec::new();
        v.push('-');
        let mut d = decimal_chars(magnitude);
        v.append(&mut d);
        assert(v@ =~= seq!['-'] + decimal((-n) as nat));
        string_of(v.as_slice())
    } else {
        let d = decimal_chars(n as u64);
        string_of(d.as_slice())
    }
}

/// The text for an event `days` away: "1 day" or "N days".
pub fn countdown_label(days: i64) -> (s: String)
    ensures
        s@ == countdown_text(days as int),
{
    proof {
        reveal_strlit("1 day");
        reveal_strlit(" days");
    }
    if days == 1 {
        let mut s = String::new();
        s.append("1 day");
        s
    } else {
        let mut s = format_i64(days);
        s.append(" days");
        s
    }
}

/// How long from `today` until `date`: "1 day" or "N days".
pub fn format_countdown_from(date: Date, today: Date) -> (s: String)
    requires
        valid_date(date),
        valid_date(today),
    ensures
        s@ == countdown_text(day_number(date) - day_number(today)),
{
    let days = day_diff(date, today);
    countdown_label(days)
}

/// How long from today until `date`: "1 day" or "N days".
pub fn format_countdown(date: Date) -> (s: String)
    requires
        valid_date(date),
    ensures
        exists|today: Date| valid_date(today) && s@ == countdown_text(day_number(date) - day_number(today)),
{
    let today = current_date();
    format_countdown_from(date, today)
}

/// The date a year after `d`, or the 28th of that month a year later when
/// the day does not exist then (29 February).
pub open spec fn next_year_date(d: Date) -> Date {
    if valid_ymd(d.year + 1, d.month as int, d.day as int) {
        Date { year: (d.year + 1) as i32, ..d }
    } else {
        Date { year: (d.year + 1) as i32, day: 28, ..d }
    }
}

/// A yearly date moved forward, a year at a time, until it is not before
/// `today`.
pub open spec fn rolled_forward(d: Date, today: Date) -> Date
    decreases today.year - d.year + 1,
{
    if date_lt(d, today) && d.year <= today.year && d.year < max_year() {
        rolled_forward(next_year_date(d), today)
    } else {
        d
    }
}

/// Whether every event's date exists.
pub open spec fn all_valid(events: Seq<AgendaEvent>) -> bool {
    forall|i: int| 0 <= i < events.len() ==> valid_date(#[trigger] events[i].date)
}

proof fn lemma_next_year_date_valid(d: Date)
    requires
        valid_date(d),
        d.year < max_year(),
    ensures
        valid_date(next_year_date(d)),
        next_year_date(d).year == d.year + 1,
        next_year_date(d).month == d.month,
{
}

proof fn lemma_rolled_forward_valid(d: Date, today: Date)
    requires
        valid_date(d),
    ensures
        valid_date(rolled_forward(d, today)),
    decreases today.year - d.year + 1,
{
    if date_lt(d, today) && d.year <= today.year && d.year < max_year() {
        lemma_next_year_date_valid(d);
        lemma_rolled_forward_valid(next_year_date(d), today);
    }
}

/// A yearly date rolled forward is never before `today`, when `today` lies
/// before the last year.
pub proof fn lemma_rolled_forward_not_before(d: Date, today: Date)
    requires
        valid_date(d),
        today.year < max_year(),
    ensures
        date_le(today, rolled_forward(d, today)),
    decreases today.year - d.year + 1,
{
    if date_lt(d, today) && d.year <= today.year && d.year < max_year() {
        lemma_next_year_date_valid(d);
        lemma_rolled_forward_not_before(next_year_date(d), today);
    }
}

/// Whether every repeating event, moved forward a year at a time, reaches a
/// date not before `today` within the calendar's last year; past it
/// `with_year` has no date and the roll-forward cannot go on.
pub open spec fn rolls_in_calendar(events: Seq<AgendaEvent>, today: Date) -> bool {
    forall|i: int| 0 <= i < events.len() && (#[trigger] events[i]).repeat ==> date_le(today, rolled_forward(events[i].date, today))
}

/// The same date a year later, or the 28th of its month a year later when
/// that day does not exist then.
fn next_year(date: Date) -> (r: Date)
    requires
        valid_date(date),
        date.year < max_year(),
    ensures
        r == next_year_date(date),
        valid_date(r),
{
    let year = date.year + 1;
    let moved = match with_year(date, year) {
        Some(nd) => nd,
        None => {
            let day28 = match with_day(date, 28) {
                Some(x) => x,
                None => date,
            };
            match with_year(day28, year) {
                Some(x) => x,
                None => day28,
            }
        },
    };
    proof { lemma_next_year_date_valid(date); }
    moved
}

/// Moves a repeating event's date forward to its next yearly occurrence on
/// or after `today`.
fn roll_date(d: Date, today: Date) -> (r: Date)
    requires
        valid_date(d),
        date_le(today, rolled_forward(d, today)),
    ensures
        r == rolled_forward(d, today),
        valid_date(r),
{
    let mut date = d;
    while is_before(date, today)
        invariant
            valid_date(date),
            rolled_forward(date, today) == rolled_forward(d, today),
            date_le(today, rolled_forward(d, today)),
        decreases today.year - date.year + 1,
    {
        proof { crate::dates::lemma_date_order(date, today, date); }
        date = next_year(date);
    }
    proof { lemma_rolled_forward_valid(d, today); }
    date
}

/// Whether a yearly date, moved forward a year at a time, reaches a date not
/// before `today` within the calendar's last year.
pub fn roll_reaches(d: Date, today: Date) -> (r: bool)
    requires
        valid_date(d),
    ensures
        r == date_le(today, rolled_forward(d, today)),
{
    let mut date = d;
    while is_before(date, today) && date.year < 262142
        invariant
            valid_date(date),
            rolled_forward(date, today) == rolled_forward(d, today),
        decreases today.year - date.year + 1,
    {
        date = next_year(date);
    }
    is_not_after(today, date)
}

/// Whether every repeating event can be rolled forward to `today` within
/// the calendar.
pub fn events_roll_in_calendar(events: &[AgendaEvent], today: Date) -> (r: bool)
    requires
        all_valid(events@),
    ensures
        r == rolls_in_calendar(events@, today),
{
    let mut i: usize = 0;
    while i < events.len()
        invariant
            i <= events@.len(),
            all_valid(events@),
            forall|j: int| 0 <= j < i && (#[trigger] events@[j]).repeat ==> date_le(today, rolled_forward(events@[j].date, today)),
        decreases events@.len() - i,
    {
        if events[i].repeat && !roll_reaches(events[i].date, today) {
            return false;
        }
        i = i + 1;
    }
    true
}

/// An event as it stands after the yearly roll-forward.
pub open spec fn rolled_event_date(e: AgendaEvent, today: Date) -> Date {
    if e.repeat { rolled_forward(e.date, today) } else { e.date }
}

/// The events with every repeating one moved to its next occurrence on or
/// after `today`; nothing else changed.
pub open spec fn events_rolled(o: Seq<AgendaEvent>, f: Seq<AgendaEvent>, today: Date) -> bool {
    &&& f.len() == o.len()
    &&& forall|i: int| 0 <= i < f.len() ==> {
        &&& (#[trigger] f[i]).date == rolled_event_date(o[i], today)
        &&& f[i].name == o[i].name
        &&& f[i].time == o[i].time
        &&& f[i].repeat == o[i].repeat
    }
}

/// Moves every repeating event to its next occurrence on or after `today`,
/// a year at a time. Other events stay as they are.
pub fn update_repeating_events_on(events: &mut Vec<AgendaEvent>, today: Date)
    requires
        all_valid(old(events)@),
        rolls_in_calendar(old(events)@, today),
    ensures
        events_rolled(old(events)@, final(events)@, today),
        all_valid(final(events)@),
{
    let mut i: usize = 0;
    while i < events.len()
        invariant
            i <= events@.len(),
            events@.len() == old(events)@.len(),
            rolls_in_calendar(old(events)@, today),
            all_valid(events@),
            all_valid(old(events)@),
            forall|j: int| 0 <= j < i ==> {
                &&& (#[trigger] events@[j]).date == rolled_event_date(old(events)@[j], today)
                &&& events@[j].name == old(events)@[j].name
                &&& events@[j].time == old(events)@[j].time
                &&& events@[j].repeat == old(events)@[j].repeat
            },
            forall|j: int| i <= j < events@.len() ==> #[trigger] events@[j] == old(events)@[j],
        decreases events@.len() - i,
    {
        if events[i].repeat {
            assert(events@[i as int] == old(events)@[i as int]);
            let d = roll_date(events[i].date, today);
            events[i].date = d;
        }
        i = i + 1;
    }
}

/// Moves every repeating event to its next occurrence on or after today.
pub fn update_repeating_events(events: &mut Vec<AgendaEvent>)
    requires
        all_valid(old(events)@),
    ensures
        exists|today: Date| #[trigger] valid_date(today) && if rolls_in_calendar(old(events)@, today) {
            events_rolled(old(events)@, final(events)@, today)
        } else {
            final(events)@ == old(events)@
        },
{
    let today = current_date();
    if events_roll_in_calendar(events.as_slice(), today) {
        update_repeating_events_on(events, today);
    }
}


/// Whether an event is kept when expired events are dropped: it repeats,
/// or it is not before `today`.
pub open spec fn kept_on(e: AgendaEvent, today: Date) -> bool {
    e.repeat || date_le(today, e.date)
}

/// The events that are kept on `today`, in order.
pub open spec fn kept_events(s: Seq<AgendaEvent>, today: Date) -> Seq<AgendaEvent> {
    s.filter(|e: AgendaEvent| kept_on(e, today))
}

/// The clean-up drops only what is over: every event that repeats or whose
/// date is not before `today` is kept, and every kept event is one of the
/// list that repeats or is not before `today`.
pub proof fn lemma_clean_up_keeps_what_is_due(s: Seq<AgendaEvent>, today: Date)
    ensures
        forall|e: AgendaEvent| s.contains(e) && (e.repeat || date_le(today, e.date))
            ==> #[trigger] kept_events(s, today).contains(e),
        forall|e: AgendaEvent| #[trigger] kept_events(s, today).contains(e)
            ==> s.contains(e) && (e.repeat || date_le(today, e.date)),
{
    broadcast use Seq::lemma_filter_contains_rev, Seq::lemma_filter_contains;
    let k = kept_events(s, today);
    assert forall|e: AgendaEvent| s.contains(e) && (e.repeat || date_le(today, e.date))
        implies #[trigger] k.contains(e) by {
        assert(kept_on(e, today));
    }
}

/// Drops the events that are over: those before `today` that do not repeat.
/// The others keep their order.
pub fn remove_expired_events_on(events: &mut Vec<AgendaEvent>, today: Date)
    ensures
        final(events)@ == old(events)@.filter(|e: AgendaEvent| kept_on(e, today)),
        final(events)@ == kept_events(old(events)@, today),
        forall|e: AgendaEvent| old(events)@.contains(e) && (e.repeat || date_le(today, e.date))
            ==> #[trigger] final(events)@.contains(e),
        forall|e: AgendaEvent| #[trigger] final(events)@.contains(e)
            ==> old(events)@.contains(e) && (e.repeat || date_le(today, e.date)),
{
    let ghost orig = events@;
    let mut src: Vec<AgendaEvent> = Vec::new();
    std::mem::swap(&mut src, events);
    let mut out: Vec<AgendaEvent> = Vec::new();
    let ghost mut k: int = 0;
    assert(orig.take(0) =~= Seq::<AgendaEvent>::empty());
    assert(orig.skip(0) =~= orig);
    proof { reveal_with_fuel(Seq::filter, 1); }
    while src.len() > 0
        invariant
            0 <= k <= orig.len(),
            src@ == orig.skip(k),
            out@ == orig.take(k).filter(|e: AgendaEvent| kept_on(e, today)),
        decreases src@.len(),
    {
        let e = src.remove(0);
        assert(orig.take(k + 1).drop_last() =~= orig.take(k));
        assert(orig.take(k + 1).last() == e);
        assert(src@ =~= orig.skip(k + 1));
        proof { reveal_with_fuel(Seq::filter, 1); }
        let keep = e.repeat || is_not_after(today, e.date);
        if keep {
            out.push(e);
        }
        proof { k = k + 1; }
    }
    assert(orig.take(k) =~= orig);
    proof { lemma_clean_up_keeps_what_is_due(orig, today); }
    *events = out;
}

/// Drops the events that are over: those before today that do not repeat.
pub fn remove_expired_events(events: &mut Vec<AgendaEvent>)
    ensures
        exists|today: Date| #[trigger] valid_date(today) && final(events)@ == kept_events(old(events)@, today),
{
    let today = current_date();
    remove_expired_events_on(events, today);
    assert(events@ == kept_events(old(events)@, today));
}

/// Whether a date falls in the agenda's window, from `today` to `max`.
pub open spec fn in_window(d: Date, today: Date, max: Date) -> bool {
    date_le(today, d) && date_le(d, max)
}

/// The indices of the events on `today`, in order.
pub open spec fn today_rows(events: Seq<AgendaEvent>, today: Date) -> Seq<usize>
    decreases events.len(),
{
    if events.len() == 0 {
        Seq::empty()
    } else {
        let r = today_rows(events.drop_last(), today);
        if events.last().date == today { r.push((events.len() - 1) as usize) } else { r }
    }
}

/// The indices of the events after `today` and up to `max`, in order.
pub open spec fn upcoming_rows(events: Seq<AgendaEvent>, today: Date, max: Date) -> Seq<usize>
    decreases events.len(),
{
    if events.len() == 0 {
        Seq::empty()
    } else {
        let r = upcoming_rows(events.drop_last(), today, max);
        let d = events.last().date;
        if in_window(d, today, max) && d != today { r.push((events.len() - 1) as usize) } else { r }
    }
}

/// Whether a list of indices is strictly increasing and below `n`.
pub open spec fn increasing_below(s: Seq<usize>, n: int) -> bool {
    &&& forall|k: int| 0 <= k < s.len() ==> (s[k] as int) < n
    &&& forall|k: int, l: int| 0 <= k < l < s.len() ==> s[k] < s[l]
}

proof fn lemma_rows_increasing(events: Seq<AgendaEvent>, today: Date, max: Date)
    requires
        events.len() <= usize::MAX,
    ensures
        increasing_below(today_rows(events, today), events.len() as int),
        increasing_below(upcoming_rows(events, today, max), events.len() as int),
    decreases events.len(),
{
    if events.len() > 0 {
        let n = events.len() - 1;
        lemma_rows_increasing(events.drop_last(), today, max);
        let t = today_rows(events.drop_last(), today);
        let u = upcoming_rows(events.drop_last(), today, max);
        let t2 = t.push(n as usize);
        assert(increasing_below(t2, events.len() as int)) by {
            assert forall|k: int, l: int| 0 <= k < l < t2.len() implies
                #[trigger] t2[k] < #[trigger] t2[l] by {
                if l == t.len() {
                    assert(t[k] < n);
                }
            }
        }
        let u2 = u.push(n as usize);
        assert(increasing_below(u2, events.len() as int)) by {
            assert forall|k: int, l: int| 0 <= k < l < u2.len() implies
                #[trigger] u2[k] < #[trigger] u2[l] by {
                if l == u.len() {
                    assert(u[k] < n);
                }
            }
        }
    }
}

/// Every row of either section names an event of the list.
pub proof fn lemma_rows_in_list(events: Seq<AgendaEvent>, today: Date, max: Date)
    requires
        events.len() <= usize::MAX,
    ensures
        forall|k: int| 0 <= k < today_rows(events, today).len() ==> (#[trigger] today_rows(events, today)[k] as int) < events.len(),
        forall|k: int| 0 <= k < upcoming_rows(events, today, max).len() ==> (#[trigger] upcoming_rows(events, today, max)[k] as int) < events.len(),
{
    lemma_rows_increasing(events, today, max);
}

/// The two sections of the agenda panel for `today`, with the window
/// ending on `max`: the events of today and those after today up to `max`,
/// each as indices into `events`.
pub fn sections_until(events: &[AgendaEvent], today: Date, max: Date) -> (r: (Vec<usize>, Vec<usize>))
    ensures
        r.0@ == today_rows(events@, today),
        r.1@ == upcoming_rows(events@, today, max),
{
    let mut today_indices: Vec<usize> = Vec::new();
    let mut upcoming_indices: Vec<usize> = Vec::new();
    let mut i: usize = 0;
    while i < events.len()
        invariant
            i <= events@.len(),
            events.len() == events@.len(),
            today_indices@ == today_rows(events@.take(i as int), today),
            upcoming_indices@ == upcoming_rows(events@.take(i as int), today, max),
        decreases events@.len() - i,
    {
        let ghost pre = events@.take(i as int);
        assert(events@.take(i + 1).drop_last() =~= pre);
        assert(events@.take(i + 1).last() == events@[i as int]);
        let d = events[i].date;
        if d == today {
            today_indices.push(i);
        } else if is_not_after(today, d) && is_not_after(d, max) {
            upcoming_indices.push(i);
        }
        i = i + 1;
    }
    assert(events@.take(events@.len() as int) =~= events@);
    (today_indices, upcoming_indices)
}

/// The two sections of the agenda panel for `today`: the events of today
/// and those of the next 30 days, each as indices into `events`.
pub fn agenda_sections(events: &[AgendaEvent], today: Date) -> (r: (Vec<usize>, Vec<usize>))
    requires
        fits_days_after(today, 30),
    ensures
        r.0@ == today_rows(events@, today),
        r.1@ == upcoming_rows(events@, today, date_plus_days(today, 30)),
        date_lt(today, date_plus_days(today, 30)),
        day_number(date_plus_days(today, 30)) == day_number(today) + 30,
{
    let max_date = add_days(today, 30);
    sections_until(events, today, max_date)
}

/// The event shown on table row `row`: row 0 is the "Today" header, then
/// today's events, a blank row, the "Upcoming" header and the upcoming
/// events.
pub open spec fn row_event(row: int, t: Seq<usize>, u: Seq<usize>) -> Option<usize> {
    if 1 <= row <= t.len() {
        Some(t[row - 1])
    } else if row > t.len() + 2 && row - (t.len() + 3) < u.len() {
        Some(u[row - (t.len() + 3)])
    } else {
        None
    }
}

/// The event shown on the selected row, if a row with an event is selected.
pub fn selected_event(selected_row: Option<usize>, today_indices: &[usize], upcoming_indices: &[usize]) -> (r: Option<usize>)
    ensures
        r == (match selected_row { Some(row) => row_event(row as int, today_indices@, upcoming_indices@), None => None }),
{
    let row = match selected_row {
        Some(row) => row,
        None => return None,
    };
    let today_count = today_indices.len();
    if row >= 1 && row <= today_count {
        Some(today_indices[row - 1])
    } else if row > today_count && row - today_count > 2 {
        let k = row - today_count - 3;
        if k < upcoming_indices.len() {
            Some(upcoming_indices[k])
        } else {
            None
        }
    } else {
        None
    }
}

/// The index of the first occurrence of `x` in `s`, if any.
pub open spec fn first_position(s: Seq<usize>, x: usize) -> Option<int> {
    if s.contains(x) {
        Some(choose|k: int| 0 <= k < s.len() && s[k] == x && forall|j: int| 0 <= j < k ==> s[j] != x)
    } else {
        None
    }
}

fn position_of(s: &[usize], x: usize) -> (r: Option<usize>)
    ensures
        match r {
            Some(k) => k < s@.len() && s@[k as int] == x && forall|j: int| 0 <= j < k ==> s@[j] != x,
            None => !s@.contains(x),
        },
{
    let mut k: usize = 0;
    while k < s.len()
        invariant
            k <= s@.len(),
            s.len() == s@.len(),
            forall|j: int| 0 <= j < k ==> s@[j] != x,
        decreases s@.len() - k,
    {
        if s[k] == x {
            return Some(k);
        }
        k = k + 1;
    }
    None
}

/// The table row that shows event `event_index`: one past its place among
/// today's events, or three past the end of those plus its place among the
/// upcoming ones.
pub open spec fn event_row(e: usize, t: Seq<usize>, u: Seq<usize>) -> Option<int> {
    if t.contains(e) {
        Some(first_position(t, e)->0 + 1)
    } else if u.contains(e) {
        Some(t.len() + 3 + first_position(u, e)->0)
    } else {
        None
    }
}

proof fn lemma_first_position(s: Seq<usize>, x: usize, k: int)
    requires
        0 <= k < s.len(),
        s[k] == x,
        forall|j: int| 0 <= j < k ==> s[j] != x,
    ensures
        first_position(s, x) == Some(k),
{
    assert(s.contains(x));
    let c = choose|c: int| 0 <= c < s.len() && s[c] == x && forall|j: int| 0 <= j < c ==> s[j] != x;
    assert(c == k) by {
        if c < k {
            assert(s[c] != x);
        } else if c > k {
            assert(s[k] != x);
        }
    }
}

/// The table row that shows the event, if it is in the window.
pub fn row_of_event(event_index: usize, today_indices: &[usize], upcoming_indices: &[usize]) -> (r: Option<usize>)
    requires
        today_indices@.len() + 3 + upcoming_indices@.len() <= usize::MAX,
    ensures
        r == (match event_row(event_index, today_indices@, upcoming_indices@) { Some(v) => Some(v as usize), None => None }),
{
    match position_of(today_indices, event_index) {
        Some(k) => {
            proof { lemma_first_position(today_indices@, event_index, k as int); }
            Some(k + 1)
        },
        None => match position_of(upcoming_indices, event_index) {
            Some(k) => {
                proof { lemma_first_position(upcoming_indices@, event_index, k as int); }
                Some(today_indices.len() + 3 + k)
            },
            None => None,
        },
    }
}

proof fn lemma_first_position_exists(s: Seq<usize>, x: usize)
    requires
        s.contains(x),
    ensures
        exists|k: int| 0 <= k < s.len() && s[k] == x && forall|j: int| 0 <= j < k ==> s[j] != x,
    decreases s.len(),
{
    if s.drop_last().contains(x) {
        lemma_first_position_exists(s.drop_last(), x);
        let k = choose|k: int| 0 <= k < s.drop_last().len() && s.drop_last()[k] == x
            && forall|j: int| 0 <= j < k ==> s.drop_last()[j] != x;
        assert(s[k] == x);
        assert forall|j: int| 0 <= j < k implies s[j] != x by {
            assert(s.drop_last()[j] == s[j]);
        }
    } else {
        let k = s.len() - 1;
        assert forall|j: int| 0 <= j < k implies s[j] != x by {
            if s[j] == x {
                assert(s.drop_last()[j] == x);
            }
        }
        let w = choose|w: int| 0 <= w < s.len() && s[w] == x;
        if w < k {
            assert(s.drop_last()[w] == x);
        }
        assert(s[k] == x);
    }
}

/// Selecting an event's row and reading the selection back gives the same
/// event, for every event in the window.
pub proof fn lemma_event_row_round_trip(e: usize, t: Seq<usize>, u: Seq<usize>)
    requires
        t.contains(e) || u.contains(e),
    ensures
        event_row(e, t, u) matches Some(row) && row_event(row, t, u) == Some(e),
{
    if t.contains(e) {
        lemma_first_position_exists(t, e);
        let k = first_position(t, e)->0;
        assert(0 <= k < t.len() && t[k] == e);
    } else {
        lemma_first_position_exists(u, e);
        let k = first_position(u, e)->0;
        assert(0 <= k < u.len() && u[k] == e);
    }
}

/// An event whose date falls in the window is listed among today's events
/// or among the upcoming ones.
pub proof fn lemma_event_in_sections(events: Seq<AgendaEvent>, e: int, today: Date, max: Date)
    requires
        0 <= e < events.len(),
        events.len() <= usize::MAX,
        in_window(events[e].date, today, max),
    ensures
        today_rows(events, today).contains(e as usize) || upcoming_rows(events, today, max).contains(e as usize),
    decreases events.len(),
{
    let n = events.len() - 1;
    let t = today_rows(events.drop_last(), today);
    let u = upcoming_rows(events.drop_last(), today, max);
    if e == n {
        if events.last().date == today {
            assert(t.push(e as usize)[t.len() as int] == e as usize);
        } else {
            assert(u.push(e as usize)[u.len() as int] == e as usize);
        }
    } else {
        assert(events.drop_last()[e] == events[e]);
        lemma_event_in_sections(events.drop_last(), e, today, max);
        if t.contains(e as usize) {
            let k = choose|k: int| 0 <= k < t.len() && t[k] == e as usize;
            assert(t.push(n as usize)[k] == e as usize);
        } else {
            let k = choose|k: int| 0 <= k < u.len() && u[k] == e as usize;
            assert(u.push(n as usize)[k] == e as usize);
        }
    }
}

/// The row found for an event lies within the table: after the "Today"
/// header and before the end of the upcoming rows.
pub proof fn lemma_event_row_bounds(e: usize, t: Seq<usize>, u: Seq<usize>)
    requires
        t.contains(e) || u.contains(e),
    ensures
        event_row(e, t, u) matches Some(row) && 1 <= row <= t.len() + 2 + u.len(),
{
    lemma_event_row_round_trip(e, t, u);
    if t.contains(e) {
        lemma_first_position_exists(t, e);
    } else {
        lemma_first_position_exists(u, e);
    }
}

/// Whether a table row is a header or the blank row between the sections.
pub open spec fn is_marker_row(row: int, today_count: int) -> bool {
    row == 0 || row == today_count + 1 || row == today_count + 2
}

/// Tells whether table row `row_idx` is a header or the blank row. On the
/// "Today" header it scrolls the table to the top, and when the "Upcoming"
/// header is selected it selects the row after it.
pub fn is_header_or_spacer(row_idx: usize, today_count: usize, state: &mut SelectionState) -> (r: bool)
    requires
        today_count + 3 <= usize::MAX,
    ensures
        r == is_marker_row(row_idx as int, today_count as int),
        row_idx == 0 ==> *final(state) == (SelectionState { offset: 0, ..*old(state) }),
        row_idx != 0 && row_idx == today_count + 2 && old(state).selected == Some(row_idx) ==>
            *final(state) == (SelectionState { selected: Some((row_idx + 1) as usize), ..*old(state) }),
        !(row_idx == 0) && !(row_idx == today_count + 2 && old(state).selected == Some(row_idx)) ==>
            *final(state) == *old(state),
{
    if row_idx == 0 {
        state.set_offset(0);
        return true;
    }
    if row_idx == today_count + 1 {
        return true;
    }
    if row_idx == today_count + 2 {
        if let Some(current) = state.selected() {
            if current == today_count + 2 {
                state.select(Some(current + 1));
            }
        }
        return true;
    }
    false
}

/// The first row from `start` on, below `total`, that shows an event.
pub open spec fn first_event_row_from(start: int, total: int, today_count: int) -> Option<int>
    decreases total - start,
{
    if start >= total {
        None
    } else if !is_marker_row(start, today_count) {
        Some(start)
    } else {
        first_event_row_from(start + 1, total, today_count)
    }
}

/// The last row before `end` that shows an event.
pub open spec fn last_event_row_before(end: int, today_count: int) -> Option<int>
    decreases end,
{
    if end <= 0 {
        None
    } else if !is_marker_row(end - 1, today_count) {
        Some(end - 1)
    } else {
        last_event_row_before(end - 1, today_count)
    }
}

/// Whether a key moves the agenda selection downwards, so that a landing on
/// a header is resolved by looking further down first.
pub open spec fn searches_down_first(key: Key) -> bool {
    match key.code {
        KeyCode::Char('k') | KeyCode::Up | KeyCode::Char('G') => false,
        _ => true,
    }
}

/// The row the selection snaps to from the header row `current`.
pub open spec fn snapped_row(current: int, total: int, today_count: int, down_first: bool) -> Option<int> {
    if down_first {
        match first_event_row_from(current, total, today_count) {
            Some(r) => Some(r),
            None => last_event_row_before(current, today_count),
        }
    } else {
        match last_event_row_before(current, today_count) {
            Some(r) => Some(r),
            None => first_event_row_from(current, total, today_count),
        }
    }
}

/// Whether snapping from `current` looks at row 0, which scrolls the table
/// to the top.
pub open spec fn snap_visits_top(current: int, total: int, today_count: int, down_first: bool) -> bool {
    current == 0 || (if down_first {
        first_event_row_from(current, total, today_count) is None && last_event_row_before(current, today_count) is None
    } else {
        last_event_row_before(current, today_count) is None
    })
}

proof fn lemma_first_event_row_bounds(start: int, total: int, today_count: int)
    ensures
        first_event_row_from(start, total, today_count) matches Some(r) ==> start <= r < total && !is_marker_row(r, today_count),
    decreases total - start,
{
    if start < total && is_marker_row(start, today_count) {
        lemma_first_event_row_bounds(start + 1, total, today_count);
    }
}

proof fn lemma_last_event_row_bounds(end: int, today_count: int)
    ensures
        last_event_row_before(end, today_count) matches Some(r) ==> 0 <= r < end && !is_marker_row(r, today_count),
    decreases end,
{
    if end > 0 && is_marker_row(end - 1, today_count) {
        lemma_last_event_row_bounds(end - 1, today_count);
    }
}

/// Snapping from a row of the table lands on a row of the table that
/// shows an event, when it lands anywhere.
pub proof fn lemma_snap_lands_on_event(current: int, total: int, today_count: int, down_first: bool)
    requires
        0 <= current < total,
    ensures
        snapped_row(current, total, today_count, down_first) matches Some(r)
            ==> 0 <= r < total && !is_marker_row(r, today_count),
{
    lemma_first_event_row_bounds(current, total, today_count);
    lemma_last_event_row_bounds(current, today_count);
}

/// Searches down from `current` for a row with an event.
fn search_down(current: usize, total_rows: usize, today_count: usize, state: &mut SelectionState) -> (r: Option<usize>)
    requires
        today_count + 3 <= usize::MAX,
        current >= 1,
    ensures
        r == (match first_event_row_from(current as int, total_rows as int, today_count as int) { Some(v) => Some(v as usize), None => None }),
        final(state).offset == old(state).offset,
{
    let mut test_idx = current;
    while test_idx < total_rows
        invariant
            today_count + 3 <= usize::MAX,
            current <= test_idx,
            current >= 1,
            first_event_row_from(test_idx as int, total_rows as int, today_count as int)
                == first_event_row_from(current as int, total_rows as int, today_count as int),
            state.offset == old(state).offset,
        decreases total_rows - test_idx,
    {
        if !is_header_or_spacer(test_idx, today_count, state) {
            return Some(test_idx);
        }
        test_idx = test_idx + 1;
    }
    None
}

/// Searches up from just above `current` for a row with an event. Looking
/// at row 0 scrolls the table to the top.
fn search_up(current: usize, today_count: usize, state: &mut SelectionState) -> (r: Option<usize>)
    requires
        today_count + 3 <= usize::MAX,
    ensures
        r == (match last_event_row_before(current as int, today_count as int) { Some(v) => Some(v as usize), None => None }),
        final(state).offset == (if r is None && current > 0 { 0 } else { old(state).offset }),
{
    let mut test_idx = current;
    while test_idx > 0
        invariant
            today_count + 3 <= usize::MAX,
            test_idx <= current,
            last_event_row_before(test_idx as int, today_count as int)
                == last_event_row_before(current as int, today_count as int),
            state.offset == (if test_idx < current && test_idx == 0 { 0 } else { old(state).offset }),
        decreases test_idx,
    {
        test_idx = test_idx - 1;
        if !is_header_or_spacer(test_idx, today_count, state) {
            return Some(test_idx);
        }
    }
    None
}

/// When the selection lands on a header or the blank row, moves it to the
/// nearest row with an event: downwards first, unless the key moved it up
/// (`k`, Up) or to the bottom (`G`). Nothing is selected when no row has an
/// event.
pub fn snap_agenda_selection(state: &mut SelectionState, total_rows: usize, today_count: usize, key: Key)
    requires
        today_count + 3 <= usize::MAX,
    ensures
        match old(state).selected {
            None => *final(state) == *old(state),
            Some(current) => if !is_marker_row(current as int, today_count as int) {
                *final(state) == *old(state)
            } else {
                let down = searches_down_first(key);
                let found = snapped_row(current as int, total_rows as int, today_count as int, down);
                &&& final(state).selected == (match found { Some(v) => Some(v as usize), None => None })
                &&& final(state).offset == (if found is None || snap_visits_top(current as int, total_rows as int, today_count as int, down) { 0 } else { old(state).offset })
            },
        },
{
    let current = match state.selected() {
        Some(c) => c,
        None => return,
    };
    if !is_header_or_spacer(current, today_count, state) {
        return;
    }
    let search_down_first = match key.code {
        KeyCode::Char('k') | KeyCode::Up => false,
        KeyCode::Char('j') | KeyCode::Down => true,
        KeyCode::Char('G') => false,
        _ => true,
    };
    let ghost offset0 = state.offset;
    let mut found: Option<usize> = None;
    if search_down_first {
        if current == 0 {
            // row 0 is the top header; the search starts below it
            found = search_down(1, total_rows, today_count, state);
            assert(first_event_row_from(0, total_rows as int, today_count as int)
                == first_event_row_from(1, total_rows as int, today_count as int));
        } else {
            found = search_down(current, total_rows, today_count, state);
        }
        if found.is_none() {
            found = search_up(current, today_count, state);
        }
    } else {
        found = search_up(current, today_count, state);
        if found.is_none() {
            if current == 0 {
                found = search_down(1, total_rows, today_count, state);
                assert(first_event_row_from(0, total_rows as int, today_count as int)
                    == first_event_row_from(1, total_rows as int, today_count as int));
            } else {
                found = search_down(current, total_rows, today_count, state);
            }
        }
    }
    state.select(found);
}


proof fn lemma_sections_fit(events: Seq<AgendaEvent>, today: Date, max: Date)
    ensures
        today_rows(events, today).len() + upcoming_rows(events, today, max).len() <= events.len(),
    decreases events.len(),
{
    if events.len() > 0 {
        lemma_sections_fit(events.drop_last(), today, max);
    }
}

/// The rows of today and of the coming days together never outnumber the
/// events.
pub proof fn lemma_sections_within_events(events: Seq<AgendaEvent>, today: Date, max: Date)
    ensures
        today_rows(events, today).len() + upcoming_rows(events, today, max).len() <= events.len(),
{
    lemma_sections_fit(events, today, max);
}

/// The indices of the events in the window from `today` to `max`, in order.
pub open spec fn window_rows(events: Seq<AgendaEvent>, today: Date, max: Date) -> Seq<usize>
    decreases events.len(),
{
    if events.len() == 0 {
        Seq::empty()
    } else {
        let r = window_rows(events.drop_last(), today, max);
        if in_window(events.last().date, today, max) { r.push((events.len() - 1) as usize) } else { r }
    }
}

/// Every row of the window names an event of the list.
pub proof fn lemma_window_rows_in_list(events: Seq<AgendaEvent>, today: Date, max: Date)
    requires
        events.len() <= usize::MAX,
    ensures
        forall|k: int| 0 <= k < window_rows(events, today, max).len() ==> (#[trigger] window_rows(events, today, max)[k] as int) < events.len(),
    decreases events.len(),
{
    if events.len() > 0 {
        lemma_window_rows_in_list(events.drop_last(), today, max);
        let r = window_rows(events.drop_last(), today, max);
        let w = window_rows(events, today, max);
        assert forall|k: int| 0 <= k < w.len() implies (#[trigger] w[k] as int) < events.len() by {
            if k < r.len() {
                assert(w[k] == r[k]);
            }
        }
    }
}

/// The indices of the events in the window from `today` to `max`.
pub fn window_until(events: &[AgendaEvent], today: Date, max: Date) -> (r: Vec<usize>)
    ensures
        r@ == window_rows(events@, today, max),
{
    let mut out: Vec<usize> = Vec::new();
    let mut i: usize = 0;
    while i < events.len()
        invariant
            i <= events@.len(),
            events.len() == events@.len(),
            out@ == window_rows(events@.take(i as int), today, max),
        decreases events@.len() - i,
    {
        assert(events@.take(i + 1).drop_last() =~= events@.take(i as int));
        assert(events@.take(i + 1).last() == events@[i as int]);
        let d = events[i].date;
        if is_not_after(today, d) && is_not_after(d, max) {
            out.push(i);
        }
        i = i + 1;
    }
    assert(events@.take(events@.len() as int) =~= events@);
    out
}

/// The indices of the events in the window from `today` to 30 days later.
pub fn visible_indices(events: &[AgendaEvent], today: Date) -> (r: Vec<usize>)
    requires
        fits_days_after(today, 30),
    ensures
        r@ == window_rows(events@, today, date_plus_days(today, 30)),
        date_lt(today, date_plus_days(today, 30)),
        day_number(date_plus_days(today, 30)) == day_number(today) + 30,
{
    let max_date = add_days(today, 30);
    window_until(events, today, max_date)
}

/// Whether event `a` comes before event `b` in the agenda's order: by date,
/// then by time, events with a time before those without.
pub open spec fn event_lt(a: AgendaEvent, b: AgendaEvent) -> bool {
    date_lt(a.date, b.date) || (a.date == b.date && match (a.time, b.time) {
        (Some(t1), Some(t2)) => t1 < t2,
        (Some(_), None) => true,
        _ => false,
    })
}

/// `x` put into the sorted list `s` after every event that does not come
/// after it.
pub open spec fn insert_sorted(s: Seq<AgendaEvent>, x: AgendaEvent) -> Seq<AgendaEvent>
    decreases s.len(),
{
    if s.len() == 0 {
        seq![x]
    } else if event_lt(x, s.last()) {
        insert_sorted(s.drop_last(), x).push(s.last())
    } else {
        s.push(x)
    }
}

/// The events in the agenda's order; events that compare equal keep their
/// order, as a stable sort leaves them.
pub open spec fn sorted_events(s: Seq<AgendaEvent>) -> Seq<AgendaEvent>
    decreases s.len(),
{
    if s.len() == 0 { s } else { insert_sorted(sorted_events(s.drop_last()), s.last()) }
}

/// Whether a list is in the agenda's order.
pub open spec fn is_sorted_events(s: Seq<AgendaEvent>) -> bool {
    forall|i: int, j: int| 0 <= i < j < s.len() ==> !event_lt(#[trigger] s[j], #[trigger] s[i])
}

fn event_before(a: &AgendaEvent, b: &AgendaEvent) -> (r: bool)
    ensures
        r == event_lt(*a, *b),
{
    if is_before(a.date, b.date) {
        return true;
    }
    if a.date != b.date {
        return false;
    }
    match (a.time, b.time) {
        (Some(t1), Some(t2)) => t1 < t2,
        (Some(_), None) => true,
        _ => false,
    }
}

/// Inserts `x` into the sorted list after every event not after it.
fn insert_event(out: &mut Vec<AgendaEvent>, x: AgendaEvent)
    ensures
        final(out)@ == insert_sorted(old(out)@, x),
{
    let ghost s = out@;
    let mut p = out.len();
    assert(s.take(s.len() as int) =~= s);
    assert(s.skip(s.len() as int) =~= Seq::<AgendaEvent>::empty());
    while p > 0 && event_before(&x, &out[p - 1])
        invariant
            p <= out@.len(),
            out@ == s,
            insert_sorted(s, x) == insert_sorted(s.take(p as int), x) + s.skip(p as int),
        decreases p,
    {
        let ghost t = s.take(p as int);
        assert(t.drop_last() =~= s.take(p - 1));
        assert(s.skip(p - 1) =~= seq![t.last()] + s.skip(p as int));
        assert(insert_sorted(t, x) == insert_sorted(s.take(p - 1), x).push(t.last()));
        assert(insert_sorted(s.take(p - 1), x).push(t.last()) + s.skip(p as int)
            =~= insert_sorted(s.take(p - 1), x) + s.skip(p - 1));
        p = p - 1;
    }
    proof {
        let t = s.take(p as int);
        if p > 0 {
            assert(t.last() == s[p - 1]);
            assert(insert_sorted(t, x) == t.push(x));
        } else {
            assert(t =~= Seq::<AgendaEvent>::empty());
        }
        assert(insert_sorted(t, x) + s.skip(p as int) =~= s.insert(p as int, x));
    }
    out.insert(p, x);
}

/// Sorts the events by date, then time (timed events first), keeping the
/// order of events that compare equal.
pub fn sort_events(events: &mut Vec<AgendaEvent>)
    ensures
        final(events)@ == sorted_events(old(events)@),
        final(events)@.len() == old(events)@.len(),
        final(events)@.to_multiset() == old(events)@.to_multiset(),
        forall|i: int, j: int| 0 <= i < j < final(events)@.len() ==>
            date_le((#[trigger] final(events)@[i]).date, (#[trigger] final(events)@[j]).date),
{
    let ghost orig = events@;
    let mut src: Vec<AgendaEvent> = Vec::new();
    std::mem::swap(&mut src, events);
    let mut out: Vec<AgendaEvent> = Vec::new();
    let ghost mut k: int = 0;
    assert(orig.take(0) =~= Seq::<AgendaEvent>::empty());
    assert(orig.skip(0) =~= orig);
    while src.len() > 0
        invariant
            0 <= k <= orig.len(),
            src@ == orig.skip(k),
            out@ == sorted_events(orig.take(k)),
        decreases src@.len(),
    {
        let e = src.remove(0);
        assert(orig.take(k + 1).drop_last() =~= orig.take(k));
        assert(orig.take(k + 1).last() == e);
        assert(src@ =~= orig.skip(k + 1));
        insert_event(&mut out, e);
        proof { k = k + 1; }
    }
    assert(orig.take(k) =~= orig);
    proof { lemma_sorted_events_by_date(orig); }
    *events = out;
}

proof fn lemma_insert_sorted_keeps_order(s: Seq<AgendaEvent>, x: AgendaEvent)
    requires
        is_sorted_events(s),
    ensures
        is_sorted_events(insert_sorted(s, x)),
        insert_sorted(s, x).len() == s.len() + 1,
        insert_sorted(s, x).to_multiset() == s.to_multiset().insert(x),
    decreases s.len(),
{
    broadcast use vstd::seq_lib::group_to_multiset_ensures;
    if s.len() == 0 {
        assert(seq![x] =~= Seq::<AgendaEvent>::empty().push(x));
    } else if event_lt(x, s.last()) {
        let init = s.drop_last();
        assert(is_sorted_events(init));
        lemma_insert_sorted_keeps_order(init, x);
        let r = insert_sorted(init, x);
        assert(s =~= init.push(s.last()));
        assert forall|i: int, j: int| 0 <= i < j < r.push(s.last()).len() implies
            !event_lt(#[trigger] r.push(s.last())[j], #[trigger] r.push(s.last())[i]) by {
            if j == r.len() {
                // every element of r is an element of init, or x
                let e = r[i];
                assert(r.to_multiset().count(e) > 0);
                assert(r.to_multiset() == init.to_multiset().insert(x));
                if e != x {
                    assert(init.to_multiset().count(e) > 0);
                    assert(init.contains(e));
                    let k = choose|k: int| 0 <= k < init.len() && init[k] == e;
                    assert(s[k] == e);
                    assert(!event_lt(s[s.len() - 1], s[k]));
                } else {
                    lemma_event_lt_asymmetric(x, s.last());
                }
            }
        }
    } else {
        assert forall|i: int, j: int| 0 <= i < j < s.push(x).len() implies
            !event_lt(#[trigger] s.push(x)[j], #[trigger] s.push(x)[i]) by {
            if j == s.len() {
                lemma_not_before_transitive(s[i], s.last(), x);
            }
        }
    }
}

proof fn lemma_event_lt_asymmetric(a: AgendaEvent, b: AgendaEvent)
    requires
        event_lt(a, b),
    ensures
        !event_lt(b, a),
{
}

proof fn lemma_not_before_transitive(a: AgendaEvent, b: AgendaEvent, c: AgendaEvent)
    requires
        !event_lt(b, a),
        !event_lt(c, b),
    ensures
        !event_lt(c, a),
{
}

/// Sorting the events puts them in the agenda's order and keeps every
/// event, each as often as before.
pub proof fn lemma_sorted_events_sorted(s: Seq<AgendaEvent>)
    ensures
        is_sorted_events(sorted_events(s)),
        sorted_events(s).len() == s.len(),
        sorted_events(s).to_multiset() == s.to_multiset(),
    decreases s.len(),
{
    broadcast use vstd::seq_lib::group_to_multiset_ensures;
    if s.len() > 0 {
        lemma_sorted_events_sorted(s.drop_last());
        lemma_insert_sorted_keeps_order(sorted_events(s.drop_last()), s.last());
        assert(s =~= s.drop_last().push(s.last()));
    }
}

/// The agenda's order follows the calendar: an event on an earlier date
/// comes first, an event that comes first is never on a later date, and on
/// one date an event with a time comes before one without.
pub proof fn lemma_event_order_follows_calendar(a: AgendaEvent, b: AgendaEvent)
    ensures
        date_lt(a.date, b.date) ==> event_lt(a, b),
        event_lt(a, b) ==> date_le(a.date, b.date),
        a.date == b.date && a.time is Some && b.time is None ==> event_lt(a, b),
        a.date == b.date && a.time is None ==> !event_lt(a, b),
{
    crate::dates::lemma_date_order(a.date, b.date, a.date);
}

/// Sorting keeps every event and lays them out forward in time: along the
/// sorted list the dates never go back.
pub proof fn lemma_sorted_events_by_date(s: Seq<AgendaEvent>)
    ensures
        sorted_events(s).len() == s.len(),
        sorted_events(s).to_multiset() == s.to_multiset(),
        forall|i: int, j: int| 0 <= i < j < s.len() ==>
            date_le((#[trigger] sorted_events(s)[i]).date, (#[trigger] sorted_events(s)[j]).date),
{
    lemma_sorted_events_sorted(s);
    let t = sorted_events(s);
    assert forall|i: int, j: int| 0 <= i < j < s.len() implies
        date_le((#[trigger] t[i]).date, (#[trigger] t[j]).date) by {
        assert(!event_lt(t[j], t[i]));
        crate::dates::lemma_date_order(t[i].date, t[j].date, t[i].date);
    }
}

} // verus!
