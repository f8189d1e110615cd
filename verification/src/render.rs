use vstd::prelude::*;

use crate::clock::{ago_suffix, age_label, age_text, run_time_label, run_time_text, utc_now};
use crate::history::{HistoryEntry, Timestamp};
use crate::state::State;
use crate::text::{flatten_whitespace, one_line, spaces, string_push};

verus! {

/// One line of the result list, as plain text and flags; drawing it is left
/// to the terminal front end.
pub struct ResultRow {
    /// ` N ` for the entry N places after the selected one (N from 1 to 9),
    /// else three spaces: the number to press with Alt to choose it.
    pub offset_label: String,
    /// How long the command ran.
    pub run_time: String,
    /// Whether the command succeeded or its status is unknown: the run time
    /// is drawn green, else red.
    pub succeeded: bool,
    /// How long ago the command ran, padded on the left so that the run time
    /// and the age take the same width on every line.
    pub age: String,
    /// The command, on one line.
    pub command: String,
    /// Whether this is the selected entry (drawn bold and red).
    pub highlighted: bool,
}

/// The number of bytes of the UTF-8 text of `s`.
pub open spec fn byte_len(s: Seq<char>) -> nat {
    vstd::utf8::encode_utf8(s).len()
}

/// The bytes that the run time and the age of an entry take together.
pub open spec fn row_width(now: Timestamp, h: HistoryEntry) -> nat {
    byte_len(run_time_label(h.duration)) + byte_len(age_label(now, h.timestamp))
}

/// The largest `row_width` among the entries (none: 0).
pub open spec fn widest(now: Timestamp, hs: Seq<HistoryEntry>) -> nat
    decreases hs.len(),
{
    if hs.len() == 0 {
        0
    } else {
        let rest = widest(now, hs.drop_last());
        let w = row_width(now, hs.last());
        if rest >= w {
            rest
        } else {
            w
        }
    }
}

/// The character of the decimal digit `d`.
pub open spec fn digit_char(d: int) -> char {
    (48 + d) as char
}

/// The label of entry `i`: ` N ` when it comes N places after the selected
/// entry, N from 1 to 9; else three spaces.
pub open spec fn offset_label(i: int, selected: Option<usize>) -> Seq<char> {
    match selected {
        Some(s) => if 0 < i - s < 10 {
            seq![' ', digit_char(i - s), ' ']
        } else {
            seq![' ', ' ', ' ']
        },
        None => seq![' ', ' ', ' '],
    }
}

/// `row` is how the result list shows entry `i` of `st` at `now`.
pub open spec fn shows(row: ResultRow, st: State, now: Timestamp, i: int) -> bool {
    let h = st.results@[i];
    &&& row.offset_label@ == offset_label(i, st.selected)
    &&& row.run_time@ == run_time_label(h.duration)
    &&& row.age@ == spaces((widest(now, st.results@) - row_width(now, h)) as nat) + age_label(
        now,
        h.timestamp,
    )
    &&& row.succeeded == (h.exit == 0 || h.duration == -1)
    &&& row.command@ == one_line(h.command@)
    &&& row.highlighted == (st.selected == Some(i as usize))
}

proof fn lemma_widest_bounds(now: Timestamp, hs: Seq<HistoryEntry>, i: int)
    requires
        0 <= i < hs.len(),
    ensures
        row_width(now, hs[i]) <= widest(now, hs),
    decreases hs.len(),
{
    if i < hs.len() - 1 {
        lemma_widest_bounds(now, hs.drop_last(), i);
    }
}

proof fn lemma_byte_len_spaces(n: nat, s: Seq<char>)
    ensures
        byte_len(spaces(n) + s) == n + byte_len(s),
    decreases n,
{
    if n > 0 {
        let t = spaces(n) + s;
        assert(t.drop_first() =~= spaces((n - 1) as nat) + s);
        assert(t[0] == ' ');
        assert(' ' as u32 == 32) by {
            vstd::utf8::char_u32_cast(' ', 32);
        }
        lemma_byte_len_spaces((n - 1) as nat, s);
    } else {
        assert(spaces(0) + s =~= s);
    }
}

/// The number of bytes of the UTF-8 text of `s`.
fn byte_length(s: &String) -> (n: usize)
    ensures
        n == byte_len(s@),
{
    s.as_str().as_bytes().len()
}

/// `n` spaces followed by `s`.
fn pad_left(n: u128, s: &String) -> (r: String)
    ensures
        r@ == spaces(n as nat) + s@,
{
    let mut out = String::new();
    let mut j: u128 = 0;
    while j < n
        invariant
            j <= n,
            out@ == spaces(j as nat),
        decreases n - j,
    {
        string_push(&mut out, ' ');
        assert(spaces((j + 1) as nat) =~= spaces(j as nat).push(' '));
        j += 1;
    }
    out.append(s.as_str());
    out
}

/// The label of entry `i` given the selection.
fn offset_text(i: usize, selected: Option<usize>) -> (r: String)
    ensures
        r@ == offset_label(i as int, selected),
{
    let mut out = String::new();
    string_push(&mut out, ' ');
    let mut digit = ' ';
    if let Some(s) = selected {
        if i >= s {
            let diff = i - s;
            if 0 < diff && diff < 10 {
                digit = (48u8 + diff as u8) as char;
            }
        }
    }
    string_push(&mut out, digit);
    string_push(&mut out, ' ');
    assert(out@ =~= offset_label(i as int, selected));
    out
}

/// `r` holds the run time and the age of each entry of `st`, as the result
/// list shows them at `now`.
pub open spec fn durations_shown(r: Seq<(String, String)>, st: State, now: Timestamp) -> bool {
    &&& r.len() == st.results@.len()
    &&& forall|i: int|
        0 <= i < r.len() ==> r[i].0@ == run_time_label(st.results@[i].duration) && r[i].1@
            == age_label(now, st.results@[i].timestamp)
}

/// `r` is the result list of `st` at `now`, one line per entry, in order.
pub open spec fn rows_shown(r: Seq<ResultRow>, st: State, now: Timestamp) -> bool {
    &&& r.len() == st.results@.len()
    &&& forall|i: int| 0 <= i < r.len() ==> shows(#[trigger] r[i], st, now, i)
}

impl State {
    /// The run time and the age of each entry, as the result list shows
    /// them at `now`.
    pub fn durations_at(&self, now: Timestamp) -> (r: Vec<(String, String)>)
        ensures
            durations_shown(r@, *self, now),
            forall|i: int|
                0 <= i < r@.len() && self.results@[i].timestamp.total_nanos() >= now.total_nanos()
                    ==> #[trigger] r@[i].1@ == seq!['0', 's'] + ago_suffix(),
    {
        let mut out: Vec<(String, String)> = Vec::new();
        let mut i: usize = 0;
        while i < self.results.len()
            invariant
                i <= self.results.len(),
                out@.len() == i,
                forall|k: int|
                    0 <= k < i ==> out@[k].0@ == run_time_label(self.results@[k].duration)
                        && out@[k].1@ == age_label(now, self.results@[k].timestamp),
                forall|k: int|
                    0 <= k < i && self.results@[k].timestamp.total_nanos() >= now.total_nanos()
                        ==> #[trigger] out@[k].1@ == seq!['0', 's'] + ago_suffix(),
            decreases self.results.len() - i,
        {
            let h = &self.results[i];
            let run = run_time_text(h.duration);
            let ago = age_text(now, h.timestamp);
            out.push((run, ago));
            i += 1;
        }
        out
    }

    /// The run time and the age of each entry, as the result list shows
    /// them now; `None` when the system clock cannot be read as a time after
    /// 1970.
    pub fn durations(&self) -> (r: Option<Vec<(String, String)>>)
        ensures
            r is Some ==> exists|now: Timestamp|
                0 <= now.secs && now.nanos < 1_000_000_000 && #[trigger] durations_shown(
                    r.unwrap()@,
                    *self,
                    now,
                ),
    {
        match utc_now() {
            Some(now) => {
                let v = self.durations_at(now);
                let r = Some(v);
                assert(durations_shown(r.unwrap()@, *self, now));
                r
            },
            None => None,
        }
    }

    /// The lines of the result list at `now`, one per entry, in order.
    pub fn render_rows_at(&self, now: Timestamp) -> (r: Vec<ResultRow>)
        ensures
            rows_shown(r@, *self, now),
            forall|i: int|
                0 <= i < r@.len() ==> byte_len(#[trigger] r@[i].run_time@) + byte_len(r@[i].age@)
                    == widest(now, self.results@),
    {
        let durations = self.durations_at(now);
        let n = self.results.len();
        let mut width: u128 = 0;
        let mut i: usize = 0;
        while i < n
            invariant
                n == self.results@.len(),
                durations@.len() == n,
                forall|k: int|
                    0 <= k < n ==> durations@[k].0@ == run_time_label(self.results@[k].duration)
                        && durations@[k].1@ == age_label(now, self.results@[k].timestamp),
                i <= n,
                width == widest(now, self.results@.take(i as int)),
            decreases n - i,
        {
            assert(self.results@.take(i + 1).drop_last() =~= self.results@.take(i as int));
            let w = byte_length(&durations[i].0) as u128 + byte_length(&durations[i].1) as u128;
            if w > width {
                width = w;
            }
            i += 1;
        }
        assert(self.results@.take(n as int) =~= self.results@);
        let mut rows: Vec<ResultRow> = Vec::new();
        let mut i: usize = 0;
        while i < n
            invariant
                n == self.results@.len(),
                durations@.len() == n,
                forall|k: int|
                    0 <= k < n ==> durations@[k].0@ == run_time_label(self.results@[k].duration)
                        && durations@[k].1@ == age_label(now, self.results@[k].timestamp),
                width == widest(now, self.results@),
                i <= n,
                rows@.len() == i,
                forall|k: int| 0 <= k < i ==> shows(#[trigger] rows@[k], *self, now, k),
                forall|k: int|
                    0 <= k < i ==> byte_len(#[trigger] rows@[k].run_time@) + byte_len(
                        rows@[k].age@,
                    ) == widest(now, self.results@),
            decreases n - i,
        {
            let h = &self.results[i];
            proof {
                lemma_widest_bounds(now, self.results@, i as int);
            }
            let used = byte_length(&durations[i].0) as u128 + byte_length(&durations[i].1) as u128;
            let age = pad_left(width - used, &durations[i].1);
            proof {
                lemma_byte_len_spaces((width - used) as nat, durations@[i as int].1@);
            }
            let row = ResultRow {
                offset_label: offset_text(i, self.selected),
                run_time: durations[i].0.clone(),
                succeeded: h.exit == 0 || h.duration == -1,
                age,
                command: flatten_whitespace(h.command.as_str()),
                highlighted: match self.selected {
                    Some(s) => s == i,
                    None => false,
                },
            };
            rows.push(row);
            i += 1;
        }
        rows
    }

    /// The lines of the result list now, one per entry, in order; `None`
    /// when the system clock cannot be read as a time after 1970.
    pub fn render_rows(&self) -> (r: Option<Vec<ResultRow>>)
        ensures
            r is Some ==> exists|now: Timestamp|
                0 <= now.secs && now.nanos < 1_000_000_000 && #[trigger] rows_shown(
                    r.unwrap()@,
                    *self,
                    now,
                ),
    {
        match utc_now() {
            Some(now) => {
                let v = self.render_rows_at(now);
                let r = Some(v);
                assert(rows_shown(r.unwrap()@, *self, now));
                r
            },
            None => None,
        }
    }
}

} // verus!
