use vstd::prelude::*;

use crate::clock::utc_now;
use crate::date_text::safe_date_text;
use crate::history::{HistoryEntry, Timestamp};

verus! {

/// What a non-interactive search keeps of the entries that matched its
/// query. Each field that is `None` keeps everything.
///
/// A date bound is `Some(None)` when it was given but could not be read as a
/// date: then no entry is kept.
pub struct HistoryFilter {
    /// Keep only entries with this exit status.
    pub exit: Option<i64>,
    /// Drop the entries with this exit status.
    pub exclude_exit: Option<i64>,
    /// Drop the entries run in this directory.
    pub exclude_cwd: Option<String>,
    /// Keep only entries run in this directory.
    pub cwd: Option<String>,
    /// Keep only entries that started no later than this instant.
    pub before: Option<Option<Timestamp>>,
    /// Keep only entries that started no earlier than this instant.
    pub after: Option<Option<Timestamp>>,
}

/// Whether the filter keeps the entry.
pub open spec fn keeps(f: HistoryFilter, h: HistoryEntry) -> bool {
    &&& (f.exit matches Some(e) ==> h.exit == e)
    &&& (f.exclude_exit matches Some(e) ==> h.exit != e)
    &&& (f.exclude_cwd matches Some(c) ==> h.cwd@ != c@)
    &&& (f.cwd matches Some(c) ==> h.cwd@ == c@)
    &&& (f.before matches Some(b) ==> (b matches Some(t) && !h.timestamp.is_after(t)))
    &&& (f.after matches Some(a) ==> (a matches Some(t) && !t.is_after(h.timestamp)))
}

/// The entries the filter keeps, in their order.
pub open spec fn kept(f: HistoryFilter, entries: Seq<HistoryEntry>) -> Seq<HistoryEntry> {
    entries.filter(|h: HistoryEntry| keeps(f, h))
}

/// Whether a directory option names the current directory (`.`), which the
/// caller then replaces by the directory it runs in.
pub fn names_current_dir(cwd: &str) -> (r: bool)
    ensures
        r == (cwd@ == seq!['.']),
{
    if cwd.unicode_len() == 1 && cwd.get_char(0) == '.' {
        assert(cwd@ =~= seq!['.']);
        true
    } else {
        false
    }
}

/// An instant that dates can be read relative to: whole nanoseconds, and far
/// enough (about six thousand years and more) from the ends of the calendar
/// that `chrono` covers for any shift a safe date text asks for.
pub open spec fn date_base(now: Timestamp) -> bool {
    &&& -8_000_000_000_000 <= now.secs <= 8_000_000_000_000
    &&& now.nanos < 1_000_000_000
}

/// Whether the instant is one that dates can be read relative to.
pub fn is_date_base(now: Timestamp) -> (r: bool)
    ensures
        r == date_base(now),
{
    -8_000_000_000_000 <= now.secs && now.secs <= 8_000_000_000_000 && now.nanos < 1_000_000_000
}

/// The instant that `chrono_english` reads from the text `s`, in British
/// notation (day before month), relative to the instant `now`; `None` when
/// the text is not a date.
pub uninterp spec fn parsed_date(s: Seq<char>, now: Timestamp) -> Option<Timestamp>;

/// Reads `s` as a date in British notation relative to `now`, with
/// `chrono_english::parse_date_string(s, now, Dialect::Uk)` in UTC. The
/// instant is named, not stated.
#[verifier::external_body]
fn parse_date_at(s: &str, now: Timestamp) -> (r: Option<Timestamp>)
    requires
        safe_date_text(s@),
        date_base(now),
    ensures
        r == parsed_date(s@, now),
{
    let base = chrono::DateTime::from_timestamp(now.secs, now.nanos)?;
    match chrono_english::parse_date_string(s, base, chrono_english::Dialect::Uk) {
        Ok(d) => Some(Timestamp { secs: d.timestamp(), nanos: d.timestamp_subsec_nanos() }),
        Err(_) => None,
    }
}

/// A date bound as read from an option: none without the option, else the
/// instant read from its text (itself `None` when the text is not a date).
pub open spec fn read_bound(text: Option<String>, now: Timestamp) -> Option<Option<Timestamp>> {
    match text {
        Some(s) => Some(parsed_date(s@, now)),
        None => None,
    }
}

/// The date options can be read without stopping the program.
pub open spec fn safe_options(before: Option<String>, after: Option<String>) -> bool {
    &&& (before matches Some(s) ==> safe_date_text(s@))
    &&& (after matches Some(s) ==> safe_date_text(s@))
}

/// The filter with the given options, the dates read relative to `now`.
pub open spec fn filter_of(
    exit: Option<i64>,
    exclude_exit: Option<i64>,
    exclude_cwd: Option<String>,
    cwd: Option<String>,
    before: Option<String>,
    after: Option<String>,
    now: Timestamp,
) -> HistoryFilter {
    HistoryFilter {
        exit,
        exclude_exit,
        exclude_cwd,
        cwd,
        before: read_bound(before, now),
        after: read_bound(after, now),
    }
}

/// Reads an optional date option relative to `now`.
fn read_date_option(text: Option<String>, now: Timestamp) -> (r: Option<Option<Timestamp>>)
    requires
        text matches Some(s) ==> safe_date_text(s@),
        date_base(now),
    ensures
        r == read_bound(text, now),
{
    match text {
        Some(s) => Some(parse_date_at(s.as_str(), now)),
        None => None,
    }
}

impl HistoryFilter {
    /// The filter of a search given its options, both dates read relative to
    /// the instant `now`; a date that cannot be read keeps nothing.
    pub fn from_options_at(
        exit: Option<i64>,
        exclude_exit: Option<i64>,
        exclude_cwd: Option<String>,
        cwd: Option<String>,
        before: Option<String>,
        after: Option<String>,
        now: Timestamp,
    ) -> (f: HistoryFilter)
        requires
            safe_options(before, after),
            date_base(now),
        ensures
            f == filter_of(exit, exclude_exit, exclude_cwd, cwd, before, after, now),
    {
        let before = read_date_option(before, now);
        let after = read_date_option(after, now);
        HistoryFilter { exit, exclude_exit, exclude_cwd, cwd, before, after }
    }

    /// The filter of a search given its options, both dates read relative to
    /// the current time; `None` when the system clock cannot be read, or
    /// reads an instant that dates cannot be read relative to.
    pub fn from_options(
        exit: Option<i64>,
        exclude_exit: Option<i64>,
        exclude_cwd: Option<String>,
        cwd: Option<String>,
        before: Option<String>,
        after: Option<String>,
    ) -> (r: Option<HistoryFilter>)
        requires
            safe_options(before, after),
        ensures
            r matches Some(f) ==> exists|now: Timestamp|
                0 <= now.secs && #[trigger] date_base(now) && f == filter_of(
                    exit,
                    exclude_exit,
                    exclude_cwd,
                    cwd,
                    before,
                    after,
                    now,
                ),
    {
        match utc_now() {
            Some(now) => {
                if is_date_base(now) {
                    Some(
                        HistoryFilter::from_options_at(
                            exit,
                            exclude_exit,
                            exclude_cwd,
                            cwd,
                            before,
                            after,
                            now,
                        ),
                    )
                } else {
                    None
                }
            },
            None => None,
        }
    }

    /// Whether this filter keeps the entry.
    pub fn keeps_entry(&self, h: &HistoryEntry) -> (r: bool)
        ensures
            r == keeps(*self, *h),
    {
        if let Some(e) = self.exit {
            if h.exit != e {
                return false;
            }
        }
        if let Some(e) = self.exclude_exit {
            if h.exit == e {
                return false;
            }
        }
        if let Some(c) = &self.exclude_cwd {
            if h.cwd == *c {
                return false;
            }
        }
        if let Some(c) = &self.cwd {
            if h.cwd != *c {
                return false;
            }
        }
        if let Some(b) = &self.before {
            match b {
                Some(t) => {
                    if h.timestamp.later_than(t) {
                        return false;
                    }
                },
                None => {
                    return false;
                },
            }
        }
        if let Some(a) = &self.after {
            match a {
                Some(t) => {
                    if t.later_than(&h.timestamp) {
                        return false;
                    }
                },
                None => {
                    return false;
                },
            }
        }
        true
    }

    /// The entries this filter keeps, in their order.
    pub fn apply(&self, entries: &Vec<HistoryEntry>) -> (r: Vec<HistoryEntry>)
        ensures
            r@ == kept(*self, entries@),
    {
        let ghost pred = |h: HistoryEntry| keeps(*self, h);
        let mut out: Vec<HistoryEntry> = Vec::new();
        let mut i: usize = 0;
        while i < entries.len()
            invariant
                i <= entries.len(),
                pred == (|h: HistoryEntry| keeps(*self, h)),
                out@ == entries@.take(i as int).filter(pred),
            decreases entries.len() - i,
        {
            proof {
                reveal_with_fuel(Seq::<_>::filter, 1);
                assert(entries@.take(i + 1).drop_last() =~= entries@.take(i as int));
            }
            if self.keeps_entry(&entries[i]) {
                out.push(entries[i].duplicate());
            }
            i += 1;
        }
        assert(entries@.take(entries.len() as int) =~= entries@);
        out
    }
}

} // verus!
