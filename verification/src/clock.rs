use vstd::prelude::*;

use crate::history::Timestamp;
use crate::text::{first_word, short_duration, short_duration_spec, string_push};

verus! {

/// The text that `humantime::format_duration` gives for a duration of
/// `secs` seconds and `nanos` nanoseconds.
pub uninterp spec fn formatted_duration(secs: u64, nanos: u32) -> Seq<char>;

/// Formats a duration with `humantime::format_duration` (such as
/// `2h 37m` or `32ms`). The text is named; of it, only what the crate writes
/// for a zero duration, `0s`, is stated.
#[verifier::external_body]
pub(crate) fn format_duration(secs: u64, nanos: u32) -> (r: String)
    requires
        nanos < 1_000_000_000,
    ensures
        r@ == formatted_duration(secs, nanos),
        secs == 0 && nanos == 0 ==> r@ == seq!['0', 's'],
{
    humantime::format_duration(std::time::Duration::new(secs, nanos)).to_string()
}

/// The current time, from the system clock: `std::time::SystemTime::now()`
/// as the time since the Unix epoch (`duration_since(UNIX_EPOCH)`), split in
/// seconds and the nanoseconds past them (always under a second). `None`
/// when the clock reads a time before 1970, or more seconds than `i64`
/// holds. Which instant it reads is not stated: it depends on the clock.
#[verifier::external_body]
pub(crate) fn utc_now() -> (r: Option<Timestamp>)
    ensures
        r matches Some(t) ==> 0 <= t.secs && t.nanos < 1_000_000_000,
{
    let since = std::time::SystemTime::now().duration_since(std::time::UNIX_EPOCH).ok()?;
    let secs = i64::try_from(since.as_secs()).ok()?;
    Some(Timestamp { secs, nanos: since.subsec_nanos() })
}

/// How long a command ran, given in nanoseconds, as the whole milliseconds
/// it holds, split in seconds and nanoseconds; an unknown (negative)
/// duration counts as none.
pub open spec fn run_time_parts(duration: i64) -> (u64, u32) {
    let ms: int = if duration > 0 {
        duration / 1_000_000
    } else {
        0
    };
    ((ms / 1000) as u64, ((ms % 1000) * 1_000_000) as u32)
}

/// How long ago `then` was at `now`, split in seconds and nanoseconds; an
/// instant in the future counts as none. (The seconds are capped at
/// `u64::MAX`, which no pair of calendar dates reaches.)
pub open spec fn age_parts(now: Timestamp, then: Timestamp) -> (u64, u32) {
    let diff = now.total_nanos() - then.total_nanos();
    if diff < 0 {
        (0, 0)
    } else if diff / 1_000_000_000 > u64::MAX {
        (u64::MAX, (diff % 1_000_000_000) as u32)
    } else {
        ((diff / 1_000_000_000) as u64, (diff % 1_000_000_000) as u32)
    }
}

/// The seconds and nanoseconds of the whole milliseconds in a run time
/// given in nanoseconds.
pub fn run_time(duration: i64) -> (r: (u64, u32))
    ensures
        r == run_time_parts(duration),
        r.1 < 1_000_000_000,
{
    let d: u64 = if duration > 0 {
        duration as u64
    } else {
        0
    };
    let ms: u64 = d / 1_000_000;
    let nanos: u64 = (ms % 1000) * 1_000_000;
    (ms / 1000, nanos as u32)
}

/// The seconds and nanoseconds from `then` to `now`, none when `then` is
/// later.
pub fn age(now: Timestamp, then: Timestamp) -> (r: (u64, u32))
    ensures
        r == age_parts(now, then),
        r.1 < 1_000_000_000,
{
    let diff: i128 = (now.secs as i128 - then.secs as i128) * 1_000_000_000 + (now.nanos as i128
        - then.nanos as i128);
    assert(diff == now.total_nanos() - then.total_nanos());
    if diff < 0 {
        (0, 0)
    } else {
        let secs: i128 = diff / 1_000_000_000;
        let nanos: i128 = diff % 1_000_000_000;
        if secs > u64::MAX as i128 {
            (u64::MAX, nanos as u32)
        } else {
            (secs as u64, nanos as u32)
        }
    }
}

/// The word ` ago`.
pub open spec fn ago_suffix() -> Seq<char> {
    seq![' ', 'a', 'g', 'o']
}

/// The duration column of the result list for one command: how long it ran,
/// shortened.
pub open spec fn run_time_label(duration: i64) -> Seq<char> {
    short_duration_spec(formatted_duration(run_time_parts(duration).0, run_time_parts(duration).1))
}

/// The age column of the result list for one command: how long ago it
/// started, shortened, followed by ` ago`.
pub open spec fn age_label(now: Timestamp, then: Timestamp) -> Seq<char> {
    short_duration_spec(formatted_duration(age_parts(now, then).0, age_parts(now, then).1))
        + ago_suffix()
}

proof fn lemma_zero_duration_short()
    ensures
        short_duration_spec(seq!['0', 's']) == seq!['0', 's'],
{
    let z = seq!['0', 's'];
    assert(z.drop_first() =~= seq!['s']);
    assert(seq!['s'].drop_first() =~= Seq::<char>::empty());
    assert(first_word(Seq::<char>::empty()) =~= Seq::<char>::empty());
    assert(first_word(seq!['s']) =~= seq!['s']);
    assert(first_word(z) =~= z);
}

/// How long a command that ran `duration` nanoseconds took, as the result
/// list shows it (such as `2s` or `1d`).
pub fn run_time_text(duration: i64) -> (r: String)
    ensures
        r@ == run_time_label(duration),
{
    let (secs, nanos) = run_time(duration);
    let formatted = format_duration(secs, nanos);
    short_duration(formatted.as_str())
}

/// How long ago `then` was at `now`, as the result list shows it (such as
/// `5m ago`).
pub fn age_text(now: Timestamp, then: Timestamp) -> (r: String)
    ensures
        r@ == age_label(now, then),
        then.total_nanos() >= now.total_nanos() ==> r@ == seq!['0', 's'] + ago_suffix(),
{
    let (secs, nanos) = age(now, then);
    let formatted = format_duration(secs, nanos);
    let mut s = short_duration(formatted.as_str());
    proof {
        if then.total_nanos() >= now.total_nanos() {
            lemma_zero_duration_short();
        }
    }
    string_push(&mut s, ' ');
    string_push(&mut s, 'a');
    string_push(&mut s, 'g');
    string_push(&mut s, 'o');
    assert(s@ =~= short_duration_spec(formatted@) + ago_suffix());
    s
}

} // verus!
