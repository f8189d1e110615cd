use vstd::prelude::*;

use crate::clock::age_parts;
use crate::filter::{kept, keeps, HistoryFilter};
use crate::history::{HistoryEntry, Timestamp};
use crate::layout::{compact_layout, Style};
use crate::state::{
    can_move_up, key_action, key_defined, key_effect, moved_down, moved_up, selection_for,
    selection_in_range, KeyAction, KeyCode, KeyInput, KeyOutcome, State,
};
use crate::text::{join_words, without_last_word};

verus! {

/// Whatever key is pressed, a selection that lay within the results still
/// does afterwards.
pub proof fn key_keeps_selection_in_range(old: State, new: State, k: KeyInput, r: KeyOutcome)
    requires
        selection_in_range(old),
        key_defined(old, k),
        key_effect(old, new, k, r),
    ensures
        selection_in_range(new),
{
}

/// Pressing Enter with an entry selected ends the search with that entry's
/// command and leaves the state as it was.
pub proof fn enter_chooses_selected(
    old: State,
    new: State,
    k: KeyInput,
    r: KeyOutcome,
    i: usize,
)
    requires
        key_action(k) == KeyAction::Accept,
        key_effect(old, new, k, r),
        old.selected == Some(i),
        i < old.results@.len(),
    ensures
        r matches KeyOutcome::Finish(s) && s@ == old.results@[i as int].command@,
        new == old,
{
}

/// Cancelling ends the search with an empty command and leaves the state as
/// it was.
pub proof fn cancel_chooses_nothing(old: State, new: State, k: KeyInput, r: KeyOutcome)
    requires
        key_action(k) == KeyAction::Cancel,
        key_effect(old, new, k, r),
    ensures
        r matches KeyOutcome::Finish(s) && s@.len() == 0,
        new == old,
{
}

/// New results always leave the selection within them.
pub proof fn new_results_select_in_range(len: nat)
    ensures
        selection_for(len) matches Some(i) ==> i < len,
{
}

/// Moving up and then down comes back to the entry one started from, unless
/// it was the last entry (of a list whose length fits in `usize`).
pub proof fn up_then_down_returns(i: usize, len: nat)
    requires
        i + 1 < len,
        len <= usize::MAX,
    ensures
        can_move_up(Some(i), len),
        moved_down(moved_up(Some(i), len)) == Some(i),
{
}

/// Moving down and then up comes back to the entry one started from, unless
/// it was the first entry.
pub proof fn down_then_up_returns(i: usize, len: nat)
    requires
        0 < i < len,
    ensures
        can_move_up(moved_down(Some(i)), len),
        moved_up(moved_down(Some(i)), len) == Some(i),
{
}

/// Typing a character and then pressing Backspace gives back the query one
/// had, with the same results and selection.
pub proof fn type_then_backspace_restores_query(
    s0: State,
    s1: State,
    s2: State,
    c: char,
    typed: KeyInput,
    erased: KeyInput,
    r1: KeyOutcome,
    r2: KeyOutcome,
)
    requires
        key_action(typed) == KeyAction::InsertChar(c),
        key_action(erased) == KeyAction::DeleteChar,
        key_effect(s0, s1, typed, r1),
        key_effect(s1, s2, erased, r2),
    ensures
        s2.input@ == s0.input@,
        s2.results == s0.results,
        s2.selected == s0.selected,
        r1 is Requery && r2 is Requery,
{
    assert(s0.input@.push(c).drop_last() =~= s0.input@);
}

/// Deleting the last word of a query made of words joined by spaces leaves
/// the other words joined by spaces, when the last word holds no space.
pub proof fn delete_word_drops_last_word(words: Seq<Seq<char>>)
    requires
        words.len() >= 2,
        !words.last().contains(' '),
    ensures
        without_last_word(join_words(words)) == join_words(words.drop_last()),
{
    lemma_without_last_word_suffix(join_words(words.drop_last()), words.last());
    assert(join_words(words) == join_words(words.drop_last()) + seq![' '] + words.last());
}

/// Deleting the last word of a query that is one word leaves nothing.
pub proof fn delete_word_of_one_word(word: Seq<char>)
    requires
        !word.contains(' '),
    ensures
        without_last_word(word).len() == 0,
    decreases word.len(),
{
    if word.len() > 0 {
        assert(!word.drop_last().contains(' ')) by {
            if word.drop_last().contains(' ') {
                let j = choose|j: int| 0 <= j < word.drop_last().len() && word.drop_last()[j] == ' ';
                assert(word[j] == ' ');
            }
        }
        assert(word.last() != ' ') by {
            if word.last() == ' ' {
                assert(word[word.len() - 1] == ' ');
            }
        }
        delete_word_of_one_word(word.drop_last());
    }
}

proof fn lemma_without_last_word_suffix(a: Seq<char>, w: Seq<char>)
    requires
        !w.contains(' '),
    ensures
        without_last_word(a + seq![' '] + w) == a,
    decreases w.len(),
{
    let s = a + seq![' '] + w;
    if w.len() == 0 {
        assert(s.drop_last() =~= a);
    } else {
        assert(s.last() == w.last());
        assert(w.last() != ' ') by {
            if w.last() == ' ' {
                assert(w[w.len() - 1] == ' ');
            }
        }
        assert(!w.drop_last().contains(' ')) by {
            if w.drop_last().contains(' ') {
                let j = choose|j: int| 0 <= j < w.drop_last().len() && w.drop_last()[j] == ' ';
                assert(w[j] == ' ');
            }
        }
        assert(s.drop_last() =~= a + seq![' '] + w.drop_last());
        lemma_without_last_word_suffix(a, w.drop_last());
    }
}

/// What deleting the last word leaves is the start of the query.
pub proof fn delete_word_keeps_a_prefix(s: Seq<char>)
    ensures
        without_last_word(s).len() <= s.len(),
        without_last_word(s) == s.take(without_last_word(s).len() as int),
        s.len() > 0 ==> without_last_word(s).len() < s.len(),
    decreases s.len(),
{
    if s.len() > 0 {
        if s.last() == ' ' {
            assert(s.drop_last() =~= s.take(s.len() - 1));
        } else {
            delete_word_keeps_a_prefix(s.drop_last());
            let t = without_last_word(s.drop_last());
            assert(s.drop_last().take(t.len() as int) =~= s.take(t.len() as int));
        }
    } else {
        assert(s.take(0) =~= Seq::<char>::empty());
    }
}

/// Each entry that a filter keeps satisfies it, and every entry that
/// satisfies it is kept.
pub proof fn filter_keeps_exactly_matching(f: HistoryFilter, entries: Seq<HistoryEntry>)
    ensures
        forall|i: int|
            0 <= i < kept(f, entries).len() ==> keeps(f, #[trigger] kept(f, entries)[i]),
        forall|h: HistoryEntry|
            entries.contains(h) && keeps(f, h) ==> #[trigger] kept(f, entries).contains(h),
        kept(f, entries).len() <= entries.len(),
{
    let pred = |h: HistoryEntry| keeps(f, h);
    entries.lemma_filter_len(pred);
    assert forall|i: int| 0 <= i < entries.filter(pred).len() implies keeps(
        f,
        #[trigger] entries.filter(pred)[i],
    ) by {
        entries.lemma_filter_pred(pred, i);
    }
    assert forall|h: HistoryEntry| entries.contains(h) && keeps(f, h) implies #[trigger] entries.filter(
        pred,
    ).contains(h) by {
        let i = choose|i: int| 0 <= i < entries.len() && entries[i] == h;
        entries.lemma_filter_contains(pred, i);
    }
}

/// Filtering again with the same filter changes nothing.
pub proof fn filter_is_idempotent(f: HistoryFilter, entries: Seq<HistoryEntry>)
    ensures
        kept(f, kept(f, entries))
            == kept(f, entries),
    decreases entries.len(),
{
    let pred = |h: HistoryEntry| keeps(f, h);
    reveal_with_fuel(Seq::<_>::filter, 1);
    if entries.len() > 0 {
        filter_is_idempotent(f, entries.drop_last());
        let rest = entries.drop_last().filter(pred);
        if pred(entries.last()) {
            assert(rest.push(entries.last()).drop_last() =~= rest);
        }
    }
}

/// Filter `g` sets every option that `f` sets, to the same value (and may
/// set more).
pub open spec fn narrows(g: HistoryFilter, f: HistoryFilter) -> bool {
    &&& (f.exit is Some ==> g.exit == f.exit)
    &&& (f.exclude_exit is Some ==> g.exclude_exit == f.exclude_exit)
    &&& (f.exclude_cwd is Some ==> g.exclude_cwd == f.exclude_cwd)
    &&& (f.cwd is Some ==> g.cwd == f.cwd)
    &&& (f.before is Some ==> g.before == f.before)
    &&& (f.after is Some ==> g.after == f.after)
}

/// Adding options never adds an entry: what the narrower filter keeps, the
/// wider one keeps too, and its list is what it keeps of the wider one's
/// list (so a part of it, in the same order).
pub proof fn more_options_keep_fewer(f: HistoryFilter, g: HistoryFilter, entries: Seq<HistoryEntry>)
    requires
        narrows(g, f),
    ensures
        forall|h: HistoryEntry| keeps(g, h) ==> keeps(f, h),
        kept(g, entries) == kept(g, kept(f, entries)),
        kept(g, entries).len() <= kept(f, entries).len(),
    decreases entries.len(),
{
    reveal_with_fuel(Seq::<_>::filter, 1);
    assert forall|h: HistoryEntry| keeps(g, h) implies keeps(f, h) by {}
    if entries.len() > 0 {
        more_options_keep_fewer(f, g, entries.drop_last());
        let last = entries.last();
        let rest = kept(f, entries.drop_last());
        if keeps(f, last) {
            assert(rest.push(last).drop_last() =~= rest);
        }
    }
    kept(f, entries).lemma_filter_len(|h: HistoryEntry| keeps(g, h));
}

/// A filter with no option set keeps every entry.
pub proof fn empty_filter_keeps_all(f: HistoryFilter, entries: Seq<HistoryEntry>)
    requires
        f.exit is None,
        f.exclude_exit is None,
        f.exclude_cwd is None,
        f.cwd is None,
        f.before is None,
        f.after is None,
    ensures
        kept(f, entries) == entries,
    decreases entries.len(),
{
    reveal_with_fuel(Seq::<_>::filter, 1);
    if entries.len() > 0 {
        empty_filter_keeps_all(f, entries.drop_last());
        assert(entries.drop_last().push(entries.last()) =~= entries);
    }
}

/// Instants are ordered as times are: of two instants with whole
/// nanoseconds (below one second), one comes after the other exactly when
/// more nanoseconds have passed since the epoch.
pub proof fn later_means_more_time_passed(a: Timestamp, b: Timestamp)
    requires
        a.nanos < 1_000_000_000,
        b.nanos < 1_000_000_000,
    ensures
        a.is_after(b) <==> a.total_nanos() > b.total_nanos(),
        a.is_after(b) ==> !b.is_after(a),
        !a.is_after(b) && !b.is_after(a) ==> a == b,
{
}

/// The age shown for an entry is the time from its start to the instant the
/// list is drawn at: its seconds and nanoseconds add up to the time passed,
/// and an entry that starts later than that instant shows no age.
pub proof fn age_is_time_since_start(now: Timestamp, then: Timestamp)
    ensures
        age_parts(now, then).1 < 1_000_000_000,
        then.total_nanos() >= now.total_nanos() ==> age_parts(now, then) == (0u64, 0u32),
        then.total_nanos() <= now.total_nanos() && now.total_nanos() - then.total_nanos()
            < u64::MAX * 1_000_000_000 ==> age_parts(now, then).0 * 1_000_000_000 + age_parts(
            now,
            then,
        ).1 == now.total_nanos() - then.total_nanos(),
{
    let d = now.total_nanos() - then.total_nanos();
    if d >= 0 {
        assert(d == (d / 1_000_000_000) * 1_000_000_000 + d % 1_000_000_000) by (nonlinear_arith);
        if d < u64::MAX * 1_000_000_000 {
            assert(d / 1_000_000_000 <= u64::MAX) by (nonlinear_arith)
                requires
                    0 <= d < u64::MAX * 1_000_000_000,
            ;
        }
    }
}

/// A `before` bound keeps exactly the entries that started no later, in
/// time, than the bound; an `after` bound those that started no earlier.
pub proof fn date_bounds_follow_time(f: HistoryFilter, h: HistoryEntry, t: Timestamp)
    requires
        h.timestamp.nanos < 1_000_000_000,
        t.nanos < 1_000_000_000,
        f.exit is None,
        f.exclude_exit is None,
        f.exclude_cwd is None,
        f.cwd is None,
    ensures
        f.before == Some(Some(t)) && f.after is None ==> (keeps(f, h) <==> h.timestamp.total_nanos()
            <= t.total_nanos()),
        f.after == Some(Some(t)) && f.before is None ==> (keeps(f, h) <==> h.timestamp.total_nanos()
            >= t.total_nanos()),
{
    later_means_more_time_passed(h.timestamp, t);
    later_means_more_time_passed(t, h.timestamp);
}

/// Alt with a digit from 1 to 9 chooses the entry that many places after
/// the selected one: the digit's value, so `1` the next entry and each
/// following digit one entry further.
pub proof fn alt_digit_chooses_that_many_above(
    old: State,
    new: State,
    k: KeyInput,
    r: KeyOutcome,
    c: char,
    s: usize,
)
    requires
        k.code == KeyCode::Char(c),
        k.alt,
        '1' <= c <= '9',
        old.selected == Some(s),
        s + (c as int - '0' as int) < old.results@.len(),
        key_defined(old, k),
        key_effect(old, new, k, r),
    ensures
        r matches KeyOutcome::Finish(t) && t@ == old.results@[s + (c as int - '0' as int)].command@,
        new == old,
{
}

/// Alt-1 asks for the next entry, and the next digit always for one entry
/// further.
pub proof fn alt_digits_count_up(c: char, control: bool)
    requires
        '1' <= c < '9',
    ensures
        key_action(KeyInput { code: KeyCode::Char('1'), control, alt: true })
            == KeyAction::AcceptAbove(1),
        key_action(KeyInput { code: KeyCode::Char(c), control, alt: true }) matches KeyAction::AcceptAbove(
            d1,
        ) && key_action(KeyInput { code: KeyCode::Char(((c as u32) + 1) as char), control, alt: true })
            matches KeyAction::AcceptAbove(d2) && d2 == d1 + 1,
{
}

/// In the automatic style the screen is compact exactly on a terminal lower
/// than 14 rows, or of unknown height: a taller terminal is never compact
/// when a lower one is full. The fixed styles ignore the height.
pub proof fn compact_only_on_low_terminals(h: u16, taller: u16)
    requires
        h <= taller,
    ensures
        compact_layout(Style::Auto, Some(h)) <==> h < 14,
        compact_layout(Style::Auto, None),
        !compact_layout(Style::Auto, Some(h)) ==> !compact_layout(Style::Auto, Some(taller)),
        compact_layout(Style::Compact, Some(h)),
        !compact_layout(Style::Full, Some(h)),
{
}

} // verus!
