use atuin_search::clock::{age, age_text, run_time, run_time_text};
use atuin_search::date_text::is_safe_date_text;
use atuin_search::filter::{is_date_base, names_current_dir, HistoryFilter};
use atuin_search::history::{HistoryEntry, Timestamp};
use atuin_search::layout::{cursor_position, use_compact, Style};
use atuin_search::state::{KeyCode, KeyInput, KeyOutcome, QueryRequest, State, RESULT_LIMIT};
use atuin_search::text::{drop_last_word, flatten_whitespace, join_with_spaces, short_duration};

const SEC: i64 = 1_000_000_000;

fn entry(command: &str, secs: i64, duration: i64, exit: i64, cwd: &str) -> HistoryEntry {
    HistoryEntry {
        id: format!("id-{}", command),
        timestamp: Timestamp { secs, nanos: 0 },
        duration,
        exit,
        command: command.to_string(),
        cwd: cwd.to_string(),
        session: "session".to_string(),
        hostname: "host:user".to_string(),
    }
}

fn key(code: KeyCode) -> KeyInput {
    KeyInput { code, control: false, alt: false }
}

fn ctrl(c: char) -> KeyInput {
    KeyInput { code: KeyCode::Char(c), control: true, alt: false }
}

fn alt(c: char) -> KeyInput {
    KeyInput { code: KeyCode::Char(c), control: false, alt: true }
}

fn state_with(input: &str, commands: &[&str]) -> State {
    let mut st = State::new(&vec![input.to_string()]);
    let results = commands.iter().map(|c| entry(c, 1_000, 0, 0, "/")).collect();
    st.set_results(results);
    st
}

fn finished(r: KeyOutcome) -> Option<String> {
    match r {
        KeyOutcome::Finish(s) => Some(s),
        _ => None,
    }
}

#[test]
fn new_state_joins_query_words() {
    let st = State::new(&vec!["git".to_string(), "commit".to_string(), "-m".to_string()]);
    assert_eq!(st.input, "git commit -m");
    assert!(st.results.is_empty());
    assert_eq!(st.selected, None);
    assert_eq!(State::new(&vec![]).input, "");
}

#[test]
fn join_with_spaces_keeps_empty_words() {
    let words = vec!["a".to_string(), "".to_string(), "b".to_string()];
    assert_eq!(join_with_spaces(&words), "a  b");
}

#[test]
fn new_results_select_the_first() {
    let mut st = State::new(&vec![]);
    st.set_results(vec![entry("ls", 1, 0, 0, "/")]);
    assert_eq!(st.selected, Some(0));
    st.set_results(vec![]);
    assert_eq!(st.selected, None);
}

#[test]
fn empty_query_lists_latest_commands() {
    let st = State::new(&vec![]);
    match st.query_request() {
        QueryRequest::List { max, unique } => {
            assert_eq!(max, RESULT_LIMIT);
            assert_eq!(max, 200);
            assert!(unique);
        },
        _ => panic!("expected a listing"),
    }
}

#[test]
fn query_searches_for_input() {
    let st = State::new(&vec!["cargo".to_string()]);
    match st.query_request() {
        QueryRequest::Search { limit, query } => {
            assert_eq!(limit, 200);
            assert_eq!(query, "cargo");
        },
        _ => panic!("expected a search"),
    }
}

#[test]
fn escape_and_control_keys_cancel() {
    for k in [key(KeyCode::Esc), ctrl('c'), ctrl('d'), ctrl('g')] {
        let mut st = state_with("ls", &["ls -la"]);
        assert_eq!(finished(st.handle_key(&k)), Some(String::new()));
        assert_eq!(st.input, "ls");
    }
}

#[test]
fn enter_chooses_selected_command() {
    let mut st = state_with("git", &["git status", "git log", "git push"]);
    st.handle_key(&key(KeyCode::Up));
    assert_eq!(st.selected, Some(1));
    assert_eq!(finished(st.handle_key(&key(KeyCode::Enter))), Some("git log".to_string()));
}

#[test]
fn enter_without_results_gives_query() {
    let mut st = state_with("no such command", &[]);
    assert_eq!(
        finished(st.handle_key(&key(KeyCode::Enter))),
        Some("no such command".to_string())
    );
}

#[test]
fn up_stops_at_last_entry() {
    let mut st = state_with("", &["a", "b", "c"]);
    for _ in 0..5 {
        assert!(matches!(st.handle_key(&ctrl('p')), KeyOutcome::Continue));
    }
    assert_eq!(st.selected, Some(2));
}

#[test]
fn down_stops_at_first_entry() {
    let mut st = state_with("", &["a", "b", "c"]);
    st.handle_key(&key(KeyCode::Up));
    st.handle_key(&key(KeyCode::Up));
    st.handle_key(&key(KeyCode::Down));
    assert_eq!(st.selected, Some(1));
    st.handle_key(&ctrl('n'));
    st.handle_key(&ctrl('n'));
    assert_eq!(st.selected, Some(0));
}

#[test]
fn down_and_up_without_selection_select_first() {
    let mut st = State::new(&vec![]);
    st.down();
    assert_eq!(st.selected, Some(0));
    let mut st = state_with("", &["a"]);
    st.selected = None;
    st.up();
    assert_eq!(st.selected, Some(0));
}

#[test]
fn alt_digit_chooses_entry_above_selection() {
    let mut st = state_with("x", &["a", "b", "c", "d"]);
    st.handle_key(&key(KeyCode::Up));
    assert_eq!(finished(st.handle_key(&alt('2'))), Some("d".to_string()));
    assert_eq!(finished(st.handle_key(&alt('9'))), Some("x".to_string()));
}

#[test]
fn alt_digit_without_selection_does_nothing() {
    let mut st = state_with("x", &[]);
    assert!(matches!(st.handle_key(&alt('1')), KeyOutcome::Continue));
    assert_eq!(st.input, "x");
}

#[test]
fn typing_asks_again() {
    let mut st = state_with("gi", &["git"]);
    assert!(matches!(st.handle_key(&key(KeyCode::Char('t'))), KeyOutcome::Requery));
    assert_eq!(st.input, "git");
    // Control with another letter types the letter.
    assert!(matches!(st.handle_key(&ctrl('a')), KeyOutcome::Requery));
    assert_eq!(st.input, "gita");
}

#[test]
fn backspace_deletes_last_character() {
    let mut st = state_with("ab", &[]);
    assert!(matches!(st.handle_key(&key(KeyCode::Backspace)), KeyOutcome::Requery));
    assert_eq!(st.input, "a");
    st.handle_key(&key(KeyCode::Backspace));
    st.handle_key(&key(KeyCode::Backspace));
    assert_eq!(st.input, "");
}

#[test]
fn type_then_backspace_restores() {
    let mut st = state_with("cargo tes", &["cargo test"]);
    st.handle_key(&key(KeyCode::Char('é')));
    st.handle_key(&key(KeyCode::Backspace));
    assert_eq!(st.input, "cargo tes");
    assert_eq!(st.selected, Some(0));
}

#[test]
fn alt_backspace_deletes_last_word() {
    let mut st = state_with("git commit -m", &[]);
    assert!(matches!(st.handle_key(&alt('\u{7f}')), KeyOutcome::Requery));
    assert_eq!(st.input, "git commit");
    st.handle_key(&alt('\u{7f}'));
    assert_eq!(st.input, "git");
    st.handle_key(&alt('\u{7f}'));
    assert_eq!(st.input, "");
}

#[test]
fn control_u_clears_query() {
    let mut st = state_with("ls -la", &[]);
    assert!(matches!(st.handle_key(&ctrl('u')), KeyOutcome::Requery));
    assert_eq!(st.input, "");
}

#[test]
fn other_keys_are_ignored() {
    let mut st = state_with("ls", &["ls"]);
    assert!(matches!(st.handle_key(&key(KeyCode::Other)), KeyOutcome::Continue));
    assert_eq!(st.input, "ls");
    assert_eq!(st.selected, Some(0));
}

#[test]
fn drop_last_word_cases() {
    assert_eq!(drop_last_word("a b c"), "a b");
    assert_eq!(drop_last_word("a b "), "a b");
    assert_eq!(drop_last_word("abc"), "");
    assert_eq!(drop_last_word(""), "");
    assert_eq!(drop_last_word(" "), "");
}

#[test]
fn short_duration_shortens_units() {
    assert_eq!(short_duration("2days 3h 1m"), "2d");
    assert_eq!(short_duration("1day 2h"), "1d");
    assert_eq!(short_duration("3weeks"), "3w");
    assert_eq!(short_duration("1week"), "1w");
    assert_eq!(short_duration("4months 2days"), "4mo");
    assert_eq!(short_duration("1month"), "1mo");
    assert_eq!(short_duration("2years 1month"), "2y");
    assert_eq!(short_duration("1year"), "1y");
    assert_eq!(short_duration("2h 37m"), "2h");
    assert_eq!(short_duration("32ms"), "32ms");
}

#[test]
fn run_time_splits_whole_milliseconds() {
    assert_eq!(run_time(1_500_123_456), (1, 500_000_000));
    assert_eq!(run_time(999_999), (0, 0));
    assert_eq!(run_time(-1), (0, 0));
}

#[test]
fn run_time_text_uses_humantime() {
    assert_eq!(run_time_text(1_500_000_000), "1s");
    assert_eq!(run_time_text(32_000_000), "32ms");
    assert_eq!(run_time_text(-1), "0s");
    assert_eq!(run_time_text(172_800 * SEC), "2d");
    assert_eq!(run_time_text(2_630_016 * SEC), "1mo");
    assert_eq!(run_time_text(31_557_600 * SEC), "1y");
    assert_eq!(run_time_text(9420 * SEC), "2h");
}

#[test]
fn age_counts_from_then_to_now() {
    let now = Timestamp { secs: 1_000, nanos: 500 };
    assert_eq!(age(now, Timestamp { secs: 700, nanos: 0 }), (300, 500));
    assert_eq!(age(now, Timestamp { secs: 999, nanos: 900 }), (0, 999_999_600));
    assert_eq!(age(now, Timestamp { secs: 2_000, nanos: 0 }), (0, 0));
}

#[test]
fn age_text_of_past_and_future() {
    let now = Timestamp { secs: 1_000_000, nanos: 0 };
    assert_eq!(age_text(now, Timestamp { secs: 1_000_000 - 300, nanos: 0 }), "5m ago");
    assert_eq!(age_text(now, Timestamp { secs: 1_000_000 - 3 * 86_400, nanos: 0 }), "3d ago");
    assert_eq!(age_text(now, Timestamp { secs: 2_000_000, nanos: 0 }), "0s ago");
}

#[test]
fn durations_pair_run_time_and_age() {
    let mut st = State::new(&vec![]);
    st.set_results(vec![entry("ls", 940, 2 * SEC, 0, "/"), entry("make", 1_000, 0, 0, "/")]);
    let d = st.durations_at(Timestamp { secs: 1_000, nanos: 0 });
    assert_eq!(d, vec![("2s".to_string(), "1m ago".to_string()), ("0s".to_string(), "0s ago".to_string())]);
    assert_eq!(st.durations().unwrap().len(), 2);
}

#[test]
fn rows_align_and_label() {
    let mut st = State::new(&vec![]);
    st.set_results(vec![
        entry("ls\t-la", 940, 2 * SEC, 0, "/"),
        entry("false", 1_000 - 3 * 86_400, 125 * SEC, 1, "/"),
        entry("echo a\necho b", 1_000, -1, 3, "/"),
    ]);
    st.up();
    let rows = st.render_rows_at(Timestamp { secs: 1_000, nanos: 0 });
    assert_eq!(rows.len(), 3);
    let widths: Vec<usize> = rows.iter().map(|r| r.run_time.len() + r.age.len()).collect();
    assert_eq!(widths, vec![8, 8, 8]);
    assert_eq!(rows[0].run_time, "2s");
    assert_eq!(rows[0].age, "1m ago");
    assert_eq!(rows[1].run_time, "2m");
    assert_eq!(rows[1].age, "3d ago");
    assert_eq!(rows[2].run_time, "0s");
    assert_eq!(rows[2].age, "0s ago");
    assert_eq!(rows[0].command, "ls -la");
    assert_eq!(rows[2].command, "echo a echo b");
    assert_eq!(rows[0].offset_label, "   ");
    assert_eq!(rows[1].offset_label, "   ");
    assert_eq!(rows[2].offset_label, " 1 ");
    assert!(rows[1].highlighted && !rows[0].highlighted && !rows[2].highlighted);
    assert!(rows[0].succeeded && !rows[1].succeeded && rows[2].succeeded);
    assert_eq!(st.render_rows().unwrap().len(), 3);
}

#[test]
fn rows_pad_shorter_ages() {
    let mut st = State::new(&vec![]);
    st.set_results(vec![entry("a", 1_000, 0, 0, "/"), entry("b", 1_000 - 2 * 86_400, 3_600 * SEC, 0, "/")]);
    let rows = st.render_rows_at(Timestamp { secs: 1_000, nanos: 0 });
    assert_eq!(rows[0].run_time, "0s");
    assert_eq!(rows[0].age, "0s ago");
    assert_eq!(rows[1].run_time, "1h");
    assert_eq!(rows[1].age, "2d ago");
    let mut st = State::new(&vec![]);
    st.set_results(vec![entry("a", 1_000, 0, 0, "/"), entry("b", 1_000 - 2 * 86_400, 45 * 60 * SEC, 0, "/")]);
    let rows = st.render_rows_at(Timestamp { secs: 1_000, nanos: 0 });
    assert_eq!(rows[0].age, " 0s ago");
    assert_eq!(rows[1].run_time, "45m");
    assert_eq!(rows[1].age, "2d ago");
}

#[test]
fn offset_labels_stop_at_nine() {
    let commands: Vec<String> = (0..12).map(|i| format!("cmd{}", i)).collect();
    let refs: Vec<&str> = commands.iter().map(|s| s.as_str()).collect();
    let st = state_with("", &refs);
    let rows = st.render_rows_at(Timestamp { secs: 1_000, nanos: 0 });
    assert_eq!(rows[0].offset_label, "   ");
    assert_eq!(rows[1].offset_label, " 1 ");
    assert_eq!(rows[9].offset_label, " 9 ");
    assert_eq!(rows[10].offset_label, "   ");
}

#[test]
fn flatten_whitespace_replaces_newlines_and_tabs() {
    assert_eq!(flatten_whitespace("a\nb\tc d"), "a b c d");
}

#[test]
fn compact_layout_choice() {
    assert!(use_compact(Style::Auto, Some(13)));
    assert!(!use_compact(Style::Auto, Some(14)));
    assert!(use_compact(Style::Auto, None));
    assert!(use_compact(Style::Compact, Some(50)));
    assert!(!use_compact(Style::Full, Some(5)));
}

#[test]
fn cursor_goes_after_query() {
    let st = State::new(&vec!["abc".to_string()]);
    assert_eq!(st.input_cursor(1, 5, false), Some((5, 6)));
    assert_eq!(st.input_cursor(1, 5, true), Some((6, 6)));
    assert_eq!(cursor_position(0, 0, 3, true), (5, 1));
    assert_eq!(cursor_position(0, 0, 3, false), (4, 1));
}

#[test]
fn cursor_counts_wide_characters() {
    let st = State::new(&vec!["日本".to_string()]);
    assert_eq!(st.input_cursor(0, 0, false), Some((5, 1)));
}

#[test]
fn cursor_past_u16_is_none() {
    let st = State::new(&vec!["abc".to_string()]);
    assert_eq!(st.input_cursor(65_533, 0, false), None);
    assert_eq!(st.input_cursor(0, 65_535, false), None);
    assert_eq!(st.input_cursor(0, 65_535, true), None);
}

#[test]
fn compact_prompt_prefixes_query() {
    let st = State::new(&vec!["ls".to_string()]);
    assert_eq!(st.compact_prompt(), "] ls");
}

fn no_filter() -> HistoryFilter {
    HistoryFilter { exit: None, exclude_exit: None, exclude_cwd: None, cwd: None, before: None, after: None }
}

fn sample() -> Vec<HistoryEntry> {
    vec![
        entry("ok", 100, 0, 0, "/home"),
        entry("fail", 200, 0, 1, "/tmp"),
        entry("again", 300, 0, 0, "/tmp"),
    ]
}

fn commands(v: &[HistoryEntry]) -> Vec<&str> {
    v.iter().map(|h| h.command.as_str()).collect()
}

#[test]
fn empty_filter_keeps_everything() {
    let kept = no_filter().apply(&sample());
    assert_eq!(kept, sample());
}

#[test]
fn filter_by_exit() {
    let f = HistoryFilter { exit: Some(0), ..no_filter() };
    assert_eq!(commands(&f.apply(&sample())), vec!["ok", "again"]);
    let f = HistoryFilter { exclude_exit: Some(0), ..no_filter() };
    assert_eq!(commands(&f.apply(&sample())), vec!["fail"]);
}

#[test]
fn filter_by_directory() {
    let f = HistoryFilter { cwd: Some("/tmp".to_string()), ..no_filter() };
    assert_eq!(commands(&f.apply(&sample())), vec!["fail", "again"]);
    let f = HistoryFilter { exclude_cwd: Some("/tmp".to_string()), ..no_filter() };
    assert_eq!(commands(&f.apply(&sample())), vec!["ok"]);
}

#[test]
fn filter_by_dates() {
    let f = HistoryFilter { before: Some(Some(Timestamp { secs: 200, nanos: 0 })), ..no_filter() };
    assert_eq!(commands(&f.apply(&sample())), vec!["ok", "fail"]);
    let f = HistoryFilter { after: Some(Some(Timestamp { secs: 200, nanos: 0 })), ..no_filter() };
    assert_eq!(commands(&f.apply(&sample())), vec!["fail", "again"]);
    let f = HistoryFilter { before: Some(Some(Timestamp { secs: 199, nanos: 999 })), ..no_filter() };
    assert_eq!(commands(&f.apply(&sample())), vec!["ok"]);
}

#[test]
fn unreadable_date_keeps_nothing() {
    let f = HistoryFilter { before: Some(None), ..no_filter() };
    assert!(f.apply(&sample()).is_empty());
    let f = HistoryFilter { after: Some(None), ..no_filter() };
    assert!(f.apply(&sample()).is_empty());
}

#[test]
fn filter_applied_twice_is_the_same() {
    let f = HistoryFilter { exit: Some(0), cwd: Some("/tmp".to_string()), ..no_filter() };
    let once = f.apply(&sample());
    assert_eq!(f.apply(&once), once);
    assert_eq!(commands(&once), vec!["again"]);
}

#[test]
fn from_options_reads_dates() {
    let f = HistoryFilter::from_options(
        Some(0),
        None,
        None,
        Some("/tmp".to_string()),
        Some("2021-01-02".to_string()),
        Some("not a date at all".to_string()),
    )
    .expect("the clock reads a usable instant");
    assert_eq!(f.exit, Some(0));
    assert_eq!(f.cwd, Some("/tmp".to_string()));
    match f.before {
        Some(Some(t)) => assert_eq!(t.secs / 86_400, 18_629),
        other => panic!("expected a date, got {:?}", other),
    }
    assert_eq!(f.after, Some(None));
    let f = HistoryFilter::from_options(None, None, None, None, None, None).unwrap();
    assert_eq!(f.before, None);
    assert_eq!(f.after, None);
}

#[test]
fn from_options_at_reads_relative_to_given_instant() {
    let now = Timestamp { secs: 1_600_000_000, nanos: 0 };
    let f = HistoryFilter::from_options_at(
        None,
        Some(1),
        Some("/".to_string()),
        None,
        Some("yesterday".to_string()),
        Some("3 days ago".to_string()),
        now,
    );
    assert_eq!(f.exclude_exit, Some(1));
    assert_eq!(f.exclude_cwd, Some("/".to_string()));
    assert_eq!(f.before, Some(Some(Timestamp { secs: 1_600_000_000 - 86_400, nanos: 0 })));
    assert_eq!(f.after, Some(Some(Timestamp { secs: 1_600_000_000 - 3 * 86_400, nanos: 0 })));
}

#[test]
fn safe_date_texts() {
    assert!(is_safe_date_text("3 days ago"));
    assert!(is_safe_date_text("9999 weeks"));
    assert!(is_safe_date_text("2021-01-02 10:30"));
    assert!(is_safe_date_text("12:30:00.5"));
    assert!(is_safe_date_text("12345"));
    assert!(is_safe_date_text("1700000000"));
    assert!(is_safe_date_text("next friday"));
    assert!(is_safe_date_text("abcé"));
    assert!(is_safe_date_text(""));
    assert!(!is_safe_date_text("2000000000 weeks ago"));
    assert!(!is_safe_date_text("12345days"));
    assert!(!is_safe_date_text("12:30+99999"));
    assert!(!is_safe_date_text("99999:00pm"));
    assert!(!is_safe_date_text("12:30:00.x"));
    assert!(!is_safe_date_text("12:30:00. 5"));
    assert!(!is_safe_date_text("5 é"));
    assert!(!is_safe_date_text("été"));
}

#[test]
fn long_numbers_read_as_years_or_nothing() {
    let now = Timestamp { secs: 1_600_000_000, nanos: 0 };
    let f = HistoryFilter::from_options_at(
        None,
        None,
        None,
        None,
        Some("12345".to_string()),
        Some("1700000000".to_string()),
        now,
    );
    assert!(matches!(f.before, Some(Some(t)) if t.secs > 300_000_000_000));
    assert_eq!(f.after, Some(None));
}

#[test]
fn date_base_range() {
    assert!(is_date_base(Timestamp { secs: 1_600_000_000, nanos: 0 }));
    assert!(!is_date_base(Timestamp { secs: 9_000_000_000_000, nanos: 0 }));
    assert!(!is_date_base(Timestamp { secs: 0, nanos: 1_000_000_000 }));
}

#[test]
fn dot_names_current_dir() {
    assert!(names_current_dir("."));
    assert!(!names_current_dir("./"));
    assert!(!names_current_dir(""));
}

#[test]
fn duplicate_copies_entry() {
    let h = entry("ls", 5, 7, 1, "/");
    assert_eq!(h.duplicate(), h);
}

#[test]
fn later_than_orders_by_second_then_nanos() {
    let a = Timestamp { secs: 5, nanos: 10 };
    assert!(a.later_than(&Timestamp { secs: 5, nanos: 9 }));
    assert!(a.later_than(&Timestamp { secs: 4, nanos: 999_999_999 }));
    assert!(!a.later_than(&a));
}
