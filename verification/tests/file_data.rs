use axiom_profiler::file_data::{
    choose_strategy, classify, Checkpoint, Command, Completion, FileDataComponent, FileSelection,
    Limits, LoadingState, Msg, Strategy, Update, BUFFERED_CEILING, LINES_PER_SNAPSHOT,
    STREAMING_CEILING,
};
use axiom_profiler::handle::ParseState;
use axiom_profiler::progress::{ParseProgress, ReaderState};
use std::cell::Cell;

type Pipeline = FileDataComponent<String, u32, &'static str, &'static str>;

const MIB: usize = 1024 * 1024;

fn no_search(_: &u32) -> usize {
    0
}

fn pick(name: &str, size: u64, streamable: bool) -> Msg<String, &'static str> {
    Msg::File(Some(FileSelection { name: name.to_string(), size, streamable }))
}

fn at(bytes_read: usize, lines_read: usize) -> ReaderState {
    ReaderState { bytes_read, lines_read }
}

const IDLE: Update = Update { render: false, command: Command::Nothing };
const DRAW: Update = Update { render: true, command: Command::Nothing };

#[test]
fn ceilings_and_cadence_have_their_values() {
    assert_eq!(LINES_PER_SNAPSHOT, 100_000);
    assert_eq!(STREAMING_CEILING, 1024 * MIB);
    assert_eq!(BUFFERED_CEILING, 512 * MIB);
    let l = Limits::standard();
    assert_eq!(l.ceiling(Strategy::Streaming), 1024 * MIB);
    assert_eq!(l.ceiling(Strategy::Buffered), 512 * MIB);
    let own = Limits { streaming: 7, buffered: 3 };
    assert_eq!(own.ceiling(Strategy::Streaming), 7);
    assert_eq!(own.ceiling(Strategy::Buffered), 3);
}

#[test]
fn strategy_follows_the_source() {
    assert_eq!(choose_strategy(true), Strategy::Streaming);
    assert_eq!(choose_strategy(false), Strategy::Buffered);
}

#[test]
fn classify_tells_the_three_ends_apart() {
    assert_eq!(classify(false, false), Completion::Finished);
    assert_eq!(classify(true, false), Completion::TimedOut);
    assert_eq!(classify(true, true), Completion::Cancelled);
    assert_eq!(classify(false, true), Completion::Cancelled);
}

#[test]
fn new_pipeline_is_idle() {
    let c = Pipeline::new(Limits::standard());
    assert_eq!(*c.progress(), LoadingState::NoFileSelected);
    assert!(c.file().is_none());
    assert!(!c.reader_active());
    assert!(!c.is_cancelled());
    assert_eq!(c.attempt(), 0);
    assert_eq!(c.limits(), Limits::standard());
    assert!(!c.is_live(0));
}

#[test]
fn closing_the_dialog_changes_nothing() {
    let mut c = Pipeline::new(Limits::standard());
    assert_eq!(c.update(Msg::File(None), no_search), IDLE);
    assert_eq!(*c.progress(), LoadingState::NoFileSelected);
    assert_eq!(c.attempt(), 0);
}

#[test]
fn streaming_ingest_of_two_million_lines() {
    let mut c = Pipeline::new(Limits::standard());
    let u = c.update(pick("trace.log", 40_000_000, true), no_search);
    assert_eq!(u, Update { render: true, command: Command::ParseStream(1) });
    assert_eq!(*c.progress(), LoadingState::StartParsing);

    // The parser asks before each line and once more at the end of the source.
    let mut snapshots = 0;
    let mut line = 0usize;
    let stopped_early = loop {
        let k = c.checkpoint_at(1, at(20 * line, line), 1_000 * line as u64);
        if let Some(report) = k.report {
            snapshots += 1;
            assert_eq!(report.reader.lines_read, snapshots * 100_000);
            assert_eq!(report.file_size, 40_000_000);
            assert_eq!(c.update(Msg::LoadingState(LoadingState::Parsing(report, 1)), no_search), DRAW);
            assert!(matches!(c.progress(), LoadingState::Parsing(_, 1)));
        }
        if !k.proceed {
            break true;
        }
        if line == 2_000_000 {
            break false;
        }
        line += 1;
    };
    assert_eq!(snapshots, 20);
    assert!(!stopped_early);

    let state = if stopped_early { ParseState::TimedOut } else { ParseState::Finished };
    assert_eq!(c.update(Msg::LoadedFile(1, "parsed".to_string(), state), no_search), DRAW);
    assert_eq!(*c.progress(), LoadingState::DoneParsing(false, false));
    let file = c.file().unwrap();
    assert_eq!(file.file_name(), "trace.log");
    assert_eq!(file.file_size(), 40_000_000);
    assert_eq!(file.parser_state(), ParseState::Finished);
    assert!(!file.parser_cancelled());
    assert_eq!(file.parser().parser(), "parsed");
    assert_eq!(file.parser().id(), 1);

    assert_eq!(c.update(Msg::LoadingState(LoadingState::Rendering("dot", false, false)), no_search), DRAW);
    assert_eq!(c.update(Msg::LoadingState(LoadingState::FileDisplayed), no_search), DRAW);
    assert_eq!(*c.progress(), LoadingState::FileDisplayed);
}

#[test]
fn last_progress_report_carries_the_smoothed_speed() {
    let mut c = Pipeline::new(Limits::standard());
    c.update(pick("t", 1, true), no_search);
    let first = c.checkpoint_at(1, at(1_000, 100_000), 1_000_000_000).report.unwrap();
    c.update(Msg::LoadingState(LoadingState::Parsing(first, 1)), no_search);
    assert_eq!(*c.progress(), LoadingState::Parsing(first, 1));
    let second = c.checkpoint_at(1, at(4_000, 200_000), 2_000_000_000).report.unwrap();
    c.update(Msg::LoadingState(LoadingState::Parsing(second, 1)), no_search);
    let mut expected = second;
    expected.delta(&first);
    assert_eq!(expected.speed, Some(3_000));
    assert_eq!(*c.progress(), LoadingState::Parsing(expected, 1));
    // A report that arrives out of order leaves the one before it in place.
    let stale = ParseProgress::new(at(3_999, 300_000), 1, 3_000_000_000);
    assert_eq!(c.update(Msg::LoadingState(LoadingState::Parsing(stale, 1)), no_search), DRAW);
    assert_eq!(*c.progress(), LoadingState::Parsing(expected, 1));
}

#[test]
fn report_is_due_at_full_hundred_thousands_only() {
    let mut c = Pipeline::new(Limits::standard());
    c.update(pick("t", 9, true), no_search);
    assert_eq!(c.checkpoint_at(1, at(0, 0), 5), Checkpoint { report: None, proceed: true });
    assert_eq!(c.checkpoint_at(1, at(0, 99_999), 5).report, None);
    assert_eq!(c.checkpoint_at(1, at(0, 100_001), 5).report, None);
    assert_eq!(
        c.checkpoint_at(1, at(3, 100_000), 5).report,
        Some(ParseProgress::new(at(3, 100_000), 9, 5))
    );
    assert!(c.checkpoint_at(1, at(3, 300_000), 5).report.is_some());
}

#[test]
fn buffered_ingest_stops_past_its_ceiling() {
    let mut c = Pipeline::new(Limits::standard());
    let u = c.update(pick("big.log", 600 * MIB as u64, false), no_search);
    assert_eq!(u, Update { render: true, command: Command::ReadThenParse(1) });
    assert_eq!(*c.progress(), LoadingState::ReadingToString);
    assert!(c.reader_active());
    // No parse runs yet: a parser that asked now would be told to stop.
    assert_eq!(c.checkpoint_at(1, at(0, 0), 0), Checkpoint { report: None, proceed: false });

    let text = c.text_loaded(1, b"line\n".to_vec());
    assert_eq!(text, Some("line\n".to_string()));
    assert_eq!(*c.progress(), LoadingState::StartParsing);

    assert!(c.checkpoint_at(1, at(512 * MIB - 1, 10), 0).proceed);
    assert!(c.checkpoint_at(1, at(512 * MIB, 11), 0).proceed);
    assert!(!c.checkpoint_at(1, at(512 * MIB + 1, 12), 0).proceed);
    assert!(!c.checkpoint_at(1, at(600 * MIB, 13), 0).proceed);

    assert_eq!(c.update(Msg::LoadedFile(1, "partial".to_string(), ParseState::TimedOut), no_search), DRAW);
    assert_eq!(*c.progress(), LoadingState::DoneParsing(true, false));
    assert!(!c.reader_active());
    let file = c.file().unwrap();
    assert_eq!(file.parser_state(), ParseState::TimedOut);
    assert!(file.parser_state().is_timeout());
    assert!(!file.parser_cancelled());
    assert_eq!(classify(file.parser_state().is_timeout(), file.parser_cancelled()), Completion::TimedOut);
}

#[test]
fn streaming_ingest_stops_past_one_gibibyte() {
    let mut c = Pipeline::new(Limits::standard());
    c.update(pick("s", 1, true), no_search);
    assert!(c.checkpoint_at(1, at(600 * MIB, 1), 0).proceed);
    assert!(c.checkpoint_at(1, at(1024 * MIB, 1), 0).proceed);
    assert!(!c.checkpoint_at(1, at(1024 * MIB + 1, 1), 0).proceed);
}

#[test]
fn ceilings_can_be_set() {
    let mut c = Pipeline::new(Limits { streaming: 100, buffered: 10 });
    c.update(pick("s", 1, true), no_search);
    assert!(c.checkpoint_at(1, at(100, 1), 0).proceed);
    assert!(!c.checkpoint_at(1, at(101, 1), 0).proceed);
    c.update(pick("b", 1, false), no_search);
    c.text_loaded(2, Vec::new());
    assert!(c.checkpoint_at(2, at(10, 1), 0).proceed);
    assert!(!c.checkpoint_at(2, at(11, 1), 0).proceed);
}

#[test]
fn cancellation_stops_the_parse_and_is_reported_once() {
    let mut c = Pipeline::new(Limits::standard());
    c.update(pick("t", 1, true), no_search);
    assert!(c.checkpoint_at(1, at(10, 100_000), 0).proceed);
    assert!(c.cancel(1));
    assert!(c.is_cancelled());
    assert!(c.cancel(1));
    assert!(c.is_cancelled());
    let k = c.checkpoint_at(1, at(20, 200_000), 1);
    assert!(!k.proceed);
    assert!(k.report.is_some());
    assert!(!c.checkpoint_at(1, at(0, 0), 1).proceed);

    assert_eq!(c.update(Msg::LoadedFile(1, "partial".to_string(), ParseState::TimedOut), no_search), DRAW);
    assert_eq!(*c.progress(), LoadingState::DoneParsing(true, true));
    assert!(c.file().unwrap().parser_cancelled());
    assert_eq!(classify(true, true), Completion::Cancelled);

    // The attempt is over: nothing of it counts any more.
    assert!(!c.is_live(1));
    assert_eq!(c.update(Msg::LoadedFile(1, "again".to_string(), ParseState::Finished), no_search), IDLE);
    assert_eq!(*c.progress(), LoadingState::DoneParsing(true, true));
    assert_eq!(c.file().unwrap().parser().parser(), "partial");
    assert_eq!(c.checkpoint_at(1, at(0, 100_000), 2), Checkpoint { report: None, proceed: false });
}

#[test]
fn cancel_of_an_earlier_attempt_is_dropped() {
    let mut c = Pipeline::new(Limits::standard());
    c.update(pick("a", 1, true), no_search);
    c.update(pick("b", 1, true), no_search);
    assert_eq!(c.attempt(), 2);
    assert!(!c.cancel(1));
    assert!(!c.is_cancelled());
    assert!(c.checkpoint_at(2, at(0, 1), 0).proceed);
}

#[test]
fn new_file_resets_the_cancel_flag_and_drops_the_old_file() {
    let mut c = Pipeline::new(Limits::standard());
    c.update(pick("a", 1, true), no_search);
    c.cancel(1);
    c.update(Msg::LoadedFile(1, "a".to_string(), ParseState::TimedOut), no_search);
    assert!(c.file().is_some());
    let u = c.update(pick("b", 2, true), no_search);
    assert_eq!(u, Update { render: true, command: Command::ParseStream(2) });
    assert!(c.file().is_none());
    assert!(!c.is_cancelled());
    assert_eq!(*c.progress(), LoadingState::StartParsing);
    assert!(c.checkpoint_at(2, at(0, 1), 0).proceed);
}

#[test]
fn events_of_an_earlier_attempt_are_dropped() {
    let mut c = Pipeline::new(Limits::standard());
    c.update(pick("a", 1, true), no_search);
    c.update(pick("b", 2, false), no_search);
    // The stream parser of the first attempt is told to stop, its reports
    // and its result are dropped.
    assert_eq!(c.checkpoint_at(1, at(0, 100_000), 0), Checkpoint { report: None, proceed: false });
    let stale = ParseProgress::new(at(5, 100_000), 1, 0);
    assert_eq!(c.update(Msg::LoadingState(LoadingState::Parsing(stale, 1)), no_search), IDLE);
    assert_eq!(c.update(Msg::LoadedFile(1, "a".to_string(), ParseState::Finished), no_search), IDLE);
    assert_eq!(c.update(Msg::ParseFailed(1), no_search), IDLE);
    assert_eq!(c.text_loaded(1, b"x".to_vec()), None);
    assert_eq!(*c.progress(), LoadingState::ReadingToString);
    assert!(c.file().is_none());
    assert!(c.reader_active());
}

#[test]
fn bytes_that_are_not_utf8_fail_the_attempt() {
    let mut c = Pipeline::new(Limits::standard());
    c.update(pick("bad.log", 3, false), no_search);
    assert_eq!(c.text_loaded(1, vec![0x66, 0xff, 0x6f]), None);
    assert_eq!(*c.progress(), LoadingState::ParseFailed);
    assert!(!c.reader_active());
    assert!(c.file().is_none());
    // Nothing of the attempt counts after that.
    assert!(!c.is_live(1));
    assert_eq!(c.update(Msg::LoadedFile(1, "x".to_string(), ParseState::Finished), no_search), IDLE);
    assert_eq!(c.update(Msg::LoadingState(LoadingState::FileDisplayed), no_search), IDLE);
    assert_eq!(*c.progress(), LoadingState::ParseFailed);
    assert_eq!(c.text_loaded(1, b"ok".to_vec()), None);
}

#[test]
fn text_is_decoded_from_utf8() {
    let mut c = Pipeline::new(Limits::standard());
    c.update(pick("t", 3, false), no_search);
    let bytes = "[mk-app] #1 \u{2200}x \u{1F600}\n".as_bytes().to_vec();
    let text = c.text_loaded(1, bytes);
    assert_eq!(text.as_deref(), Some("[mk-app] #1 \u{2200}x \u{1F600}\n"));
    assert_eq!(*c.progress(), LoadingState::StartParsing);
    // The text was handed over; a second delivery is not waited for.
    assert_eq!(c.text_loaded(1, b"x".to_vec()), None);
}

#[test]
fn text_for_a_streaming_attempt_is_dropped() {
    let mut c = Pipeline::new(Limits::standard());
    c.update(pick("t", 3, true), no_search);
    assert_eq!(c.text_loaded(1, b"x".to_vec()), None);
    assert_eq!(*c.progress(), LoadingState::StartParsing);
}

#[test]
fn decoding_failure_of_a_stream_fails_the_attempt() {
    let mut c = Pipeline::new(Limits::standard());
    c.update(pick("t", 3, true), no_search);
    assert_eq!(c.update(Msg::ParseFailed(1), no_search), DRAW);
    assert_eq!(*c.progress(), LoadingState::ParseFailed);
    assert!(c.file().is_none());
    assert_eq!(c.update(Msg::ParseFailed(1), no_search), IDLE);
}

#[test]
fn states_the_pipeline_enters_itself_are_not_taken_from_outside() {
    let mut c = Pipeline::new(Limits::standard());
    c.update(pick("t", 3, true), no_search);
    for state in [
        LoadingState::NoFileSelected,
        LoadingState::ReadingToString,
        LoadingState::StartParsing,
        LoadingState::DoneParsing(false, false),
        LoadingState::ParseFailed,
        LoadingState::Rendering("dot", false, false),
        LoadingState::FileDisplayed,
    ] {
        assert_eq!(c.update(Msg::LoadingState(state), no_search), IDLE);
        assert_eq!(*c.progress(), LoadingState::StartParsing);
    }
    c.update(Msg::LoadedFile(1, "p".to_string(), ParseState::Finished), no_search);
    let report = ParseProgress::new(at(1, 100_000), 3, 0);
    assert_eq!(c.update(Msg::LoadingState(LoadingState::Parsing(report, 1)), no_search), IDLE);
    assert_eq!(*c.progress(), LoadingState::DoneParsing(false, false));
    assert_eq!(c.update(Msg::LoadingState(LoadingState::FileDisplayed), no_search), DRAW);
    assert_eq!(c.update(Msg::LoadingState(LoadingState::Rendering("svg", false, false)), no_search), DRAW);
    assert_eq!(*c.progress(), LoadingState::Rendering("svg", false, false));
}

#[test]
fn selected_insts_need_an_opened_file() {
    let mut c = Pipeline::new(Limits::standard());
    assert_eq!(c.update(Msg::SelectedInsts(vec![(1, None)]), no_search), IDLE);
    c.update(pick("t", 3, true), no_search);
    assert_eq!(c.update(Msg::SelectedInsts(vec![(1, None)]), no_search), IDLE);
    c.update(Msg::LoadedFile(1, "p".to_string(), ParseState::Finished), no_search);
    assert!(c.file().unwrap().selected_insts().is_empty());
    assert_eq!(c.update(Msg::SelectedInsts(vec![(1, None), (2, Some(5))]), no_search), DRAW);
    assert_eq!(c.file().unwrap().selected_insts(), &vec![(1, None), (2, Some(5))]);
    assert_eq!(*c.progress(), LoadingState::DoneParsing(false, false));
}

#[test]
fn search_needs_a_graph() {
    let mut c = Pipeline::new(Limits::standard());
    let count_of = |g: &u32| *g as usize + 1;
    assert_eq!(c.update(Msg::SearchMatchingLoops, count_of), IDLE);
    c.update(pick("t", 3, true), no_search);
    c.update(Msg::LoadedFile(1, "p".to_string(), ParseState::Finished), no_search);
    assert_eq!(c.update(Msg::SearchMatchingLoops, count_of), IDLE);
    assert_eq!(c.file().unwrap().parser().matching_loop_count(), None);

    assert_eq!(c.file().unwrap().parser().graph(), None);
    let built = *c.ensure_graph(|p: &String| p.len() as u32 + 40).unwrap();
    assert_eq!(built, 41);
    assert_eq!(c.update(Msg::SearchMatchingLoops, count_of), DRAW);
    assert_eq!(c.file().unwrap().parser().matching_loop_count(), Some(42));
    assert_eq!(c.update(Msg::SearchMatchingLoops, count_of), DRAW);
    assert_eq!(c.file().unwrap().parser().matching_loop_count(), Some(42));
    assert_eq!(c.file().unwrap().parser().graph(), Some(&41));
}

#[test]
fn attempt_numbers_count_up() {
    let mut c = Pipeline::new(Limits::standard());
    for n in 1..=5u64 {
        let u = c.update(pick("t", 3, n % 2 == 0), no_search);
        assert_eq!(c.attempt(), n);
        let expected = if n % 2 == 0 { Command::ParseStream(n) } else { Command::ReadThenParse(n) };
        assert_eq!(u.command, expected);
        assert!(u.render);
    }
}

#[test]
fn checkpoint_reads_the_clock_where_a_report_is_due() {
    let reads = Cell::new(0u64);
    let clock = || {
        reads.set(reads.get() + 1);
        1_000 * reads.get()
    };
    let mut c = Pipeline::new(Limits::standard());
    c.update(pick("t", 9, true), no_search);
    assert_eq!(c.checkpoint(1, at(0, 0), clock), Checkpoint { report: None, proceed: true });
    assert_eq!(c.checkpoint(1, at(7, 100_001), clock), Checkpoint { report: None, proceed: true });
    assert_eq!(reads.get(), 0);
    assert_eq!(
        c.checkpoint(1, at(8, 200_000), clock),
        Checkpoint { report: Some(ParseProgress::new(at(8, 200_000), 9, 1_000)), proceed: true }
    );
    assert_eq!(reads.get(), 1);
    assert_eq!(
        c.checkpoint(1, at(9, 300_000), clock).report,
        Some(ParseProgress::new(at(9, 300_000), 9, 2_000))
    );
    // Another attempt is told to stop, and the clock is not read for it.
    assert_eq!(c.checkpoint(2, at(9, 300_000), clock), Checkpoint { report: None, proceed: false });
    assert_eq!(reads.get(), 2);
    assert!(!c.checkpoint(1, at(STREAMING_CEILING + 1, 300_001), clock).proceed);
    assert_eq!(reads.get(), 2);
}

#[test]
fn graph_of_the_opened_file_is_built_once() {
    let mut c = Pipeline::new(Limits::standard());
    assert_eq!(c.ensure_graph(|_: &String| 1), None);
    c.update(pick("t", 3, true), no_search);
    assert_eq!(c.ensure_graph(|_: &String| 1), None);
    c.update(Msg::LoadedFile(1, "abc".to_string(), ParseState::Finished), no_search);
    assert_eq!(c.ensure_graph(|p: &String| p.len() as u32), Some(&3));
    assert_eq!(c.ensure_graph(|_: &String| 99), Some(&3));
    assert!(c.file().unwrap().parser().graph_loaded());
    assert_eq!(*c.progress(), LoadingState::DoneParsing(false, false));
    // A newly picked file has no graph.
    c.update(pick("u", 3, true), no_search);
    c.update(Msg::LoadedFile(2, "abcd".to_string(), ParseState::Finished), no_search);
    assert_eq!(c.file().unwrap().parser().graph(), None);
    assert_eq!(c.file().unwrap().parser().id(), 2);
}

#[test]
fn messages_for_the_view_wait_for_a_subscriber() {
    let mut c = Pipeline::new(Limits::standard());
    assert_eq!(c.send_update("lost"), Err("lost"));
    assert_eq!(c.send_updates(vec!["a", "b"]), Err(vec!["a", "b"]));
    assert_eq!(c.connect(), None);
    c.update(pick("t", 3, true), no_search);
    c.update(Msg::LoadedFile(1, "p".to_string(), ParseState::Finished), no_search);
    assert_eq!(c.send_update("one"), Ok(None));
    assert_eq!(c.send_updates(vec!["two", "three"]), Ok(vec![]));
    assert_eq!(c.connect(), Some(vec!["one", "two", "three"]));
    assert_eq!(c.send_update("four"), Ok(Some("four")));
    assert_eq!(c.send_updates(vec!["five", "six"]), Ok(vec!["five", "six"]));
    assert_eq!(c.connect(), Some(vec![]));
}
