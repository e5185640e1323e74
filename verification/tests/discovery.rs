use gtnkr::game_launcher::display_discovery::parse_display_announcement;
use gtnkr::game_launcher::display_discovery::scan_lines;
use gtnkr::game_launcher::display_discovery::DiscoveryOutcome;
use gtnkr::game_launcher::display_discovery::DisplayDiscoveryTask;

fn lines(texts: &[&str]) -> Vec<String> {
    texts.iter().map(|t| String::from(*t)).collect()
}

#[test]
fn announcing_line_yields_its_display() {
    assert_eq!(parse_display_announcement("Starting Xwayland on :3"), Some(3));
    assert_eq!(
        parse_display_announcement("wlserver: Starting Xwayland on :12, pid 4711"),
        Some(12)
    );
}

#[test]
fn non_announcing_lines_yield_nothing() {
    assert_eq!(parse_display_announcement("starting"), None);
    assert_eq!(parse_display_announcement("Starting Xwayland on :"), None);
    assert_eq!(parse_display_announcement("Starting Xwayland on display 3"), None);
    assert_eq!(parse_display_announcement(""), None);
}

#[test]
fn oversized_display_number_is_no_announcement() {
    assert_eq!(
        parse_display_announcement("Starting Xwayland on :99999999999999999999"),
        None
    );
    assert_eq!(parse_display_announcement("Starting Xwayland on :4294967295"), Some(4294967295));
}

#[test]
fn scenario_b_stops_after_the_announcing_line() {
    let stream = lines(&["starting", "Starting Xwayland on :3", "ready"]);
    let (outcome, read) = scan_lines(&stream);
    assert_eq!(outcome, DiscoveryOutcome::Found(3));
    assert_eq!(read, 2);
}

#[test]
fn scenario_c_closed_stream_reports_not_found() {
    let stream = lines(&["starting", "ready"]);
    let (outcome, read) = scan_lines(&stream);
    assert_eq!(outcome, DiscoveryOutcome::NotFound);
    assert_eq!(read, 2);
}

#[test]
fn identifier_does_not_depend_on_surrounding_lines() {
    let bare = lines(&["Starting Xwayland on :7"]);
    let padded = lines(&["a", "b", "c", "Starting Xwayland on :7", "d", "e"]);
    let (bare_outcome, bare_read) = scan_lines(&bare);
    let (padded_outcome, padded_read) = scan_lines(&padded);
    assert_eq!(bare_outcome, DiscoveryOutcome::Found(7));
    assert_eq!(padded_outcome, DiscoveryOutcome::Found(7));
    assert_eq!(bare_read, 1);
    assert_eq!(padded_read, 4);
}

#[test]
fn first_announcing_line_wins() {
    let stream = lines(&["Starting Xwayland on :1", "Starting Xwayland on :2"]);
    let (outcome, read) = scan_lines(&stream);
    assert_eq!(outcome, DiscoveryOutcome::Found(1));
    assert_eq!(read, 1);
}

#[test]
fn empty_stream_reports_not_found() {
    let (outcome, read) = scan_lines(&Vec::new());
    assert_eq!(outcome, DiscoveryOutcome::NotFound);
    assert_eq!(read, 0);
}

#[test]
fn incremental_task_hands_off_exactly_one_result() {
    let mut task = DisplayDiscoveryTask::new();
    assert_eq!(task.feed_line("starting"), None);
    assert_eq!(task.feed_line("Starting Xwayland on :5"), Some(5));
    assert_eq!(task.outcome(), DiscoveryOutcome::Found(5));
}

#[test]
fn incremental_task_reports_absence_at_end_of_stream() {
    let mut task = DisplayDiscoveryTask::new();
    assert_eq!(task.feed_line("starting"), None);
    assert_eq!(task.feed_line("ready"), None);
    assert_eq!(task.end_of_stream(), DiscoveryOutcome::NotFound);
    assert_eq!(task.outcome(), DiscoveryOutcome::NotFound);
}
