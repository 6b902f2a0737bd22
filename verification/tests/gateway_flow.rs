//! The request state machine driven through its scenarios, the locator,
//! and magnet normalization.

use rossoflix_api::gateway::{
    error_message, error_status, start_request, step, GatewayAction, GatewayError, GatewayEvent,
    GatewayState, OpenOutcome,
};
use rossoflix_api::locate::{find_downloaded_file, FsEntry};
use rossoflix_api::magnet::{agent_args, normalize_magnet};

fn entry(path: &str, name: &str, is_file: bool) -> FsEntry {
    FsEntry { path: path.to_owned(), name: name.to_owned(), is_file }
}

#[test]
fn empty_filename_fails_before_any_activity() {
    // No Locate, RunAgent or OpenFile action is ever issued: the very
    // first answer is the 400.
    let (s, a) = start_request("abcdef0123456789abcdef0123456789abcdef01", "");
    assert_eq!(s, GatewayState::Failed);
    assert_eq!(a, GatewayAction::Respond(GatewayError::EmptyParam));
    assert_eq!(error_status(GatewayError::EmptyParam), 400);
}

#[test]
fn empty_magnet_fails_before_any_activity() {
    let (s, a) = start_request("", "movie.mp4");
    assert_eq!(s, GatewayState::Failed);
    assert_eq!(a, GatewayAction::Respond(GatewayError::EmptyParam));
}

#[test]
fn present_file_streams_without_acquisition() {
    // The file is already on disk: lookup hits, the file opens, and at no
    // point is the agent run.
    let (s, a) = start_request("abc123", "movie.mp4");
    assert_eq!((s, a), (GatewayState::Locating, GatewayAction::Locate));
    let (s, a) = step(s, GatewayEvent::LocateDone(true));
    assert_eq!((s, a), (GatewayState::Opening, GatewayAction::OpenFile));
    let (s, a) = step(s, GatewayEvent::OpenDone(OpenOutcome::Opened));
    assert_eq!((s, a), (GatewayState::Streaming, GatewayAction::Stream));
}

#[test]
fn absent_file_acquired_then_streamed() {
    // File absent, agent exits 0 and leaves the file: one acquisition,
    // a second lookup that hits, then the stream.
    let mut agent_runs = 0;
    let (mut s, mut a) = start_request("abc123", "movie.mp4");
    assert_eq!(a, GatewayAction::Locate);
    (s, a) = step(s, GatewayEvent::LocateDone(false));
    assert_eq!((s, a), (GatewayState::Acquiring, GatewayAction::RunAgent));
    if a == GatewayAction::RunAgent {
        agent_runs += 1;
    }
    (s, a) = step(s, GatewayEvent::AgentDone(true));
    assert_eq!((s, a), (GatewayState::Relocating, GatewayAction::Locate));
    (s, a) = step(s, GatewayEvent::LocateDone(true));
    assert_eq!((s, a), (GatewayState::Opening, GatewayAction::OpenFile));
    (s, a) = step(s, GatewayEvent::OpenDone(OpenOutcome::Opened));
    assert_eq!((s, a), (GatewayState::Streaming, GatewayAction::Stream));
    assert_eq!(agent_runs, 1);
    // Without a Range header the freshly acquired file goes out whole,
    // with a 200.
    let p = rossoflix_api::range::stream_plan(1000, None);
    assert_eq!((p.status, p.start, p.length), (200, 0, 1000));
}

#[test]
fn agent_failure_is_terminal_with_500() {
    // File absent, agent exits nonzero: a 500 at once and no retry.
    let (mut s, mut a) = start_request("abc123", "movie.mp4");
    (s, a) = step(s, GatewayEvent::LocateDone(false));
    assert_eq!(a, GatewayAction::RunAgent);
    (s, a) = step(s, GatewayEvent::AgentDone(false));
    assert_eq!(s, GatewayState::Failed);
    assert_eq!(a, GatewayAction::Respond(GatewayError::AgentFailed));
    assert_eq!(error_status(GatewayError::AgentFailed), 500);
    assert_eq!(error_message(GatewayError::AgentFailed), "Download failed");
}

#[test]
fn file_missing_after_acquisition_is_distinct_500() {
    let (mut s, mut a) = start_request("abc123", "movie.mp4");
    (s, a) = step(s, GatewayEvent::LocateDone(false));
    (s, a) = step(s, GatewayEvent::AgentDone(true));
    assert_eq!((s, a), (GatewayState::Relocating, GatewayAction::Locate));
    (s, a) = step(s, GatewayEvent::LocateDone(false));
    assert_eq!(s, GatewayState::Failed);
    assert_eq!(a, GatewayAction::Respond(GatewayError::MissingAfterAcquire));
    assert_eq!(error_status(GatewayError::MissingAfterAcquire), 500);
    assert_eq!(error_message(GatewayError::MissingAfterAcquire), "File not found after download");
}

#[test]
fn vanished_file_answers_404_and_open_error_500() {
    let (mut s, mut a) = start_request("abc123", "movie.mp4");
    (s, a) = step(s, GatewayEvent::LocateDone(true));
    let (_, a1) = step(s, GatewayEvent::OpenDone(OpenOutcome::Vanished));
    assert_eq!(a1, GatewayAction::Respond(GatewayError::FileVanished));
    assert_eq!(error_status(GatewayError::FileVanished), 404);
    assert_eq!(error_message(GatewayError::FileVanished), "Video not found");
    let (s2, a2) = step(s, GatewayEvent::OpenDone(OpenOutcome::Denied));
    assert_eq!(s2, GatewayState::Failed);
    assert_eq!(a2, GatewayAction::Respond(GatewayError::OpenFailed));
    assert_eq!(error_status(GatewayError::OpenFailed), 500);
    let _ = a;
}

#[test]
fn locator_finds_file_anywhere_in_walk() {
    let entries = vec![
        entry("./downloads/other.mkv", "other.mkv", true),
        entry("./downloads/sub", "sub", false),
        entry("./downloads/sub/movie.mp4", "movie.mp4", true),
    ];
    assert_eq!(
        find_downloaded_file(&entries, "movie.mp4"),
        Some("./downloads/sub/movie.mp4".to_owned())
    );
}

#[test]
fn locator_returns_first_match() {
    let entries = vec![
        entry("./downloads/a/movie.mp4", "movie.mp4", true),
        entry("./downloads/b/movie.mp4", "movie.mp4", true),
    ];
    assert_eq!(find_downloaded_file(&entries, "movie.mp4"), Some("./downloads/a/movie.mp4".into()));
}

#[test]
fn locator_misses_directories_and_other_names() {
    let entries = vec![
        entry("./downloads/movie.mp4", "movie.mp4", false),
        entry("./downloads/Movie.mp4", "Movie.mp4", true),
        entry("./downloads/movie.mp41", "movie.mp41", true),
    ];
    assert_eq!(find_downloaded_file(&entries, "movie.mp4"), None);
    assert_eq!(find_downloaded_file(&Vec::new(), "movie.mp4"), None);
}

#[test]
fn bare_hash_is_wrapped_as_magnet_uri() {
    assert_eq!(
        normalize_magnet("abcdef0123456789abcdef0123456789abcdef01"),
        "magnet:?xt=urn:btih:abcdef0123456789abcdef0123456789abcdef01"
    );
}

#[test]
fn full_magnet_uri_is_kept() {
    let uri = "magnet:?xt=urn:btih:abcdef0123456789abcdef0123456789abcdef01&dn=movie";
    assert_eq!(normalize_magnet(uri), uri);
}

#[test]
fn agent_argument_list_exact() {
    let args = agent_args("./downloads", "movie.mp4", "abc123");
    let expected: Vec<String> = [
        "--dir",
        "./downloads",
        "--out",
        "movie.mp4",
        "--seed-time=0",
        "magnet:?xt=urn:btih:abc123",
        "--enable-dht=true",
        "--enable-peer-exchange=true",
        "--bt-tracker=udp://tracker.opentrackr.org:1337/announce,udp://open.stealth.si:80/announce,udp://tracker.cyberia.is:6969/announce",
    ]
    .iter()
    .map(|s| s.to_string())
    .collect();
    assert_eq!(args, expected);
}
