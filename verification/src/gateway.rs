//! The orchestrator of a streaming request, as a state machine: locate the
//! file, acquire it through the download agent if absent, re-locate, open,
//! stream. The surrounding server performs each action and feeds the
//! outcome back as an event; every decision is made here.
//!
//! Each request drives a machine of its own: two concurrent requests for
//! the same absent filename each trigger their own acquisition. That race
//! is a known, accepted limitation — acquisitions are not de-duplicated
//! across requests.

use vstd::prelude::*;
use vstd::string::StringExecFns;

verus! {

/// Why a request ends without a stream.
#[derive(Clone, Copy, Debug, PartialEq, Eq, Structural)]
pub enum GatewayError {
    /// The `magnet` or `filename` parameter is empty.
    EmptyParam,
    /// The download agent exited with a failure code.
    AgentFailed,
    /// The agent reported success, yet the file is still absent.
    MissingAfterAcquire,
    /// The located file vanished before it could be opened.
    FileVanished,
    /// The located file could not be opened.
    OpenFailed,
}

/// The HTTP status code of each terminal error.
pub fn error_status(e: GatewayError) -> (r: u16)
    ensures
        e == GatewayError::EmptyParam ==> r == 400,
        e == GatewayError::FileVanished ==> r == 404,
        e == GatewayError::AgentFailed || e == GatewayError::MissingAfterAcquire || e
            == GatewayError::OpenFailed ==> r == 500,
{
    match e {
        GatewayError::EmptyParam => 400,
        GatewayError::AgentFailed => 500,
        GatewayError::MissingAfterAcquire => 500,
        GatewayError::FileVanished => 404,
        GatewayError::OpenFailed => 500,
    }
}

/// The body text of each terminal error.
pub fn error_message(e: GatewayError) -> (r: String)
    ensures
        e == GatewayError::EmptyParam ==> r@ == "magnet and filename must not be empty"@,
        e == GatewayError::AgentFailed ==> r@ == "Download failed"@,
        e == GatewayError::MissingAfterAcquire ==> r@ == "File not found after download"@,
        e == GatewayError::FileVanished ==> r@ == "Video not found"@,
        e == GatewayError::OpenFailed ==> r@ == "Failed to open video file"@,
{
    match e {
        GatewayError::EmptyParam => String::from_str("magnet and filename must not be empty"),
        GatewayError::AgentFailed => String::from_str("Download failed"),
        GatewayError::MissingAfterAcquire => String::from_str("File not found after download"),
        GatewayError::FileVanished => String::from_str("Video not found"),
        GatewayError::OpenFailed => String::from_str("Failed to open video file"),
    }
}

/// Where a request stands.
#[derive(Clone, Copy, Debug, PartialEq, Eq, Structural)]
pub enum GatewayState {
    /// Waiting for the first lookup under the storage root.
    Locating,
    /// Waiting for the download agent to exit.
    Acquiring,
    /// Waiting for the lookup that follows a successful acquisition.
    Relocating,
    /// Waiting for the located file to be opened.
    Opening,
    /// Terminal: the response is being streamed.
    Streaming,
    /// Terminal: the request failed.
    Failed,
}

/// What the server reports back after performing an action.
#[derive(Clone, Copy, Debug, PartialEq, Eq, Structural)]
pub enum GatewayEvent {
    /// A lookup finished; whether the file was found.
    LocateDone(bool),
    /// The download agent exited; whether with a success code.
    AgentDone(bool),
    /// Opening the located file finished.
    OpenDone(OpenOutcome),
}

/// How opening the located file went.
#[derive(Clone, Copy, Debug, PartialEq, Eq, Structural)]
pub enum OpenOutcome {
    /// The file is open and ready to stream.
    Opened,
    /// The file no longer exists at the located path.
    Vanished,
    /// The file exists but could not be opened.
    Denied,
}

/// What the server must do next.
#[derive(Clone, Copy, Debug, PartialEq, Eq, Structural)]
pub enum GatewayAction {
    /// Walk the storage root for the filename.
    Locate,
    /// Invoke the download agent once and wait for it to exit.
    RunAgent,
    /// Open the located file.
    OpenFile,
    /// Build the range response and hand the stream to the transport.
    Stream,
    /// Answer with the given error and stop.
    Respond(GatewayError),
}

/// The event kinds a state can take: each non-terminal state awaits the
/// outcome of the one action it issued; terminal states take none.
pub open spec fn accepts(s: GatewayState, e: GatewayEvent) -> bool {
    match s {
        GatewayState::Locating => e is LocateDone,
        GatewayState::Acquiring => e is AgentDone,
        GatewayState::Relocating => e is LocateDone,
        GatewayState::Opening => e is OpenDone,
        GatewayState::Streaming => false,
        GatewayState::Failed => false,
    }
}

/// The first state and action of a request: empty parameters fail at once
/// with a 400, before any filesystem or process activity; otherwise the
/// first lookup is issued.
pub open spec fn spec_start(magnet: Seq<char>, filename: Seq<char>) -> (GatewayState, GatewayAction) {
    if magnet.len() == 0 || filename.len() == 0 {
        (GatewayState::Failed, GatewayAction::Respond(GatewayError::EmptyParam))
    } else {
        (GatewayState::Locating, GatewayAction::Locate)
    }
}

/// Begin a request, as `spec_start` describes.
pub fn start_request(magnet: &str, filename: &str) -> (r: (GatewayState, GatewayAction))
    ensures
        r == spec_start(magnet@, filename@),
{
    if magnet.is_empty() || filename.is_empty() {
        (GatewayState::Failed, GatewayAction::Respond(GatewayError::EmptyParam))
    } else {
        (GatewayState::Locating, GatewayAction::Locate)
    }
}

/// One transition: a found file is opened and streamed; an absent one
/// triggers exactly one acquisition, whose success is re-checked by a
/// second lookup and whose failure, like a file still missing afterwards,
/// is terminal.
pub open spec fn spec_step(s: GatewayState, e: GatewayEvent) -> (GatewayState, GatewayAction) {
    match (s, e) {
        (GatewayState::Locating, GatewayEvent::LocateDone(true)) => (
            GatewayState::Opening,
            GatewayAction::OpenFile,
        ),
        (GatewayState::Locating, GatewayEvent::LocateDone(false)) => (
            GatewayState::Acquiring,
            GatewayAction::RunAgent,
        ),
        (GatewayState::Acquiring, GatewayEvent::AgentDone(true)) => (
            GatewayState::Relocating,
            GatewayAction::Locate,
        ),
        (GatewayState::Acquiring, GatewayEvent::AgentDone(false)) => (
            GatewayState::Failed,
            GatewayAction::Respond(GatewayError::AgentFailed),
        ),
        (GatewayState::Relocating, GatewayEvent::LocateDone(true)) => (
            GatewayState::Opening,
            GatewayAction::OpenFile,
        ),
        (GatewayState::Relocating, GatewayEvent::LocateDone(false)) => (
            GatewayState::Failed,
            GatewayAction::Respond(GatewayError::MissingAfterAcquire),
        ),
        (GatewayState::Opening, GatewayEvent::OpenDone(OpenOutcome::Opened)) => (
            GatewayState::Streaming,
            GatewayAction::Stream,
        ),
        (GatewayState::Opening, GatewayEvent::OpenDone(OpenOutcome::Vanished)) => (
            GatewayState::Failed,
            GatewayAction::Respond(GatewayError::FileVanished),
        ),
        (GatewayState::Opening, GatewayEvent::OpenDone(OpenOutcome::Denied)) => (
            GatewayState::Failed,
            GatewayAction::Respond(GatewayError::OpenFailed),
        ),
        _ => (GatewayState::Failed, GatewayAction::Respond(GatewayError::OpenFailed)),
    }
}

/// Take one transition, as `spec_step` describes.
pub fn step(s: GatewayState, e: GatewayEvent) -> (r: (GatewayState, GatewayAction))
    requires
        accepts(s, e),
    ensures
        r == spec_step(s, e),
{
    match (s, e) {
        (GatewayState::Locating, GatewayEvent::LocateDone(true)) => (
            GatewayState::Opening,
            GatewayAction::OpenFile,
        ),
        (GatewayState::Locating, GatewayEvent::LocateDone(false)) => (
            GatewayState::Acquiring,
            GatewayAction::RunAgent,
        ),
        (GatewayState::Acquiring, GatewayEvent::AgentDone(true)) => (
            GatewayState::Relocating,
            GatewayAction::Locate,
        ),
        (GatewayState::Acquiring, GatewayEvent::AgentDone(false)) => (
            GatewayState::Failed,
            GatewayAction::Respond(GatewayError::AgentFailed),
        ),
        (GatewayState::Relocating, GatewayEvent::LocateDone(true)) => (
            GatewayState::Opening,
            GatewayAction::OpenFile,
        ),
        (GatewayState::Relocating, GatewayEvent::LocateDone(false)) => (
            GatewayState::Failed,
            GatewayAction::Respond(GatewayError::MissingAfterAcquire),
        ),
        (GatewayState::Opening, GatewayEvent::OpenDone(OpenOutcome::Opened)) => (
            GatewayState::Streaming,
            GatewayAction::Stream,
        ),
        (GatewayState::Opening, GatewayEvent::OpenDone(OpenOutcome::Vanished)) => (
            GatewayState::Failed,
            GatewayAction::Respond(GatewayError::FileVanished),
        ),
        _ => (GatewayState::Failed, GatewayAction::Respond(GatewayError::OpenFailed)),
    }
}

/// The events of a run each fit the state the machine is in when they
/// arrive.
pub open spec fn valid_run(s: GatewayState, events: Seq<GatewayEvent>) -> bool
    decreases events.len(),
{
    events.len() == 0 || (accepts(s, events[0]) && valid_run(
        spec_step(s, events[0]).0,
        events.drop_first(),
    ))
}

/// The actions a run issues, in order.
pub open spec fn run_actions(s: GatewayState, events: Seq<GatewayEvent>) -> Seq<GatewayAction>
    decreases events.len(),
{
    if events.len() == 0 {
        Seq::empty()
    } else {
        seq![spec_step(s, events[0]).1] + run_actions(spec_step(s, events[0]).0, events.drop_first())
    }
}

/// How many times a run invokes the download agent.
pub open spec fn count_agent_runs(actions: Seq<GatewayAction>) -> nat
    decreases actions.len(),
{
    if actions.len() == 0 {
        0
    } else {
        (if actions[0] == GatewayAction::RunAgent {
            1nat
        } else {
            0nat
        }) + count_agent_runs(actions.drop_first())
    }
}

/// Once the first lookup is behind it, the machine never returns to the
/// initial state, and so never issues another acquisition: every valid run
/// from any state but `Locating` invokes the agent zero times.
pub proof fn lemma_no_agent_after_locating(s: GatewayState, events: Seq<GatewayEvent>)
    requires
        s != GatewayState::Locating,
        valid_run(s, events),
    ensures
        count_agent_runs(run_actions(s, events)) == 0,
    decreases events.len(),
{
    if events.len() > 0 {
        let (s2, a) = spec_step(s, events[0]);
        assert(a != GatewayAction::RunAgent);
        assert(s2 != GatewayState::Locating);
        lemma_no_agent_after_locating(s2, events.drop_first());
        assert(run_actions(s, events).drop_first() =~= run_actions(s2, events.drop_first()));
    }
}

/// A request triggers at most one acquisition: every valid run from the
/// initial state invokes the download agent at most once, and exactly once
/// when the first lookup misses.
pub proof fn lemma_at_most_one_acquisition(events: Seq<GatewayEvent>)
    requires
        valid_run(GatewayState::Locating, events),
    ensures
        count_agent_runs(run_actions(GatewayState::Locating, events)) <= 1,
        events.len() > 0 && events[0] == GatewayEvent::LocateDone(false) ==> count_agent_runs(
            run_actions(GatewayState::Locating, events),
        ) == 1,
{
    if events.len() > 0 {
        let (s2, a) = spec_step(GatewayState::Locating, events[0]);
        assert(s2 != GatewayState::Locating);
        lemma_no_agent_after_locating(s2, events.drop_first());
        assert(run_actions(GatewayState::Locating, events).drop_first() =~= run_actions(
            s2,
            events.drop_first(),
        ));
    }
}

/// Idempotence: a request for a file that is already on disk never
/// invokes the download agent — when the first lookup succeeds, the run
/// opens and streams the file and acquires nothing.
pub proof fn lemma_found_file_never_acquires(events: Seq<GatewayEvent>)
    requires
        valid_run(GatewayState::Locating, events),
        events.len() > 0,
        events[0] == GatewayEvent::LocateDone(true),
    ensures
        count_agent_runs(run_actions(GatewayState::Locating, events)) == 0,
        run_actions(GatewayState::Locating, events)[0] == GatewayAction::OpenFile,
{
    let (s2, a) = spec_step(GatewayState::Locating, events[0]);
    lemma_no_agent_after_locating(s2, events.drop_first());
    assert(run_actions(GatewayState::Locating, events).drop_first() =~= run_actions(
        s2,
        events.drop_first(),
    ));
}

/// A failed acquisition is terminal and never retried: the agent's failure
/// answers with a 500 at once, and nothing follows in any valid run.
pub proof fn lemma_agent_failure_terminal(events: Seq<GatewayEvent>)
    requires
        valid_run(GatewayState::Acquiring, events),
        events.len() > 0,
        events[0] == GatewayEvent::AgentDone(false),
    ensures
        run_actions(GatewayState::Acquiring, events)[0] == GatewayAction::Respond(
            GatewayError::AgentFailed,
        ),
        events.len() == 1,
{
    assert(spec_step(GatewayState::Acquiring, events[0]).0 == GatewayState::Failed);
    assert(valid_run(GatewayState::Failed, events.drop_first()));
    if events.len() > 1 {
        assert(accepts(GatewayState::Failed, events.drop_first()[0]) == false);
    }
}

} // verus!
