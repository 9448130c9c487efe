//! Fetching the CSV file from its fixed address to its fixed place on disk.
//!
//! The fetch is a walk through a fixed list of actions. The caller performs
//! each action, says how it went, and asks `extract` for the next one:
//! nothing in this module touches the network or the disk.

use vstd::prelude::*;

verus! {

/// Where the file is fetched from.
pub const SOURCE_URL: &'static str =
    "https://raw.githubusercontent.com/nogibjj/Xianjing_Huang_Mini_Proj_test/refs/heads/main/customer_new.csv";

/// The directory that holds the fetched file.
pub const TARGET_DIRECTORY: &'static str = "data";

/// Where the fetched file is written.
pub const TARGET_FILE: &'static str = "data/customer_new.csv";

/// Why a fetch was given up.
#[derive(Debug, Clone, Copy, PartialEq, Eq, Structural)]
pub enum FetchError {
    /// The directory or the file could not be made or written.
    Io,
    /// The request or the reading of its body failed.
    Network,
    /// The server answered with a status outside 200..300.
    Status(u16),
    /// An event that the action waited for cannot bring: the caller is out
    /// of step.
    OutOfTurn,
}

/// One step of a fetch: what the caller is to do now.
#[derive(Debug, Clone, Copy, PartialEq, Eq, Structural)]
pub enum FetchAction {
    /// Look whether `TARGET_DIRECTORY` is there.
    ProbeDirectory,
    /// Make `TARGET_DIRECTORY`, and what lies above it.
    CreateDirectory,
    /// Send a GET request to `SOURCE_URL`.
    Request,
    /// Create `TARGET_FILE`, empty, over whatever is there.
    CreateFile,
    /// Read the body of the response, all of it.
    ReadBody,
    /// Write the body to the file.
    WriteBody,
    /// Report the download: the fetch is done.
    Report,
    /// Stop: the fetch has failed.
    Fail(FetchError),
}

/// How an action went.
#[derive(Debug, Clone, Copy, PartialEq, Eq, Structural)]
pub enum FetchEvent {
    /// The directory is there.
    Found,
    /// The directory is not there.
    Missing,
    /// The action went through.
    Done,
    /// The server answered, with this status.
    Status(u16),
    /// The disk refused.
    IoFailed,
    /// The network failed.
    NetworkFailed,
}

/// Whether a status is one of success.
pub open spec fn is_success(status: u16) -> bool {
    200 <= status < 300
}

/// The action that follows `pending` once `event` has come of it. The
/// directory is made only where it is missing; the file is touched only
/// after an answer of success; the report follows the written body and
/// nothing else; a failure stops the fetch for good; nothing follows the
/// report.
pub open spec fn next_action(pending: FetchAction, event: FetchEvent) -> FetchAction {
    match (pending, event) {
        (FetchAction::ProbeDirectory, FetchEvent::Found) => FetchAction::Request,
        (FetchAction::ProbeDirectory, FetchEvent::Missing) => FetchAction::CreateDirectory,
        (FetchAction::CreateDirectory, FetchEvent::Done) => FetchAction::Request,
        (FetchAction::CreateDirectory, FetchEvent::IoFailed) => FetchAction::Fail(FetchError::Io),
        (FetchAction::Request, FetchEvent::Status(status)) => if is_success(status) {
            FetchAction::CreateFile
        } else {
            FetchAction::Fail(FetchError::Status(status))
        },
        (FetchAction::Request, FetchEvent::NetworkFailed) => FetchAction::Fail(
            FetchError::Network,
        ),
        (FetchAction::CreateFile, FetchEvent::Done) => FetchAction::ReadBody,
        (FetchAction::CreateFile, FetchEvent::IoFailed) => FetchAction::Fail(FetchError::Io),
        (FetchAction::ReadBody, FetchEvent::Done) => FetchAction::WriteBody,
        (FetchAction::ReadBody, FetchEvent::NetworkFailed) => FetchAction::Fail(
            FetchError::Network,
        ),
        (FetchAction::WriteBody, FetchEvent::Done) => FetchAction::Report,
        (FetchAction::WriteBody, FetchEvent::IoFailed) => FetchAction::Fail(FetchError::Io),
        (FetchAction::Fail(e), _) => FetchAction::Fail(e),
        _ => FetchAction::Fail(FetchError::OutOfTurn),
    }
}

/// The action that a fetch begins with.
pub fn first_action() -> (action: FetchAction)
    ensures
        action == FetchAction::ProbeDirectory,
{
    FetchAction::ProbeDirectory
}

/// Takes the fetch one step on: given the action that was performed and how
/// it went, says what to do next.
pub fn extract(pending: FetchAction, event: FetchEvent) -> (next: FetchAction)
    ensures
        next == next_action(pending, event),
{
    match pending {
        FetchAction::ProbeDirectory => match event {
            FetchEvent::Found => FetchAction::Request,
            FetchEvent::Missing => FetchAction::CreateDirectory,
            _ => FetchAction::Fail(FetchError::OutOfTurn),
        },
        FetchAction::CreateDirectory => match event {
            FetchEvent::Done => FetchAction::Request,
            FetchEvent::IoFailed => FetchAction::Fail(FetchError::Io),
            _ => FetchAction::Fail(FetchError::OutOfTurn),
        },
        FetchAction::Request => match event {
            FetchEvent::Status(status) => if 200 <= status && status < 300 {
                FetchAction::CreateFile
            } else {
                FetchAction::Fail(FetchError::Status(status))
            },
            FetchEvent::NetworkFailed => FetchAction::Fail(FetchError::Network),
            _ => FetchAction::Fail(FetchError::OutOfTurn),
        },
        FetchAction::CreateFile => match event {
            FetchEvent::Done => FetchAction::ReadBody,
            FetchEvent::IoFailed => FetchAction::Fail(FetchError::Io),
            _ => FetchAction::Fail(FetchError::OutOfTurn),
        },
        FetchAction::ReadBody => match event {
            FetchEvent::Done => FetchAction::WriteBody,
            FetchEvent::NetworkFailed => FetchAction::Fail(FetchError::Network),
            _ => FetchAction::Fail(FetchError::OutOfTurn),
        },
        FetchAction::WriteBody => match event {
            FetchEvent::Done => FetchAction::Report,
            FetchEvent::IoFailed => FetchAction::Fail(FetchError::Io),
            _ => FetchAction::Fail(FetchError::OutOfTurn),
        },
        FetchAction::Report => FetchAction::Fail(FetchError::OutOfTurn),
        FetchAction::Fail(e) => FetchAction::Fail(e),
    }
}

/// The action that a fetch has come to after `events`, from its beginning.
pub open spec fn action_after(events: Seq<FetchEvent>) -> FetchAction
    decreases events.len(),
{
    if events.len() == 0 {
        FetchAction::ProbeDirectory
    } else {
        next_action(action_after(events.drop_last()), events.last())
    }
}

/// A fetch reports only what happened: where the report is due, the last
/// event was the body written, the one before it the body read, before that
/// the file created, and before that an answer of success.
pub proof fn lemma_report_follows_success(events: Seq<FetchEvent>)
    requires
        action_after(events) == FetchAction::Report,
    ensures
        events.len() >= 5,
        events[events.len() - 1] == FetchEvent::Done,
        events[events.len() - 2] == FetchEvent::Done,
        events[events.len() - 3] == FetchEvent::Done,
        events[events.len() - 4] matches FetchEvent::Status(status) && is_success(status),
{
    let n = events.len() as int;
    let e1 = events.drop_last();
    assert(action_after(e1) == FetchAction::WriteBody);
    let e2 = e1.drop_last();
    assert(action_after(e2) == FetchAction::ReadBody);
    let e3 = e2.drop_last();
    assert(action_after(e3) == FetchAction::CreateFile);
    let e4 = e3.drop_last();
    assert(action_after(e4) == FetchAction::Request);
    assert(e4.len() > 0);
}

} // verus!
