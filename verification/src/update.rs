//! The self-update pipeline as a state machine.
//!
//! An update downloads an installer, stores it under a fixed name in the
//! temporary directory, starts it detached and then ends the running process.
//! All of that is outside work. What is decided here is the order of that
//! work and the answer to every way it can end: the flow hands out one
//! [`Action`] at a time, the runner performs it and reports back with one
//! [`Event`], and [`UpdateFlow::step`] says what comes next. Nothing in an
//! action ever asks for the file to be removed: whatever a failed update
//! has put on disk stays there.

use vstd::prelude::*;
use crate::progress::{Transfer, TransferView};
use crate::request::{HttpRequest, HttpRequestView};

verus! {

/// Redirects the download follows at most.
pub const UPDATE_MAX_REDIRECTS: u32 = 10;

/// File name of the downloaded installer inside the temporary directory.
pub const ARTIFACT_FILE_NAME: &'static str = "stretch-update.exe";

/// Installer argument that asks for a silent install.
pub const SILENT_INSTALL_FLAG: &'static str = "/S";

/// Installer argument that marks a run that follows an update.
pub const POST_UPDATE_FLAG: &'static str = "--updated";

/// Milliseconds left to the installer before the running process ends.
pub const HANDOFF_GRACE_MS: u64 = 500;

/// Exit status of the running process after a successful hand-off.
pub const HANDOFF_EXIT_STATUS: i32 = 0;

/// The arguments the installer is started with, in order.
pub open spec fn installer_args() -> Seq<Seq<char>> {
    seq![SILENT_INSTALL_FLAG@, POST_UPDATE_FLAG@]
}

/// Where a failure arose.
#[derive(Clone, Copy, Debug, PartialEq, Eq)]
pub enum FailureKind {
    /// The transport could not be set up.
    Config,
    /// The request, the response or the body stream broke.
    Network,
    /// The artifact file could not be created or written.
    Io,
    /// The installer could not be started.
    Launch,
}

/// A failed update: where it failed, and the description the failing
/// operation gave. The description is what the caller is shown.
#[derive(Debug, PartialEq, Eq)]
pub struct Failure {
    pub kind: FailureKind,
    pub message: String,
}

/// Model of a failure.
pub ghost struct FailureView {
    pub kind: FailureKind,
    pub message: Seq<char>,
}

impl View for Failure {
    type V = FailureView;

    open spec fn view(&self) -> FailureView {
        FailureView { kind: self.kind, message: self.message@ }
    }
}

impl Failure {
    /// The flat message shown to the caller.
    pub fn into_message(self) -> (message: String)
        ensures
            message@ == self@.message,
    {
        self.message
    }
}

/// What the runner reports after it performed an action.
#[derive(Debug, PartialEq, Eq)]
pub enum Event {
    /// The client that was to carry the request could not be built.
    ClientFailed(String),
    /// The request failed before a response arrived.
    RequestFailed(String),
    /// The response head arrived, with the content length it declared.
    ResponseReceived { content_length: Option<u64> },
    /// The artifact file was created, or truncated, and is open.
    FileCreated,
    /// The artifact file could not be created.
    FileCreateFailed(String),
    /// The next chunk of the body arrived.
    ChunkReceived(Vec<u8>),
    /// The body stream broke.
    StreamFailed(String),
    /// The body stream is exhausted.
    StreamEnded,
    /// The chunk last handed out was appended to the file.
    ChunkWritten,
    /// The chunk last handed out could not be written.
    WriteFailed(String),
    /// The file handle was released.
    FileClosed,
    /// The installer runs.
    InstallerSpawned,
    /// The installer could not be started.
    SpawnFailed(String),
}

/// Model of an event.
pub ghost enum EventView {
    ClientFailed(Seq<char>),
    RequestFailed(Seq<char>),
    ResponseReceived { content_length: Option<u64> },
    FileCreated,
    FileCreateFailed(Seq<char>),
    ChunkReceived(Seq<u8>),
    StreamFailed(Seq<char>),
    StreamEnded,
    ChunkWritten,
    WriteFailed(Seq<char>),
    FileClosed,
    InstallerSpawned,
    SpawnFailed(Seq<char>),
}

impl View for Event {
    type V = EventView;

    open spec fn view(&self) -> EventView {
        match self {
            Event::ClientFailed(why) => EventView::ClientFailed(why@),
            Event::RequestFailed(why) => EventView::RequestFailed(why@),
            Event::ResponseReceived { content_length } => EventView::ResponseReceived {
                content_length: *content_length,
            },
            Event::FileCreated => EventView::FileCreated,
            Event::FileCreateFailed(why) => EventView::FileCreateFailed(why@),
            Event::ChunkReceived(bytes) => EventView::ChunkReceived(bytes@),
            Event::StreamFailed(why) => EventView::StreamFailed(why@),
            Event::StreamEnded => EventView::StreamEnded,
            Event::ChunkWritten => EventView::ChunkWritten,
            Event::WriteFailed(why) => EventView::WriteFailed(why@),
            Event::FileClosed => EventView::FileClosed,
            Event::InstallerSpawned => EventView::InstallerSpawned,
            Event::SpawnFailed(why) => EventView::SpawnFailed(why@),
        }
    }
}

/// What the runner is to do next.
#[derive(Debug, PartialEq, Eq)]
pub enum Action {
    /// Build a client for the request's redirect limit, send the request
    /// with it, and wait for the response head.
    Send(HttpRequest),
    /// Create, or truncate, the file `name` in the temporary directory.
    CreateFile { name: String },
    /// Report `progress` under the progress event if there is any, without
    /// regard to whether anyone listens, then wait for the next chunk.
    ReceiveChunk { progress: Option<u32> },
    /// Append these bytes to the file.
    WriteChunk(Vec<u8>),
    /// Release the file handle.
    CloseFile,
    /// Start the file as a detached process with `args`.
    SpawnInstaller { args: Vec<String> },
    /// Wait `grace_ms` milliseconds, then end this process with `status`.
    Exit { grace_ms: u64, status: i32 },
    /// Give up, leave what is on disk as it is, and return the failure.
    Fail(Failure),
}

/// Model of an action.
pub ghost enum ActionView {
    Send(HttpRequestView),
    CreateFile { name: Seq<char> },
    ReceiveChunk { progress: Option<u32> },
    WriteChunk(Seq<u8>),
    CloseFile,
    SpawnInstaller { args: Seq<Seq<char>> },
    Exit { grace_ms: u64, status: i32 },
    Fail(FailureView),
}

impl View for Action {
    type V = ActionView;

    open spec fn view(&self) -> ActionView {
        match self {
            Action::Send(request) => ActionView::Send(request@),
            Action::CreateFile { name } => ActionView::CreateFile { name: name@ },
            Action::ReceiveChunk { progress } => ActionView::ReceiveChunk { progress: *progress },
            Action::WriteChunk(bytes) => ActionView::WriteChunk(bytes@),
            Action::CloseFile => ActionView::CloseFile,
            Action::SpawnInstaller { args } => ActionView::SpawnInstaller {
                args: args@.map_values(|arg: String| arg@),
            },
            Action::Exit { grace_ms, status } => ActionView::Exit {
                grace_ms: *grace_ms,
                status: *status,
            },
            Action::Fail(failure) => ActionView::Fail(failure@),
        }
    }
}

impl ActionView {
    /// The action that gives up with `message`, blamed on `kind`.
    pub open spec fn fail(kind: FailureKind, message: Seq<char>) -> ActionView {
        ActionView::Fail(FailureView { kind, message })
    }

    /// Whether nothing follows this action.
    pub open spec fn is_final(self) -> bool {
        self is Exit || self is Fail
    }
}

/// Where an update stands: what the flow is waiting for.
#[derive(Clone, Copy, Debug)]
pub enum Phase {
    /// For the response head.
    Requesting,
    /// For the artifact file to be created.
    CreatingFile(Transfer),
    /// For the next chunk, or the end of the stream.
    Receiving(Transfer),
    /// For a chunk to be written. The transfer is as it will stand once the
    /// chunk is on disk.
    Writing(Transfer),
    /// For the file handle to be released.
    Closing,
    /// For the installer to start.
    Spawning,
    /// For nothing: the update has handed off or failed.
    Finished,
}

/// Model of a phase.
pub ghost enum PhaseView {
    Requesting,
    CreatingFile(TransferView),
    Receiving(TransferView),
    Writing(TransferView),
    Closing,
    Spawning,
    Finished,
}

impl View for Phase {
    type V = PhaseView;

    open spec fn view(&self) -> PhaseView {
        match self {
            Phase::Requesting => PhaseView::Requesting,
            Phase::CreatingFile(transfer) => PhaseView::CreatingFile(transfer@),
            Phase::Receiving(transfer) => PhaseView::Receiving(transfer@),
            Phase::Writing(transfer) => PhaseView::Writing(transfer@),
            Phase::Closing => PhaseView::Closing,
            Phase::Spawning => PhaseView::Spawning,
            Phase::Finished => PhaseView::Finished,
        }
    }
}

impl PhaseView {
    /// The request an update from `url` begins with.
    pub open spec fn first_action(url: Seq<char>) -> ActionView {
        ActionView::Send(HttpRequestView::get(url, UPDATE_MAX_REDIRECTS))
    }

    /// The end of an update that gives up with `message`, blamed on `kind`.
    pub open spec fn failing(kind: FailureKind, message: Seq<char>) -> (PhaseView, ActionView) {
        (PhaseView::Finished, ActionView::fail(kind, message))
    }

    /// The transition relation: the phase after `event` and the action that
    /// answers it, or `None` where this phase does not wait for `event`, or
    /// where a chunk would take the byte count beyond 64 bits.
    pub open spec fn step(self, event: EventView) -> Option<(PhaseView, ActionView)> {
        match (self, event) {
            (PhaseView::Requesting, EventView::ClientFailed(why)) => Some(
                Self::failing(FailureKind::Config, why),
            ),
            (PhaseView::Requesting, EventView::RequestFailed(why)) => Some(
                Self::failing(FailureKind::Network, why),
            ),
            (PhaseView::Requesting, EventView::ResponseReceived { content_length }) => Some(
                (
                    PhaseView::CreatingFile(TransferView::begin(content_length)),
                    ActionView::CreateFile { name: ARTIFACT_FILE_NAME@ },
                ),
            ),
            (PhaseView::CreatingFile(transfer), EventView::FileCreated) => Some(
                (PhaseView::Receiving(transfer), ActionView::ReceiveChunk { progress: None }),
            ),
            (PhaseView::CreatingFile(_), EventView::FileCreateFailed(why)) => Some(
                Self::failing(FailureKind::Io, why),
            ),
            (PhaseView::Receiving(transfer), EventView::ChunkReceived(bytes)) => {
                if transfer.fits(bytes.len()) {
                    Some(
                        (
                            PhaseView::Writing(transfer.record(bytes.len())),
                            ActionView::WriteChunk(bytes),
                        ),
                    )
                } else {
                    None
                }
            },
            (PhaseView::Receiving(_), EventView::StreamFailed(why)) => Some(
                Self::failing(FailureKind::Network, why),
            ),
            (PhaseView::Receiving(_), EventView::StreamEnded) => Some(
                (PhaseView::Closing, ActionView::CloseFile),
            ),
            (PhaseView::Writing(transfer), EventView::ChunkWritten) => Some(
                (
                    PhaseView::Receiving(transfer),
                    ActionView::ReceiveChunk { progress: transfer.percentage() },
                ),
            ),
            (PhaseView::Writing(_), EventView::WriteFailed(why)) => Some(
                Self::failing(FailureKind::Io, why),
            ),
            (PhaseView::Closing, EventView::FileClosed) => Some(
                (PhaseView::Spawning, ActionView::SpawnInstaller { args: installer_args() }),
            ),
            (PhaseView::Spawning, EventView::InstallerSpawned) => Some(
                (
                    PhaseView::Finished,
                    ActionView::Exit { grace_ms: HANDOFF_GRACE_MS, status: HANDOFF_EXIT_STATUS },
                ),
            ),
            (PhaseView::Spawning, EventView::SpawnFailed(why)) => Some(
                Self::failing(FailureKind::Launch, why),
            ),
            _ => None,
        }
    }
}

/// One update, from the request to the hand-off. Its model is the phase it
/// is in.
#[derive(Debug)]
pub struct UpdateFlow {
    phase: Phase,
}

impl View for UpdateFlow {
    type V = PhaseView;

    closed spec fn view(&self) -> PhaseView {
        self.phase@
    }
}

impl UpdateFlow {
    /// Begins an update from `url`. The first thing to do is to request
    /// the installer, over at most ten redirects.
    pub fn start(url: String) -> (out: (UpdateFlow, Action))
        ensures
            out.0@ == PhaseView::Requesting,
            out.1@ == PhaseView::first_action(url@),
    {
        (
            UpdateFlow { phase: Phase::Requesting },
            Action::Send(HttpRequest::get(url, UPDATE_MAX_REDIRECTS)),
        )
    }

    /// Where the update stands.
    pub fn phase(&self) -> (phase: Phase)
        ensures
            phase@ == self@,
    {
        self.phase
    }

    /// Whether the update has handed off or failed.
    pub fn is_finished(&self) -> (finished: bool)
        ensures
            finished == (self@ is Finished),
    {
        match self.phase {
            Phase::Finished => true,
            _ => false,
        }
    }

    fn fail(kind: FailureKind, message: String) -> (out: (UpdateFlow, Option<Action>))
        ensures
            out.0@ == PhaseView::Finished,
            out.1 matches Some(action) && action@ == ActionView::fail(kind, message@),
    {
        (UpdateFlow { phase: Phase::Finished }, Some(Action::Fail(Failure { kind, message })))
    }

    fn go(phase: Phase, action: Action) -> (out: (UpdateFlow, Option<Action>))
        ensures
            out.0@ == phase@,
            out.1 == Some(action),
    {
        (UpdateFlow { phase }, Some(action))
    }

    /// Takes the report of what the last action came to and answers with
    /// the next one. An event the flow does not wait for, and a chunk that
    /// would take the byte count beyond 64 bits, are turned away: the flow
    /// stays as it is and no action is given.
    pub fn step(self, event: Event) -> (out: (UpdateFlow, Option<Action>))
        ensures
            match self@.step(event@) {
                Some((phase, action)) => out.0@ == phase && out.1.is_some() && out.1.unwrap()@
                    == action,
                None => out.0@ == self@ && out.1.is_none(),
            },
    {
        match (self.phase, event) {
            (Phase::Requesting, Event::ClientFailed(why)) => Self::fail(FailureKind::Config, why),
            (Phase::Requesting, Event::RequestFailed(why)) => Self::fail(FailureKind::Network, why),
            (Phase::Requesting, Event::ResponseReceived { content_length }) => Self::go(
                Phase::CreatingFile(Transfer::begin(content_length)),
                Action::CreateFile { name: ARTIFACT_FILE_NAME.to_owned() },
            ),
            (Phase::CreatingFile(transfer), Event::FileCreated) => Self::go(
                Phase::Receiving(transfer),
                Action::ReceiveChunk { progress: None },
            ),
            (Phase::CreatingFile(_), Event::FileCreateFailed(why)) => Self::fail(
                FailureKind::Io,
                why,
            ),
            (Phase::Receiving(transfer), Event::ChunkReceived(bytes)) => {
                let len: u64 = bytes.len() as u64;
                match transfer.record(len) {
                    Some(after) => Self::go(Phase::Writing(after), Action::WriteChunk(bytes)),
                    None => (self, None),
                }
            },
            (Phase::Receiving(_), Event::StreamFailed(why)) => Self::fail(
                FailureKind::Network,
                why,
            ),
            (Phase::Receiving(_), Event::StreamEnded) => Self::go(Phase::Closing, Action::CloseFile),
            (Phase::Writing(transfer), Event::ChunkWritten) => {
                let progress = transfer.percentage();
                Self::go(Phase::Receiving(transfer), Action::ReceiveChunk { progress })
            },
            (Phase::Writing(_), Event::WriteFailed(why)) => Self::fail(FailureKind::Io, why),
            (Phase::Closing, Event::FileClosed) => {
                let mut args: Vec<String> = Vec::new();
                args.push(SILENT_INSTALL_FLAG.to_owned());
                args.push(POST_UPDATE_FLAG.to_owned());
                assert(args@.map_values(|arg: String| arg@) =~= installer_args());
                Self::go(Phase::Spawning, Action::SpawnInstaller { args })
            },
            (Phase::Spawning, Event::InstallerSpawned) => Self::go(
                Phase::Finished,
                Action::Exit { grace_ms: HANDOFF_GRACE_MS, status: HANDOFF_EXIT_STATUS },
            ),
            (Phase::Spawning, Event::SpawnFailed(why)) => Self::fail(FailureKind::Launch, why),
            _ => (self, None),
        }
    }
}

} // verus!
