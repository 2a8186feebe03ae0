//! The model download manager: the decisions of one download, from request to
//! renamed artifact or removed partial file. The caller does the transport
//! and the file work and reports how each step went; the manager says what to
//! do next and what to tell the orchestration.

use vstd::prelude::*;
use crate::text::joined;

verus! {

/// Size of the buffer through which the response body is streamed to disk.
pub const CHUNK_SIZE: usize = 65536;

/// What the partial file's name adds to the artifact's.
pub const PART_SUFFIX: &'static str = ".part";

/// Why a download failed.
#[derive(Clone, Copy, Debug, PartialEq, Eq, Structural)]
pub enum DownloadFailure {
    /// The request did not get through.
    Request,
    /// The server answered with a status outside 200 to 299.
    HttpStatus(u16),
    /// The partial file could not be created.
    CreateFile,
    /// Reading the response body failed.
    Read,
    /// Writing to the partial file failed.
    Write,
    /// The count of bytes no longer fits in 64 bits.
    TooLarge,
    /// The partial file could not be renamed into place.
    Rename,
}

/// What a download tells the orchestration.
#[derive(Clone, Copy, Debug, PartialEq, Eq, Structural)]
pub enum DownloadMsg {
    /// So many bytes are on disk, of so many where the size is known.
    Progress(u64, Option<u64>),
    /// The artifact is in place.
    Done,
    /// The download failed and the partial file is gone.
    Error(DownloadFailure),
}

/// How a step of the caller's work went.
#[derive(Clone, Copy, Debug, PartialEq, Eq, Structural)]
pub enum IoEvent {
    /// The server answered, with this status and this content length.
    Responded { status: u16, content_length: Option<u64> },
    RequestFailed,
    PartCreated,
    CreateFailed,
    /// So many bytes were read from the body; zero at its end.
    ChunkRead(usize),
    ReadFailed,
    ChunkWritten,
    WriteFailed,
    Renamed,
    RenameFailed,
    /// The partial file was removed, or was not there.
    PartRemoved,
}

/// What the caller is to do next.
#[derive(Clone, Copy, Debug, PartialEq, Eq, Structural)]
pub enum Command {
    /// Send the request and report the answer.
    SendRequest,
    /// Create the partial file, empty.
    CreatePart,
    /// Read up to `CHUNK_SIZE` bytes of the body.
    ReadChunk,
    /// Append the bytes just read, so many, to the partial file.
    WriteChunk(usize),
    /// Rename the partial file to the artifact's name.
    RenamePart,
    /// Remove the partial file if it is there.
    RemovePart,
    /// Nothing more: the download is over.
    Stop,
}

/// Where a download stands.
#[derive(Clone, Copy, Debug, PartialEq, Eq, Structural)]
pub enum Phase {
    AwaitingResponse,
    CreatingPart,
    Reading,
    /// A chunk of so many bytes is being written.
    Writing(usize),
    Renaming,
    /// The download failed for this reason and the partial file is being
    /// removed.
    CleaningUp(DownloadFailure),
    Done,
    Failed(DownloadFailure),
}

/// What the manager answers to an event.
#[derive(Clone, Copy, Debug, PartialEq, Eq, Structural)]
pub struct Reaction {
    /// What to tell the orchestration, if anything.
    pub report: Option<DownloadMsg>,
    /// What to do next.
    pub next: Command,
}

/// The numbers and flags of a download, without its paths.
pub struct Progress {
    pub phase: Phase,
    pub bytes_downloaded: u64,
    pub total_bytes: Option<u64>,
    /// Whether the partial file is on disk.
    pub part_exists: bool,
    /// Whether this download has put the artifact in place.
    pub artifact_in_place: bool,
}

/// One download.
pub struct DownloadState {
    phase: Phase,
    bytes_downloaded: u64,
    total_bytes: Option<u64>,
    target_path: String,
    part_path: String,
    part_exists: bool,
    artifact_in_place: bool,
}

/// The name of the partial file that goes with an artifact.
pub open spec fn part_path_of(target_path: Seq<char>) -> Seq<char> {
    target_path + PART_SUFFIX@
}

/// The command that a phase waits on.
pub open spec fn pending_command(phase: Phase) -> Command {
    match phase {
        Phase::AwaitingResponse => Command::SendRequest,
        Phase::CreatingPart => Command::CreatePart,
        Phase::Reading => Command::ReadChunk,
        Phase::Writing(n) => Command::WriteChunk(n),
        Phase::Renaming => Command::RenamePart,
        Phase::CleaningUp(_) => Command::RemovePart,
        Phase::Done => Command::Stop,
        Phase::Failed(_) => Command::Stop,
    }
}

/// A download at its start.
pub open spec fn started() -> Progress {
    Progress {
        phase: Phase::AwaitingResponse,
        bytes_downloaded: 0,
        total_bytes: None,
        part_exists: false,
        artifact_in_place: false,
    }
}

/// The download after it failed for `failure`: cleaning up comes next.
pub open spec fn failing(before: Progress, failure: DownloadFailure) -> Progress {
    Progress { phase: Phase::CleaningUp(failure), ..before }
}

/// Where a download stands after an event. An event that does not answer
/// the command that the phase waits on changes nothing.
pub open spec fn after(before: Progress, event: IoEvent) -> Progress {
    match (before.phase, event) {
        (Phase::AwaitingResponse, IoEvent::Responded { status, content_length }) => if 200
            <= status < 300 {
            Progress { phase: Phase::CreatingPart, total_bytes: content_length, ..before }
        } else {
            failing(before, DownloadFailure::HttpStatus(status))
        },
        (Phase::AwaitingResponse, IoEvent::RequestFailed) => failing(
            before,
            DownloadFailure::Request,
        ),
        (Phase::CreatingPart, IoEvent::PartCreated) => Progress {
            phase: Phase::Reading,
            part_exists: true,
            ..before
        },
        (Phase::CreatingPart, IoEvent::CreateFailed) => failing(
            before,
            DownloadFailure::CreateFile,
        ),
        (Phase::Reading, IoEvent::ChunkRead(n)) => if n == 0 {
            Progress { phase: Phase::Renaming, ..before }
        } else {
            Progress { phase: Phase::Writing(n), ..before }
        },
        (Phase::Reading, IoEvent::ReadFailed) => failing(before, DownloadFailure::Read),
        (Phase::Writing(n), IoEvent::ChunkWritten) => if before.bytes_downloaded + n
            <= u64::MAX {
            Progress {
                phase: Phase::Reading,
                bytes_downloaded: (before.bytes_downloaded + n) as u64,
                ..before
            }
        } else {
            failing(before, DownloadFailure::TooLarge)
        },
        (Phase::Writing(_), IoEvent::WriteFailed) => failing(before, DownloadFailure::Write),
        (Phase::Renaming, IoEvent::Renamed) => Progress {
            phase: Phase::Done,
            part_exists: false,
            artifact_in_place: true,
            ..before
        },
        (Phase::Renaming, IoEvent::RenameFailed) => failing(before, DownloadFailure::Rename),
        (Phase::CleaningUp(failure), IoEvent::PartRemoved) => Progress {
            phase: Phase::Failed(failure),
            part_exists: false,
            ..before
        },
        _ => before,
    }
}

/// What the orchestration is told when an event takes a download from
/// `before` to `now`: the new count after a chunk reached the disk, the end
/// when the artifact is in place, the failure when cleaning up is over.
pub open spec fn report_of(before: Progress, now: Progress) -> Option<DownloadMsg> {
    match (before.phase, now.phase) {
        (Phase::Writing(_), Phase::Reading) => Some(
            DownloadMsg::Progress(now.bytes_downloaded, now.total_bytes),
        ),
        (Phase::Renaming, Phase::Done) => Some(DownloadMsg::Done),
        (Phase::CleaningUp(_), Phase::Failed(failure)) => Some(DownloadMsg::Error(failure)),
        _ => None,
    }
}

/// The whole answer to an event.
pub open spec fn reaction_to(before: Progress, event: IoEvent) -> Reaction {
    Reaction {
        report: report_of(before, after(before, event)),
        next: pending_command(after(before, event).phase),
    }
}

/// Where a download stands after a run of events.
pub open spec fn after_all(start: Progress, events: Seq<IoEvent>) -> Progress
    decreases events.len(),
{
    if events.len() == 0 {
        start
    } else {
        after(after_all(start, events.drop_last()), events.last())
    }
}

/// What holds at each phase of a download that began with neither file on
/// disk: which of the two files are there, and that a chunk being written is
/// not empty.
pub open spec fn files_in_order(p: Progress) -> bool {
    match p.phase {
        Phase::AwaitingResponse | Phase::CreatingPart => !p.part_exists && !p.artifact_in_place,
        Phase::Reading | Phase::Renaming => p.part_exists && !p.artifact_in_place,
        Phase::Writing(n) => p.part_exists && !p.artifact_in_place && n > 0,
        Phase::CleaningUp(_) => !p.artifact_in_place,
        Phase::Done => !p.part_exists && p.artifact_in_place,
        Phase::Failed(_) => !p.part_exists && !p.artifact_in_place,
    }
}

/// Whatever the caller reports, in whatever order: a download that has
/// failed has left neither the partial file nor the artifact on disk, and a
/// download that is done has left the artifact and no partial file.
pub proof fn lemma_download_leaves_no_partial_file(events: Seq<IoEvent>)
    ensures
        files_in_order(after_all(started(), events)),
        after_all(started(), events).phase is Failed ==> !after_all(started(), events).part_exists
            && !after_all(started(), events).artifact_in_place,
        after_all(started(), events).phase is Done ==> !after_all(started(), events).part_exists
            && after_all(started(), events).artifact_in_place,
    decreases events.len(),
{
    if events.len() > 0 {
        lemma_download_leaves_no_partial_file(events.drop_last());
    }
}

/// The count of bytes never goes down, a progress report always carries a
/// count above the one before it, and a download that is over stays as it
/// is.
pub proof fn lemma_progress_grows(before: Progress, event: IoEvent)
    requires
        files_in_order(before),
    ensures
        files_in_order(after(before, event)),
        after(before, event).bytes_downloaded >= before.bytes_downloaded,
        reaction_to(before, event).report matches Some(DownloadMsg::Progress(count, _))
            ==> count > before.bytes_downloaded,
        before.phase is Done || before.phase is Failed ==> after(before, event) == before,
{
}

impl View for DownloadState {
    type V = Progress;

    closed spec fn view(&self) -> Progress {
        Progress {
            phase: self.phase,
            bytes_downloaded: self.bytes_downloaded,
            total_bytes: self.total_bytes,
            part_exists: self.part_exists,
            artifact_in_place: self.artifact_in_place,
        }
    }
}

impl DownloadState {
    /// The path at which the artifact is to stand.
    pub closed spec fn target_of(&self) -> Seq<char> {
        self.target_path@
    }

    /// The path of the partial file.
    pub closed spec fn part_of(&self) -> Seq<char> {
        self.part_path@
    }

    /// A download of the artifact that is to stand at `target_path`. The
    /// first thing to do is to send the request.
    pub fn begin(target_path: &str) -> (download: DownloadState)
        ensures
            download@ == started(),
            download.target_of() == target_path@,
            download.part_of() == part_path_of(target_path@),
    {
        DownloadState {
            phase: Phase::AwaitingResponse,
            bytes_downloaded: 0,
            total_bytes: None,
            target_path: target_path.to_owned(),
            part_path: joined(target_path, PART_SUFFIX),
            part_exists: false,
            artifact_in_place: false,
        }
    }

    /// The path at which the artifact is to stand.
    pub fn target_path(&self) -> (path: &str)
        ensures
            path@ == self.target_of(),
    {
        self.target_path.as_str()
    }

    /// The path of the partial file.
    pub fn part_path(&self) -> (path: &str)
        ensures
            path@ == self.part_of(),
    {
        self.part_path.as_str()
    }

    /// Where the download stands.
    pub fn phase(&self) -> (phase: Phase)
        ensures
            phase == self@.phase,
    {
        self.phase
    }

    /// How many bytes have reached the disk.
    pub fn bytes_downloaded(&self) -> (count: u64)
        ensures
            count == self@.bytes_downloaded,
    {
        self.bytes_downloaded
    }

    /// How many bytes there are in all, where the server said so.
    pub fn total_bytes(&self) -> (total: Option<u64>)
        ensures
            total == self@.total_bytes,
    {
        self.total_bytes
    }

    /// Whether the download is over, one way or the other.
    pub fn is_over(&self) -> (over: bool)
        ensures
            over == (self@.phase is Done || self@.phase is Failed),
    {
        match self.phase {
            Phase::Done => true,
            Phase::Failed(_) => true,
            _ => false,
        }
    }

    /// The command that the download waits on.
    pub fn pending(&self) -> (command: Command)
        ensures
            command == pending_command(self@.phase),
    {
        match self.phase {
            Phase::AwaitingResponse => Command::SendRequest,
            Phase::CreatingPart => Command::CreatePart,
            Phase::Reading => Command::ReadChunk,
            Phase::Writing(n) => Command::WriteChunk(n),
            Phase::Renaming => Command::RenamePart,
            Phase::CleaningUp(_) => Command::RemovePart,
            Phase::Done => Command::Stop,
            Phase::Failed(_) => Command::Stop,
        }
    }

    fn fail(&mut self, failure: DownloadFailure)
        ensures
            final(self)@ == failing(old(self)@, failure),
            final(self).target_of() == old(self).target_of(),
            final(self).part_of() == old(self).part_of(),
    {
        self.phase = Phase::CleaningUp(failure);
    }

    /// Takes in how the last command went, and answers with what to tell
    /// the orchestration and what to do next.
    pub fn advance(&mut self, event: IoEvent) -> (reaction: Reaction)
        ensures
            final(self)@ == after(old(self)@, event),
            reaction == reaction_to(old(self)@, event),
            final(self).target_of() == old(self).target_of(),
            final(self).part_of() == old(self).part_of(),
    {
        let mut report: Option<DownloadMsg> = None;
        match (self.phase, event) {
            (Phase::AwaitingResponse, IoEvent::Responded { status, content_length }) => {
                if 200 <= status && status < 300 {
                    self.phase = Phase::CreatingPart;
                    self.total_bytes = content_length;
                } else {
                    self.fail(DownloadFailure::HttpStatus(status));
                }
            },
            (Phase::AwaitingResponse, IoEvent::RequestFailed) => {
                self.fail(DownloadFailure::Request);
            },
            (Phase::CreatingPart, IoEvent::PartCreated) => {
                self.phase = Phase::Reading;
                self.part_exists = true;
            },
            (Phase::CreatingPart, IoEvent::CreateFailed) => {
                self.fail(DownloadFailure::CreateFile);
            },
            (Phase::Reading, IoEvent::ChunkRead(n)) => {
                if n == 0 {
                    self.phase = Phase::Renaming;
                } else {
                    self.phase = Phase::Writing(n);
                }
            },
            (Phase::Reading, IoEvent::ReadFailed) => {
                self.fail(DownloadFailure::Read);
            },
            (Phase::Writing(n), IoEvent::ChunkWritten) => {
                match self.bytes_downloaded.checked_add(n as u64) {
                    Some(count) => {
                        self.phase = Phase::Reading;
                        self.bytes_downloaded = count;
                        report = Some(DownloadMsg::Progress(count, self.total_bytes));
                    },
                    None => {
                        self.fail(DownloadFailure::TooLarge);
                    },
                }
            },
            (Phase::Writing(_), IoEvent::WriteFailed) => {
                self.fail(DownloadFailure::Write);
            },
            (Phase::Renaming, IoEvent::Renamed) => {
                self.phase = Phase::Done;
                self.part_exists = false;
                self.artifact_in_place = true;
                report = Some(DownloadMsg::Done);
            },
            (Phase::Renaming, IoEvent::RenameFailed) => {
                self.fail(DownloadFailure::Rename);
            },
            (Phase::CleaningUp(failure), IoEvent::PartRemoved) => {
                self.phase = Phase::Failed(failure);
                self.part_exists = false;
                report = Some(DownloadMsg::Error(failure));
            },
            _ => {},
        }
        Reaction { report, next: self.pending() }
    }
}

/// Of the messages that arrived since the last look, the one to act on: the
/// newest. Earlier ones are progress counts that it supersedes.
pub fn latest(messages: &Vec<DownloadMsg>) -> (newest: Option<DownloadMsg>)
    ensures
        newest == (if messages@.len() == 0 {
            None
        } else {
            Some(messages@.last())
        }),
{
    if messages.len() == 0 {
        None
    } else {
        Some(messages[messages.len() - 1])
    }
}

} // verus!
