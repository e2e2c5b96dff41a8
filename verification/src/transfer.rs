//! One resumable transfer as a state machine. The caller performs what an
//! [`Action`] asks for (send a request, look at the file system, ask the
//! user, write the body) and reports what came of it; every decision of the
//! transfer is taken here.
use crate::downloader::DownloadState;
use crate::error::DownloadError;
use crate::foreign::{header_entries, header_value_ok, no_headers};
use crate::headers::{empty_headers, is_header_value, oci_entries, oci_request_headers};
use crate::path::{join, join_chars, parent, parent_chars};
use crate::resume::{
    range_info, restart_needed, resume_entries, sidecar_identity, DownloadMeta, ResponseHead,
    ResumeSupport, Sidecar,
};
use crate::text::{chars_of, string_of};
use crate::utils::{
    copy_opt, disposition_filename, extract_filename, has_elf_magic, is_elf, opt_text, FileMode,
};
use reqwest::header::HeaderMap;
use vstd::prelude::*;
use vstd::string::StringExecFns;

verus! {

/// What a transfer writes to.
#[derive(Clone, Copy, Debug, PartialEq, Eq, Structural)]
pub enum TransferKind {
    /// A file, named by the caller, the server or the URL.
    File,
    /// The standard output; nothing is kept on disk.
    Stdout,
    /// A file that holds one layer of a registry artifact.
    Layer,
}

/// Where a transfer stands.
#[derive(Clone, Copy, Debug, PartialEq, Eq, Structural)]
pub enum Phase {
    /// Nothing was sent yet.
    Created,
    /// A request is under way.
    Requested,
    /// The caller looks for the target and the part file.
    Probing,
    /// The user is asked whether to overwrite.
    Asking,
    /// The body is being read.
    Receiving,
    /// The part file is being moved to the target.
    Storing,
    /// The transfer has ended.
    Finished,
}

/// What is fixed when a transfer is set up.
pub struct Plan {
    pub kind: TransferKind,
    /// The URL that is fetched, as errors report it.
    pub url: String,
    /// Whether the caller named the target file in full.
    pub explicit: bool,
    /// The target as far as it is known before the server answers.
    pub provisional_path: String,
    /// The directory in which a name from the server is placed.
    pub final_dir: Option<String>,
    pub part_path: String,
    pub meta_path: String,
    pub file_mode: FileMode,
    pub extract_archive: bool,
    pub extract_dir: Option<String>,
}

/// The state of one transfer.
pub struct Transfer {
    pub plan: Plan,
    pub phase: Phase,
    /// How often the transfer was started over.
    pub attempt: u8,
    /// How many bytes the part file holds.
    pub downloaded: u64,
    pub etag: Option<String>,
    pub last_modified: Option<String>,
    pub remote_etag: Option<String>,
    pub remote_modified: Option<String>,
    /// Whether the answer asks for the part file to be cut back.
    pub truncate: bool,
    /// The total size that the answer announces.
    pub total: u64,
    /// The file that the transfer ends in, once the server has answered.
    pub target: String,
}

/// What the caller is to do next.
pub enum Action {
    /// Remove the part file and its sidecar if `discard` is set, then send
    /// the request with these headers.
    Send { discard: bool, headers: HeaderMap },
    /// Find out whether the target and the part file exist.
    Probe,
    /// Ask the user whether the target may be overwritten.
    Ask,
    /// Remove the target if `remove_target` is set; open the part file, cut
    /// to nothing if `truncate` is set, else for appending; write `meta` to
    /// the sidecar; then read the body.
    Open { remove_target: bool, truncate: bool, total: u64, meta: DownloadMeta },
    /// Copy the body to the standard output.
    Pipe,
    /// Move the part file to the target and remove the sidecar; then read
    /// the first bytes of the target.
    Store,
    /// Make the target executable if `make_executable` is set, unpack it
    /// into `extract_to` if that is given; the transfer is complete.
    Conclude { make_executable: bool, extract_to: Option<String> },
    /// Nothing is left to do; nothing more was transferred.
    Done,
    /// The transfer failed.
    Fail(DownloadError),
}

/// How an answer is taken.
pub enum Verdict {
    /// The partial download is thrown away and the request sent again.
    Restart,
    /// The status is reported as an error.
    Refuse,
    /// The body is what was asked for.
    Accept,
}

/// What to do about a target that may exist.
pub enum Overwrite {
    /// Leave the existing target; transfer nothing.
    Keep,
    /// Remove the existing target and transfer.
    Replace,
    /// Ask the user.
    Ask,
    /// Transfer.
    Proceed,
}

/// The files of one target as the transfer sees them.
pub struct Files {
    pub target: bool,
    pub part: bool,
    pub meta: bool,
}

/// An optional text, where it can be sent as a header value.
pub open spec fn usable(value: Option<Seq<char>>) -> Option<Seq<char>> {
    match value {
        Some(text) => if header_value_ok(text) {
            Some(text)
        } else {
            None
        },
        None => None,
    }
}

/// A changed or refused resource restarts the transfer once; after that, a
/// status that is no success is refused.
pub open spec fn response_verdict(attempt: u8, status: u16, changed: bool) -> Verdict {
    if changed && attempt == 0 {
        Verdict::Restart
    } else if !(200 <= status < 300) {
        Verdict::Refuse
    } else {
        Verdict::Accept
    }
}

/// The file that a transfer ends in: the caller's, where it named one in
/// full; else the name that the server announces, under the output
/// directory if there is one; else the provisional path.
pub open spec fn resolved_target(
    explicit: bool,
    provisional: Seq<char>,
    final_dir: Option<Seq<char>>,
    announced: Option<Seq<char>>,
) -> Seq<char> {
    if explicit {
        provisional
    } else {
        match announced {
            Some(name) => match final_dir {
                Some(dir) => join(dir, name),
                None => name,
            },
            None => provisional,
        }
    }
}

/// The overwrite mode decides only where the target exists and no partial
/// download is under way. A layer is never asked about.
pub open spec fn overwrite_verdict(
    kind: TransferKind,
    mode: FileMode,
    target_exists: bool,
    part_exists: bool,
) -> Overwrite {
    if target_exists && !part_exists {
        match mode {
            FileMode::SkipExisting => Overwrite::Keep,
            FileMode::ForceOverwrite => Overwrite::Replace,
            FileMode::PromptOverwrite => if kind is Layer {
                Overwrite::Replace
            } else {
                Overwrite::Ask
            },
        }
    } else {
        Overwrite::Proceed
    }
}

/// The part file starts empty when the answer asks for it or nothing is
/// there yet.
pub open spec fn starts_afresh(truncate: bool, downloaded: u64) -> bool {
    truncate || downloaded == 0
}

/// The byte count after a chunk; it stops at the largest number.
pub open spec fn counted(downloaded: u64, len: u64) -> u64 {
    if downloaded + len <= u64::MAX {
        (downloaded + len) as u64
    } else {
        u64::MAX
    }
}

/// The byte count after a run of chunks.
pub open spec fn counted_all(start: u64, chunks: Seq<u64>) -> u64
    decreases chunks.len(),
{
    if chunks.len() == 0 {
        start
    } else {
        counted(counted_all(start, chunks.drop_last()), chunks.last())
    }
}

/// The sum of the lengths of a run of chunks.
pub open spec fn total_length(chunks: Seq<u64>) -> nat
    decreases chunks.len(),
{
    if chunks.len() == 0 {
        0
    } else {
        total_length(chunks.drop_last()) + chunks.last() as nat
    }
}

/// The directory into which an archive at `target` is unpacked: the one
/// asked for, else the directory that holds the target, else `.`.
pub open spec fn extraction_dir(
    extract_dir: Option<Seq<char>>,
    target: Seq<char>,
    current_dir: Seq<char>,
) -> Seq<char> {
    match extract_dir {
        Some(dir) => dir,
        None => match parent(join(current_dir, target)) {
            Some(dir) => dir,
            None => seq!['.'],
        },
    }
}

/// What carrying out `action` does to the files of the target.
pub open spec fn effect(action: Action, files: Files) -> Files {
    match action {
        Action::Send { discard, .. } => if discard {
            Files { target: files.target, part: false, meta: false }
        } else {
            files
        },
        Action::Open { remove_target, .. } => Files {
            target: files.target && !remove_target,
            part: true,
            meta: true,
        },
        Action::Store => Files { target: true, part: false, meta: false },
        _ => files,
    }
}

/// The files of a target are tidy when the part file and its sidecar stand
/// or fall together, and not beside the target.
pub open spec fn tidy(files: Files) -> bool {
    files.part == files.meta && !(files.target && files.part)
}

/// Keeps an optional text only where it can be sent as a header value.
pub fn keep_usable(value: &Option<String>) -> (r: Option<String>)
    ensures
        opt_text(r) == usable(opt_text(*value)),
{
    match value {
        Some(text) => if is_header_value(text.as_str()) {
            Some(String::from_str(text.as_str()))
        } else {
            None
        },
        None => None,
    }
}

impl Action {
    /// The state that carrying out this action makes known to whoever
    /// watches a file download: the expected size when the body is about to
    /// be read, completion at the end.
    pub open spec fn announces(self) -> Option<DownloadState> {
        match self {
            Action::Open { total, .. } => Some(DownloadState::Preparing(total)),
            Action::Conclude { .. } => Some(DownloadState::Complete),
            _ => None,
        }
    }

    /// Whether carrying out this action changes a file of the target.
    pub open spec fn touches_files(self) -> bool {
        ||| self is Open
        ||| self is Store
        ||| self matches Action::Send { discard, .. } && discard
    }

    /// The state to report when this action is carried out, if any.
    pub fn announcement(&self) -> (r: Option<DownloadState>)
        ensures
            r == self.announces(),
    {
        match self {
            Action::Open { total, .. } => Some(DownloadState::Preparing(*total)),
            Action::Conclude { .. } => Some(DownloadState::Complete),
            _ => None,
        }
    }
}

impl Transfer {
    /// The identity texts can be sent as header values, and a transfer to
    /// the standard output resumes nothing and never comes to look at the
    /// file system.
    pub open spec fn wf(&self) -> bool {
        &&& self.etag matches Some(t) ==> header_value_ok(t@)
        &&& self.last_modified matches Some(t) ==> header_value_ok(t@)
        &&& self.remote_etag matches Some(t) ==> header_value_ok(t@)
        &&& self.remote_modified matches Some(t) ==> header_value_ok(t@)
        &&& self.plan.kind is Stdout ==> self.downloaded == 0 && self.etag is None
            && self.last_modified is None && !(self.phase is Probing) && !(self.phase is Asking)
            && !(self.phase is Storing)
    }

    /// From `before` to `after` nothing has changed but, at most, the phase
    /// and the byte count.
    pub open spec fn keeps(before: Transfer, after: Transfer) -> bool {
        &&& after.plan == before.plan
        &&& after.attempt == before.attempt
        &&& after.etag == before.etag
        &&& after.last_modified == before.last_modified
        &&& Self::keeps_answer(before, after)
    }

    /// From `before` to `after` what was taken from the server's answer has
    /// not changed.
    pub open spec fn keeps_answer(before: Transfer, after: Transfer) -> bool {
        &&& after.target == before.target
        &&& after.remote_etag == before.remote_etag
        &&& after.remote_modified == before.remote_modified
        &&& after.truncate == before.truncate
        &&& after.total == before.total
    }

    /// The headers that every request of this kind of transfer carries.
    pub open spec fn base_entries(kind: TransferKind) -> Map<Seq<char>, Seq<Seq<u8>>> {
        if kind is Layer {
            oci_entries()
        } else {
            no_headers()
        }
    }

    /// The headers of the request that the transfer sends in its state.
    pub open spec fn request_entries(&self) -> Map<Seq<char>, Seq<Seq<u8>>> {
        resume_entries(
            Self::base_entries(self.plan.kind),
            self.downloaded,
            opt_text(self.etag),
            opt_text(self.last_modified),
        )
    }

    /// A transfer that has sent nothing yet.
    pub fn new(plan: Plan) -> (transfer: Transfer)
        ensures
            transfer.wf(),
            transfer.plan == plan,
            transfer.phase is Created,
            transfer.attempt == 0,
            transfer.downloaded == 0,
            transfer.target@ == plan.provisional_path@,
    {
        let target = String::from_str(plan.provisional_path.as_str());
        Transfer {
            plan,
            phase: Phase::Created,
            attempt: 0,
            downloaded: 0,
            etag: None,
            last_modified: None,
            remote_etag: None,
            remote_modified: None,
            truncate: false,
            total: 0,
            target,
        }
    }

    /// Builds the request for the state the transfer is in.
    fn request(&self) -> (headers: HeaderMap)
        requires
            self.wf(),
        ensures
            header_entries(headers) == self.request_entries(),
    {
        let mut headers = match self.plan.kind {
            TransferKind::Layer => oci_request_headers(),
            _ => empty_headers(),
        };
        ResumeSupport::prepare_resume_headers(
            &mut headers,
            self.downloaded,
            &self.etag,
            &self.last_modified,
        );
        headers
    }

    /// Starts the transfer from what is on disk: the sidecar, and the size
    /// of the part file if there is one. A transfer to the standard output
    /// takes neither into account.
    pub fn start(&mut self, sidecar: Sidecar, part_size: Option<u64>) -> (action: Action)
        requires
            old(self).wf(),
            old(self).phase is Created,
        ensures
            final(self).wf(),
            final(self).plan == old(self).plan,
            Self::keeps_answer(*old(self), *final(self)),
            final(self).target == old(self).target,
            final(self).phase is Requested,
            final(self).attempt == 0,
            final(self).downloaded == if old(self).plan.kind is Stdout {
                0
            } else {
                match part_size {
                    Some(size) => size,
                    None => 0,
                }
            },
            opt_text(final(self).etag) == if old(self).plan.kind is Stdout {
                None
            } else {
                usable(opt_text(sidecar_identity(sidecar).0))
            },
            opt_text(final(self).last_modified) == if old(self).plan.kind is Stdout {
                None
            } else {
                usable(opt_text(sidecar_identity(sidecar).1))
            },
            action matches Action::Send { discard, headers } && !discard && header_entries(headers)
                == final(self).request_entries(),
            !action.touches_files(),
    {
        let (etag, last_modified) = ResumeSupport::read_metadata(sidecar);
        match self.plan.kind {
            TransferKind::Stdout => {
                self.etag = None;
                self.last_modified = None;
                self.downloaded = 0;
            },
            _ => {
                self.etag = keep_usable(&etag);
                self.last_modified = keep_usable(&last_modified);
                self.downloaded = match part_size {
                    Some(size) => size,
                    None => 0,
                };
            },
        }
        self.attempt = 0;
        self.phase = Phase::Requested;
        let headers = self.request();
        Action::Send { discard: false, headers }
    }

    /// Takes the head of the server's answer.
    pub fn on_response(&mut self, head: &ResponseHead) -> (action: Action)
        requires
            old(self).wf(),
            old(self).phase is Requested,
        ensures
            final(self).wf(),
            final(self).plan == old(self).plan,
            old(self).plan.kind is Stdout ==> !action.touches_files(),
            match response_verdict(
                old(self).attempt,
                head.status,
                restart_needed(
                    head.status,
                    opt_text(old(self).etag),
                    opt_text(old(self).last_modified),
                    usable(opt_text(head.etag)),
                    usable(opt_text(head.last_modified)),
                ),
            ) {
                Verdict::Restart => {
                    &&& Self::keeps_answer(*old(self), *final(self))
                    &&& final(self).phase is Requested
                    &&& final(self).attempt == 1
                    &&& final(self).downloaded == 0
                    &&& opt_text(final(self).etag) == if old(self).plan.kind is Stdout {
                        None
                    } else {
                        usable(opt_text(head.etag))
                    }
                    &&& opt_text(final(self).last_modified) == if old(self).plan.kind is Stdout {
                        None
                    } else {
                        usable(opt_text(head.last_modified))
                    }
                    &&& action matches Action::Send { discard, headers } && discard == !(old(self).plan.kind is Stdout) && header_entries(headers) == final(self).request_entries()
                },
                Verdict::Refuse => {
                    &&& Self::keeps(*old(self), *final(self))
                    &&& final(self).downloaded == old(self).downloaded
                    &&& final(self).phase is Finished
                    &&& action matches Action::Fail(DownloadError::ResourceError { url, status })
                        && url@ == old(self).plan.url@ && status == head.status
                },
                Verdict::Accept => {
                    &&& final(self).attempt == old(self).attempt
                    &&& final(self).downloaded == old(self).downloaded
                    &&& final(self).etag == old(self).etag
                    &&& final(self).last_modified == old(self).last_modified
                    &&& if old(self).plan.kind is Stdout {
                        final(self).phase is Receiving && action is Pipe && Self::keeps(
                            *old(self),
                            *final(self),
                        )
                    } else {
                        &&& final(self).phase is Probing
                        &&& action is Probe
                        &&& final(self).target@ == resolved_target(
                            old(self).plan.explicit,
                            old(self).plan.provisional_path@,
                            opt_text(old(self).plan.final_dir),
                            match head.content_disposition {
                                Some(value) => disposition_filename(value@),
                                None => None,
                            },
                        )
                        &&& (final(self).truncate, final(self).total) == range_info(
                            opt_text(head.content_range),
                            head.content_length,
                            old(self).downloaded,
                        )
                        &&& opt_text(final(self).remote_etag) == usable(opt_text(head.etag))
                        &&& opt_text(final(self).remote_modified) == usable(
                            opt_text(head.last_modified),
                        )
                    }
                },
            },
    {
        let remote_etag = keep_usable(&head.etag);
        let remote_modified = keep_usable(&head.last_modified);
        let changed = ResumeSupport::should_restart_download(
            head.status,
            &self.etag,
            &self.last_modified,
            &remote_etag,
            &remote_modified,
        );
        if changed && self.attempt == 0 {
            let discard = match self.plan.kind {
                TransferKind::Stdout => false,
                _ => {
                    self.etag = remote_etag;
                    self.last_modified = remote_modified;
                    true
                },
            };
            self.downloaded = 0;
            self.attempt = 1;
            let headers = self.request();
            return Action::Send { discard, headers };
        }
        if !(200 <= head.status && head.status < 300) {
            self.phase = Phase::Finished;
            return Action::Fail(
                DownloadError::ResourceError {
                    url: String::from_str(self.plan.url.as_str()),
                    status: head.status,
                },
            );
        }
        match self.plan.kind {
            TransferKind::Stdout => {
                self.phase = Phase::Receiving;
                return Action::Pipe;
            },
            _ => {},
        }
        let announced = match &head.content_disposition {
            Some(value) => extract_filename(value.as_str()),
            None => None,
        };
        self.target = if self.plan.explicit {
            String::from_str(self.plan.provisional_path.as_str())
        } else {
            match announced {
                Some(name) => match &self.plan.final_dir {
                    Some(dir) => {
                        let d = chars_of(dir.as_str());
                        let n = chars_of(name.as_str());
                        string_of(&join_chars(&d, &n))
                    },
                    None => name,
                },
                None => String::from_str(self.plan.provisional_path.as_str()),
            }
        };
        let (truncate, total) = ResumeSupport::extract_range_info(head, self.downloaded);
        self.truncate = truncate;
        self.total = total;
        self.remote_etag = remote_etag;
        self.remote_modified = remote_modified;
        self.phase = Phase::Probing;
        Action::Probe
    }

    /// What opening the part file comes to in a state: the part file starts
    /// empty or is appended to, and the sidecar takes the server's identity.
    pub open spec fn opens(before: Transfer, after: Transfer, action: Action, remove: bool) -> bool {
        &&& after.phase is Receiving
        &&& after.downloaded == if starts_afresh(before.truncate, before.downloaded) {
            0
        } else {
            before.downloaded
        }
        &&& action matches Action::Open { remove_target, truncate, total, meta }
        &&& remove_target == remove
        &&& truncate == starts_afresh(before.truncate, before.downloaded)
        &&& total == before.total
        &&& opt_text(meta.etag) == opt_text(before.remote_etag)
        &&& opt_text(meta.last_modified) == opt_text(before.remote_modified)
    }

    /// Moves on to reading the body.
    fn open(&mut self, remove_target: bool) -> (action: Action)
        requires
            old(self).wf(),
        ensures
            final(self).wf(),
            final(self).plan == old(self).plan,
            Self::keeps(*old(self), *final(self)),
            final(self).target == old(self).target,
            final(self).attempt == old(self).attempt,
            Self::opens(*old(self), *final(self), action, remove_target),
    {
        let truncate = self.truncate || self.downloaded == 0;
        if truncate {
            self.downloaded = 0;
        }
        self.phase = Phase::Receiving;
        let meta = ResumeSupport::write_metadata(
            copy_opt(&self.remote_etag),
            copy_opt(&self.remote_modified),
        );
        Action::Open { remove_target, truncate, total: self.total, meta }
    }

    /// Takes what the caller found on disk: whether the target exists, and
    /// whether the part file does.
    pub fn on_probe(&mut self, target_exists: bool, part_exists: bool) -> (action: Action)
        requires
            old(self).wf(),
            old(self).phase is Probing,
        ensures
            final(self).wf(),
            final(self).plan == old(self).plan,
            Self::keeps(*old(self), *final(self)),
            final(self).target == old(self).target,
            final(self).attempt == old(self).attempt,
            old(self).plan.kind is Stdout ==> !action.touches_files(),
            match overwrite_verdict(
                old(self).plan.kind,
                old(self).plan.file_mode,
                target_exists,
                part_exists,
            ) {
                Overwrite::Keep => final(self).phase is Finished && action is Done && final(self).downloaded == old(self).downloaded,
                Overwrite::Ask => final(self).phase is Asking && action is Ask && final(self).downloaded == old(self).downloaded && final(self).truncate == old(self).truncate
                    && final(self).total == old(self).total && final(self).remote_etag == old(self).remote_etag && final(self).remote_modified == old(self).remote_modified,
                Overwrite::Replace => Self::opens(*old(self), *final(self), action, true),
                Overwrite::Proceed => Self::opens(*old(self), *final(self), action, false),
            },
    {
        if target_exists && !part_exists {
            match self.plan.file_mode {
                FileMode::SkipExisting => {
                    self.phase = Phase::Finished;
                    Action::Done
                },
                FileMode::ForceOverwrite => self.open(true),
                FileMode::PromptOverwrite => match self.plan.kind {
                    TransferKind::Layer => self.open(true),
                    _ => {
                        self.phase = Phase::Asking;
                        Action::Ask
                    },
                },
            }
        } else {
            self.open(false)
        }
    }

    /// Takes the user's answer to whether the target may be overwritten.
    pub fn on_answer(&mut self, proceed: bool) -> (action: Action)
        requires
            old(self).wf(),
            old(self).phase is Asking,
        ensures
            final(self).wf(),
            final(self).plan == old(self).plan,
            Self::keeps(*old(self), *final(self)),
            final(self).target == old(self).target,
            old(self).plan.kind is Stdout ==> !action.touches_files(),
            proceed ==> Self::opens(*old(self), *final(self), action, false),
            !proceed ==> final(self).phase is Finished && action is Done && final(self).downloaded
                == old(self).downloaded,
    {
        if proceed {
            self.open(false)
        } else {
            self.phase = Phase::Finished;
            Action::Done
        }
    }

    /// Counts a chunk of `len` bytes that was written to the part file;
    /// returns the state to report.
    pub fn on_chunk(&mut self, len: u64) -> (progress: DownloadState)
        requires
            old(self).wf(),
            old(self).phase is Receiving,
        ensures
            final(self).wf(),
            final(self).plan == old(self).plan,
            Self::keeps(*old(self), *final(self)),
            final(self).target == old(self).target,
            final(self).phase is Receiving,
            final(self).downloaded == if old(self).plan.kind is Stdout {
                0
            } else {
                counted(old(self).downloaded, len)
            },
            progress == DownloadState::Progress(final(self).downloaded),
    {
        match self.plan.kind {
            TransferKind::Stdout => {},
            _ => {
                self.downloaded = self.downloaded.saturating_add(len);
            },
        }
        DownloadState::Progress(self.downloaded)
    }

    /// Takes the failure to read a chunk of the body.
    pub fn on_chunk_error(&mut self) -> (action: Action)
        requires
            old(self).wf(),
            old(self).phase is Receiving,
        ensures
            final(self).wf(),
            final(self).plan == old(self).plan,
            Self::keeps(*old(self), *final(self)),
            final(self).downloaded == old(self).downloaded,
            final(self).phase is Finished,
            action == Action::Fail(DownloadError::ChunkError),
            !action.touches_files(),
    {
        self.phase = Phase::Finished;
        Action::Fail(DownloadError::ChunkError)
    }

    /// Takes the end of the body.
    pub fn on_body_end(&mut self) -> (action: Action)
        requires
            old(self).wf(),
            old(self).phase is Receiving,
        ensures
            final(self).wf(),
            final(self).plan == old(self).plan,
            Self::keeps(*old(self), *final(self)),
            final(self).target == old(self).target,
            final(self).downloaded == old(self).downloaded,
            old(self).plan.kind is Stdout ==> final(self).phase is Finished && action is Done,
            !(old(self).plan.kind is Stdout) ==> final(self).phase is Storing && action is Store,
            old(self).plan.kind is Stdout ==> !action.touches_files(),
    {
        match self.plan.kind {
            TransferKind::Stdout => {
                self.phase = Phase::Finished;
                Action::Done
            },
            _ => {
                self.phase = Phase::Storing;
                Action::Store
            },
        }
    }

    /// Takes the first bytes of the stored target, and the directory that
    /// relative paths are resolved against.
    pub fn on_stored(&mut self, head: &[u8], current_dir: &str) -> (action: Action)
        requires
            old(self).wf(),
            old(self).phase is Storing,
        ensures
            final(self).wf(),
            final(self).plan == old(self).plan,
            Self::keeps(*old(self), *final(self)),
            final(self).target == old(self).target,
            final(self).downloaded == old(self).downloaded,
            final(self).phase is Finished,
            !action.touches_files(),
            action matches Action::Conclude { make_executable, extract_to } && make_executable
                == has_elf_magic(head@) && opt_text(extract_to) == if old(self).plan.kind is File
                && old(self).plan.extract_archive {
                Some(
                    extraction_dir(
                        opt_text(old(self).plan.extract_dir),
                        old(self).target@,
                        current_dir@,
                    ),
                )
            } else {
                None
            },
    {
        self.phase = Phase::Finished;
        let make_executable = is_elf(head);
        let wanted = match self.plan.kind {
            TransferKind::File => self.plan.extract_archive,
            _ => false,
        };
        let extract_to = if wanted {
            match &self.plan.extract_dir {
                Some(dir) => Some(String::from_str(dir.as_str())),
                None => {
                    let absolute = join_chars(
                        &chars_of(current_dir),
                        &chars_of(self.target.as_str()),
                    );
                    match parent_chars(&absolute) {
                        Some(dir) => Some(string_of(&dir)),
                        None => {
                            proof {
                                reveal_strlit(".");
                                assert("."@ =~= seq!['.']);
                            }
                            Some(String::from_str("."))
                        },
                    }
                },
            }
        } else {
            None
        };
        Action::Conclude { make_executable, extract_to }
    }

    /// The path that the transfer reports as its result: `-` for the
    /// standard output, else the target.
    pub fn result_path(&self) -> (r: String)
        ensures
            r@ == if self.plan.kind is Stdout {
                seq!['-']
            } else {
                self.target@
            },
    {
        match self.plan.kind {
            TransferKind::Stdout => {
                proof {
                    reveal_strlit("-");
                    assert("-"@ =~= seq!['-']);
                }
                String::from_str("-")
            },
            _ => String::from_str(self.target.as_str()),
        }
    }
}

/// After a restart neither the part file nor its sidecar is left.
pub proof fn lemma_restart_clears_pair(action: Action, files: Files)
    requires
        action matches Action::Send { discard, .. } && discard,
    ensures
        !effect(action, files).part,
        !effect(action, files).meta,
{
}

/// After the body was stored only the target is left.
pub proof fn lemma_store_leaves_target(action: Action, files: Files)
    requires
        action is Store,
    ensures
        effect(action, files).target,
        !effect(action, files).part,
        !effect(action, files).meta,
{
}

/// Tidy files stay tidy through what the transfer does after it has looked
/// at them, as long as the user is not asked: where nothing is in the way
/// the part file and its sidecar are opened, an existing target is removed
/// first or left alone.
pub proof fn lemma_probe_keeps_tidy(
    kind: TransferKind,
    mode: FileMode,
    files: Files,
    action: Action,
)
    requires
        tidy(files),
        match overwrite_verdict(kind, mode, files.target, files.part) {
            Overwrite::Keep => action is Done,
            Overwrite::Replace => action matches Action::Open { remove_target, .. }
                && remove_target,
            Overwrite::Proceed => action matches Action::Open { remove_target, .. }
                && !remove_target,
            Overwrite::Ask => false,
        },
    ensures
        tidy(effect(action, files)),
{
}

/// A transfer that restarts, stores or fails keeps tidy files tidy.
pub proof fn lemma_other_actions_keep_tidy(action: Action, files: Files)
    requires
        tidy(files),
        !(action is Open),
        action is Store ==> files.part,
    ensures
        tidy(effect(action, files)),
{
}

/// The byte count after a run of chunks is the count before plus the
/// lengths of the chunks, as far as 64 bits hold it.
pub proof fn lemma_count_is_sum(start: u64, chunks: Seq<u64>)
    ensures
        counted_all(start, chunks) == if start + total_length(chunks) <= u64::MAX {
            (start + total_length(chunks)) as u64
        } else {
            u64::MAX
        },
    decreases chunks.len(),
{
    if chunks.len() > 0 {
        lemma_count_is_sum(start, chunks.drop_last());
    }
}

/// A transfer whose part file holds `start` bytes and whose body brings
/// what is missing of the announced total reports that total in the end.
pub proof fn lemma_progress_reaches_total(start: u64, total: u64, chunks: Seq<u64>)
    requires
        start + total_length(chunks) == total,
    ensures
        counted_all(start, chunks) == total,
{
    lemma_count_is_sum(start, chunks);
}

/// The byte count never goes down.
pub proof fn lemma_count_grows(start: u64, chunks: Seq<u64>, len: u64)
    ensures
        counted_all(start, chunks) <= counted_all(start, chunks.push(len)),
{
    assert(chunks.push(len).drop_last() == chunks);
}

/// Where the target exists and no partial download is under way, the mode
/// that skips keeps the target and the mode that forces replaces it.
pub proof fn lemma_existing_target(kind: TransferKind)
    ensures
        overwrite_verdict(kind, FileMode::SkipExisting, true, false) is Keep,
        overwrite_verdict(kind, FileMode::ForceOverwrite, true, false) is Replace,
{
}

/// A server that sends the range that was asked for has the body appended
/// to what is there.
pub proof fn lemma_resume_appends(
    content_range: Seq<char>,
    content_length: Option<u64>,
    downloaded: u64,
)
    requires
        downloaded > 0,
        crate::resume::range_start(content_range) == Some(downloaded),
    ensures
        !range_info(Some(content_range), content_length, downloaded).0,
        !starts_afresh(
            range_info(Some(content_range), content_length, downloaded).0,
            downloaded,
        ),
{
}

/// A resource whose entity tag has changed restarts the transfer, and the
/// request that follows asks for no range.
pub proof fn lemma_changed_tag_restarts(
    status: u16,
    etag: Seq<char>,
    remote_etag: Seq<char>,
    last_modified: Option<Seq<char>>,
    remote_modified: Option<Seq<char>>,
    entries: Map<Seq<char>, Seq<Seq<u8>>>,
)
    requires
        etag != remote_etag,
    ensures
        restart_needed(status, Some(etag), last_modified, Some(remote_etag), remote_modified),
        response_verdict(0, status, true) is Restart,
        resume_entries(entries, 0, Some(remote_etag), remote_modified) == entries,
{
}

/// A server that sends a range which starts elsewhere than where the part
/// file ends has the part file cut to nothing, whatever its status.
pub proof fn lemma_unexpected_range_truncates(
    content_range: Seq<char>,
    content_length: Option<u64>,
    downloaded: u64,
    start: u64,
)
    requires
        crate::resume::range_start(content_range) == Some(start),
        start != downloaded,
    ensures
        range_info(Some(content_range), content_length, downloaded).0,
        starts_afresh(range_info(Some(content_range), content_length, downloaded).0, downloaded),
{
}

/// A part file that holds nothing starts empty, whatever the server sends.
pub proof fn lemma_empty_part_starts_afresh(truncate: bool)
    ensures
        starts_afresh(truncate, 0),
{
}

/// A first 416 restarts the transfer; a second one is reported.
pub proof fn lemma_range_refused_twice(
    etag: Option<Seq<char>>,
    last_modified: Option<Seq<char>>,
    remote_etag: Option<Seq<char>>,
    remote_modified: Option<Seq<char>>,
    changed_again: bool,
)
    ensures
        restart_needed(416, etag, last_modified, remote_etag, remote_modified),
        response_verdict(0, 416, true) is Restart,
        response_verdict(1, 416, changed_again) is Refuse,
{
}

} // verus!
