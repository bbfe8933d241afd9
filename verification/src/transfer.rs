//! The per-file transfer state machine.
//!
//! One machine drives one resumable streaming fetch.  The host performs
//! the I/O that each returned [`TransferAction`] names — writing the
//! marker file, issuing the fetch, appending chunks to the temporary
//! file, renaming it — and feeds every observation back into the next
//! step.  Every decision of the transfer is made, and verified, here.

use vstd::prelude::*;

use crate::decimal::dec_chars;
use crate::decimal::u64_to_string;
use crate::errors::DownloadError;
use crate::opt_str_view;

verus! {

/// Bytes accumulated between two progress reports.
pub const PROGRESS_REPORT_BYTES: u64 = 10 * 1024 * 1024;

/// Where a transfer stands.
pub enum TransferPhase {
    /// Eligibility decided; the marker file write is owed.
    MarkerPending { eligible: bool },
    /// Resuming; the temporary file's current length is owed.
    SizeTmp,
    /// A fetch from `offset` is owed; `offset > 0` means a ranged fetch.
    Request { offset: u64, resumed: bool },
    /// Chunks are streaming into the temporary file.
    Stream { resumed: bool, transferred: u64, delta: u64 },
    /// Terminal: the file is complete and promoted to its final path.
    Done { transferred: u64 },
    /// Terminal: the transfer failed or was cancelled.
    Stopped { error: DownloadError },
}

/// What the host must do next.
#[derive(PartialEq, Eq, Structural, Debug)]
pub enum TransferAction {
    /// Write the current URL into the marker file.
    WriteMarker,
    /// Read the temporary file's length.
    ReadTmpLength,
    /// Issue the fetch: a plain GET when `offset` is zero, otherwise a
    /// GET with a `Range` header asking for bytes from `offset` on.
    Fetch { offset: u64 },
    /// Open the temporary file (append when `append`, else truncate)
    /// and start reading the response body.  When `report` is present,
    /// first record that many bytes for this file and emit the
    /// aggregate progress.
    StartStream { append: bool, report: Option<u64> },
    /// Append the received chunk to the temporary file; when `report`
    /// is present, record it and emit the aggregate progress.
    WriteChunk { report: Option<u64> },
    /// Stop: the transfer was cancelled.  Remove the destination's
    /// parent directory only when `remove_parent` (a fresh transfer);
    /// a resumed transfer's partial file is preserved.
    AbortCancelled { remove_parent: bool },
    /// Stop: the transfer failed; the error stands in the machine.
    Fail,
    /// Flush the writer, record `report` bytes and emit the aggregate
    /// progress, rename the temporary file to the final path, and
    /// delete the marker file.
    FinishUp { report: u64 },
}

/// What came back from an issued fetch.
pub enum FetchOutcome {
    /// The server answered with this status and (on error paths) body.
    Status { status: u16, body: String },
    /// The request itself failed before any response arrived.
    Failed { message: String },
}

/// The machine for one file: the request's URL and the current phase.
pub struct TransferMachine {
    pub url: String,
    pub phase: TransferPhase,
}

/// Resume eligibility: the caller asked to resume, a partial temporary
/// file exists, and the marker file records exactly the requested URL.
pub open spec fn spec_resume_eligible(
    resume_requested: bool,
    tmp_exists: bool,
    marker: Option<Seq<char>>,
    url: Seq<char>,
) -> bool {
    resume_requested && tmp_exists && marker == Some(url)
}

/// The counters never run ahead of each other: the unreported delta is
/// at most the transferred total.
pub open spec fn wf(m: TransferMachine) -> bool {
    m.phase matches TransferPhase::Stream { resumed, transferred, delta } ==> delta <= transferred
}

/// Transition out of `MarkerPending`, once the marker file is written.
pub open spec fn spec_after_marker(p: TransferPhase) -> (TransferPhase, TransferAction)
    recommends
        p matches TransferPhase::MarkerPending { .. },
{
    match p {
        TransferPhase::MarkerPending { eligible } => if eligible {
            (TransferPhase::SizeTmp, TransferAction::ReadTmpLength)
        } else {
            (
                TransferPhase::Request { offset: 0, resumed: false },
                TransferAction::Fetch { offset: 0 },
            )
        },
        _ => (p, TransferAction::Fail),
    }
}

/// Transition out of `SizeTmp`, given the temporary file's length.
pub open spec fn spec_on_tmp_length(p: TransferPhase, len: Result<u64, String>) -> (
    TransferPhase,
    TransferAction,
)
    recommends
        p matches TransferPhase::SizeTmp,
{
    match len {
        Ok(offset) => (
            TransferPhase::Request { offset, resumed: true },
            TransferAction::Fetch { offset },
        ),
        Err(message) => (
            TransferPhase::Stopped { error: DownloadError::Io { message } },
            TransferAction::Fail,
        ),
    }
}

/// Is this answer acceptable for a fetch from `offset`?  A ranged fetch
/// demands partial content; a full fetch demands any success status.
pub open spec fn spec_status_ok(offset: u64, outcome: FetchOutcome) -> bool {
    match outcome {
        FetchOutcome::Status { status, body } => if offset > 0 {
            status == 206
        } else {
            200 <= status < 300
        },
        FetchOutcome::Failed { message } => false,
    }
}

/// Transition out of `Request`, given the fetch's outcome.  A rejected
/// resume falls back to a fresh full fetch; a rejected fresh fetch is
/// fatal.
pub open spec fn spec_on_fetch(p: TransferPhase, outcome: FetchOutcome) -> (
    TransferPhase,
    TransferAction,
)
    recommends
        p matches TransferPhase::Request { .. },
{
    match p {
        TransferPhase::Request { offset, resumed } => if spec_status_ok(offset, outcome) {
            (
                TransferPhase::Stream { resumed, transferred: offset, delta: 0 },
                TransferAction::StartStream {
                    append: resumed,
                    report: if resumed {
                        Some(offset)
                    } else {
                        None
                    },
                },
            )
        } else if resumed {
            (
                TransferPhase::Request { offset: 0, resumed: false },
                TransferAction::Fetch { offset: 0 },
            )
        } else {
            let error = match outcome {
                FetchOutcome::Status { status, body } => DownloadError::Transport {
                    status,
                    message: body,
                },
                FetchOutcome::Failed { message } => DownloadError::Transport { status: 0, message },
            };
            (TransferPhase::Stopped { error }, TransferAction::Fail)
        },
        _ => (p, TransferAction::Fail),
    }
}

/// Transition within `Stream`, given one received chunk.  Cancellation
/// is observed before the chunk is written.
pub open spec fn spec_on_chunk(p: TransferPhase, len: u64, cancelled: bool) -> (
    TransferPhase,
    TransferAction,
)
    recommends
        p matches TransferPhase::Stream { resumed, transferred, delta } && transferred + len
            <= u64::MAX,
{
    match p {
        TransferPhase::Stream { resumed, transferred, delta } => if cancelled {
            (
                TransferPhase::Stopped { error: DownloadError::Cancelled },
                TransferAction::AbortCancelled { remove_parent: !resumed },
            )
        } else {
            let new_transferred = (transferred + len) as u64;
            let new_delta = (delta + len) as u64;
            if new_delta >= PROGRESS_REPORT_BYTES {
                (
                    TransferPhase::Stream { resumed, transferred: new_transferred, delta: 0 },
                    TransferAction::WriteChunk { report: Some(new_transferred) },
                )
            } else {
                (
                    TransferPhase::Stream {
                        resumed,
                        transferred: new_transferred,
                        delta: new_delta,
                    },
                    TransferAction::WriteChunk { report: None },
                )
            }
        },
        _ => (p, TransferAction::Fail),
    }
}

impl TransferMachine {
    /// Decides resume eligibility and starts the transfer.  The marker
    /// file is always (re)written with the current URL first, so a
    /// future resume can validate continuity.
    pub fn start(
        url: String,
        resume_requested: bool,
        tmp_exists: bool,
        marker_url: &Option<String>,
    ) -> (r: (TransferMachine, TransferAction))
        ensures
            r.0.url == url,
            r.0.phase == (TransferPhase::MarkerPending {
                eligible: spec_resume_eligible(
                    resume_requested,
                    tmp_exists,
                    opt_str_view(*marker_url),
                    url@,
                ),
            }),
            r.1 == TransferAction::WriteMarker,
            wf(r.0),
    {
        let matches_marker = match marker_url {
            Some(m) => *m == url,
            None => false,
        };
        let eligible = resume_requested && tmp_exists && matches_marker;
        (
            TransferMachine { url, phase: TransferPhase::MarkerPending { eligible } },
            TransferAction::WriteMarker,
        )
    }

    /// Step once the marker file is written: a resume-eligible transfer
    /// asks for the temporary file's length, any other issues a full
    /// fetch from offset zero.
    pub fn after_marker(&mut self) -> (a: TransferAction)
        requires
            old(self).phase matches TransferPhase::MarkerPending { .. },
        ensures
            final(self).url == old(self).url,
            (final(self).phase, a) == spec_after_marker(old(self).phase),
            wf(*final(self)),
    {
        match self.phase {
            TransferPhase::MarkerPending { eligible } => {
                if eligible {
                    self.phase = TransferPhase::SizeTmp;
                    TransferAction::ReadTmpLength
                } else {
                    self.phase = TransferPhase::Request { offset: 0, resumed: false };
                    TransferAction::Fetch { offset: 0 }
                }
            },
            _ => TransferAction::Fail,
        }
    }

    /// Step once the temporary file's length is read: resume from that
    /// offset; a read failure is fatal.
    pub fn on_tmp_length(&mut self, len: Result<u64, String>) -> (a: TransferAction)
        requires
            old(self).phase matches TransferPhase::SizeTmp,
        ensures
            final(self).url == old(self).url,
            (final(self).phase, a) == spec_on_tmp_length(old(self).phase, len),
            wf(*final(self)),
    {
        match len {
            Ok(offset) => {
                self.phase = TransferPhase::Request { offset, resumed: true };
                TransferAction::Fetch { offset }
            },
            Err(message) => {
                self.phase = TransferPhase::Stopped { error: DownloadError::Io { message } };
                TransferAction::Fail
            },
        }
    }

    /// Step once the fetch is answered.  An accepted answer starts
    /// streaming (appending when resumed, with the resumed bytes
    /// reported up front); a rejected resume falls back to a fresh full
    /// fetch; a rejected fresh fetch stops the transfer.
    pub fn on_fetch(&mut self, outcome: FetchOutcome) -> (a: TransferAction)
        requires
            old(self).phase matches TransferPhase::Request { .. },
        ensures
            final(self).url == old(self).url,
            (final(self).phase, a) == spec_on_fetch(old(self).phase, outcome),
            wf(*final(self)),
    {
        let (offset, resumed) = match self.phase {
            TransferPhase::Request { offset, resumed } => (offset, resumed),
            _ => (0, false),
        };
        let ok = match &outcome {
            FetchOutcome::Status { status, body } => {
                if offset > 0 {
                    *status == 206
                } else {
                    200 <= *status && *status < 300
                }
            },
            FetchOutcome::Failed { message } => false,
        };
        if ok {
            self.phase = TransferPhase::Stream { resumed, transferred: offset, delta: 0 };
            TransferAction::StartStream {
                append: resumed,
                report: if resumed {
                    Some(offset)
                } else {
                    None
                },
            }
        } else if resumed {
            self.phase = TransferPhase::Request { offset: 0, resumed: false };
            TransferAction::Fetch { offset: 0 }
        } else {
            let error = match outcome {
                FetchOutcome::Status { status, body } => DownloadError::Transport {
                    status,
                    message: body,
                },
                FetchOutcome::Failed { message } => DownloadError::Transport { status: 0, message },
            };
            self.phase = TransferPhase::Stopped { error };
            TransferAction::Fail
        }
    }

    /// Step for one received chunk.  Cancellation stops the transfer
    /// (removing the destination's parent directory only when the
    /// transfer was fresh); otherwise the chunk is counted and a
    /// progress report is due whenever the unreported delta reaches
    /// [`PROGRESS_REPORT_BYTES`].
    pub fn on_chunk(&mut self, len: u64, cancelled: bool) -> (a: TransferAction)
        requires
            old(self).phase matches TransferPhase::Stream { resumed, transferred, delta }
                && transferred + len <= u64::MAX,
            wf(*old(self)),
        ensures
            final(self).url == old(self).url,
            (final(self).phase, a) == spec_on_chunk(old(self).phase, len, cancelled),
            wf(*final(self)),
    {
        let (resumed, transferred, delta) = match self.phase {
            TransferPhase::Stream { resumed, transferred, delta } => (resumed, transferred, delta),
            _ => (false, 0, 0),
        };
        if cancelled {
            self.phase = TransferPhase::Stopped { error: DownloadError::Cancelled };
            TransferAction::AbortCancelled { remove_parent: !resumed }
        } else {
            let new_transferred = transferred + len;
            let new_delta = delta + len;
            if new_delta >= PROGRESS_REPORT_BYTES {
                self.phase = TransferPhase::Stream {
                    resumed,
                    transferred: new_transferred,
                    delta: 0,
                };
                TransferAction::WriteChunk { report: Some(new_transferred) }
            } else {
                self.phase = TransferPhase::Stream {
                    resumed,
                    transferred: new_transferred,
                    delta: new_delta,
                };
                TransferAction::WriteChunk { report: None }
            }
        }
    }

    /// Step when the response body fails mid-stream: fatal.
    pub fn on_chunk_failure(&mut self, message: String) -> (a: TransferAction)
        requires
            old(self).phase matches TransferPhase::Stream { .. },
        ensures
            final(self).url == old(self).url,
            final(self).phase == (TransferPhase::Stopped {
                error: DownloadError::Transport { status: 0, message },
            }),
            a == TransferAction::Fail,
            wf(*final(self)),
    {
        self.phase = TransferPhase::Stopped {
            error: DownloadError::Transport { status: 0, message },
        };
        TransferAction::Fail
    }

    /// Step when the stream ends: the transfer is complete, the final
    /// report carries the full transferred total, and the temporary
    /// file is promoted.
    pub fn on_stream_end(&mut self) -> (a: TransferAction)
        requires
            old(self).phase matches TransferPhase::Stream { .. },
        ensures
            final(self).url == old(self).url,
            (old(self).phase matches TransferPhase::Stream { resumed, transferred, delta } ==> {
                &&& final(self).phase == (TransferPhase::Done { transferred })
                &&& a == (TransferAction::FinishUp { report: transferred })
            }),
            wf(*final(self)),
    {
        let transferred = match self.phase {
            TransferPhase::Stream { resumed, transferred, delta } => transferred,
            _ => 0,
        };
        self.phase = TransferPhase::Done { transferred };
        TransferAction::FinishUp { report: transferred }
    }

    /// The error of a stopped transfer, if it stopped.
    pub fn stopped_error(&self) -> (r: Option<&DownloadError>)
        ensures
            match r {
                Some(e) => self.phase matches TransferPhase::Stopped { error } && *e == error,
                None => !(self.phase matches TransferPhase::Stopped { .. }),
            },
    {
        match &self.phase {
            TransferPhase::Stopped { error } => Some(error),
            _ => None,
        }
    }
}

/// The `Range` header value asking for bytes from `offset` on.
pub fn range_header_value(offset: u64) -> (r: String)
    ensures
        r@ == "bytes="@ + dec_chars(offset as nat) + "-"@,
{
    let mut s: String = "bytes=".to_owned();
    let num = u64_to_string(offset);
    s.append(num.as_str());
    s.append("-");
    s
}

/// Law: a transfer whose marker file records a different URL than the
/// current request is never eligible to resume — after the marker step
/// it stands before a full fetch from offset zero, resuming nothing.
pub proof fn lemma_marker_mismatch_restarts(
    resume_requested: bool,
    tmp_exists: bool,
    marker: Option<Seq<char>>,
    url: Seq<char>,
)
    requires
        marker != Some(url),
    ensures
        !spec_resume_eligible(resume_requested, tmp_exists, marker, url),
        spec_after_marker(
            TransferPhase::MarkerPending {
                eligible: spec_resume_eligible(resume_requested, tmp_exists, marker, url),
            },
        ) == (
            TransferPhase::Request { offset: 0, resumed: false },
            TransferAction::Fetch { offset: 0 },
        ),
{
}

/// Law: a resume attempt answered by anything but a partial-content
/// status falls back to exactly the state of a transfer that was never
/// eligible to resume: both stand before a full fetch from offset zero,
/// not resumed, so the fallback continues as a fresh transfer would.
pub proof fn lemma_resume_fallback_matches_fresh(
    offset: u64,
    outcome: FetchOutcome,
    fresh: TransferPhase,
)
    requires
        offset > 0,
        !spec_status_ok(offset, outcome),
        fresh == (TransferPhase::MarkerPending { eligible: false }),
    ensures
        spec_on_fetch(TransferPhase::Request { offset, resumed: true }, outcome)
            == spec_after_marker(fresh),
{
}

/// Law: cancelling mid-transfer removes the destination's parent
/// directory exactly when the transfer was fresh; a resumed transfer's
/// partial temporary file is left intact for a future resume.
pub proof fn lemma_cancel_cleanup(resumed: bool, transferred: u64, delta: u64, len: u64)
    requires
        transferred + len <= u64::MAX,
    ensures
        spec_on_chunk(TransferPhase::Stream { resumed, transferred, delta }, len, true).1 == (
        TransferAction::AbortCancelled { remove_parent: !resumed }),
        spec_on_chunk(TransferPhase::Stream { resumed, transferred, delta }, len, true).0 == (
        TransferPhase::Stopped { error: DownloadError::Cancelled }),
{
}

} // verus!
