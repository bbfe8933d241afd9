//! Post-transfer validation of a downloaded file.
//!
//! The machine decides the validation sequence — size first because it
//! is cheap, a cancellation check, then the digest — while the host
//! performs the reads it asks for and feeds the observations back.

use vstd::prelude::*;

use crate::errors::DownloadError;

verus! {

/// Where a validation stands.
pub enum ValidationPhase {
    /// The "validation started" notification is owed.
    Started,
    /// The file's length is owed.
    AwaitSize,
    /// The cancellation signal's state is owed.
    AwaitCancel,
    /// The file's content digest is owed.
    AwaitDigest,
    /// Terminal.
    Done { result: Result<(), DownloadError> },
}

/// What the host must do next.
#[derive(PartialEq, Eq, Structural, Debug)]
pub enum ValidationAction {
    /// Emit the validation-started notification.
    EmitStarted,
    /// Read the file's length from its metadata.
    ReadSize,
    /// Poll the cancellation signal.
    CheckCancel,
    /// Compute the file's content digest, observing the cancellation
    /// signal while doing so.
    ComputeDigest,
    /// Validation is over; the result stands in the machine.
    Finish,
}

/// The machine for one file: the caller's expectations and the phase.
pub struct Validator {
    pub expected_size: Option<u64>,
    pub expected_sha256: Option<String>,
    pub phase: ValidationPhase,
}

impl Validator {
    /// The machine never waits for an observation nobody expects: a
    /// size is awaited only when one is expected, a digest likewise.
    pub open spec fn wf(self) -> bool {
        &&& (self.phase matches ValidationPhase::AwaitSize ==> self.expected_size is Some)
        &&& (self.phase matches ValidationPhase::AwaitDigest ==> self.expected_sha256 is Some)
    }

    /// Starts a validation.  With no expectations at all it succeeds at
    /// once, asking for no read of the file and no notification.
    pub fn new(expected_size: Option<u64>, expected_sha256: Option<String>) -> (r: (
        Validator,
        ValidationAction,
    ))
        ensures
            r.0.expected_size == expected_size,
            r.0.expected_sha256 == expected_sha256,
            expected_size is None && expected_sha256 is None ==> {
                &&& r.0.phase == (ValidationPhase::Done { result: Result::<
                    (),
                    DownloadError,
                >::Ok(()) })
                &&& r.1 == ValidationAction::Finish
            },
            expected_size is Some || expected_sha256 is Some ==> {
                &&& r.0.phase == ValidationPhase::Started
                &&& r.1 == ValidationAction::EmitStarted
            },
            r.0.wf(),
    {
        let trivial = expected_size.is_none() && expected_sha256.is_none();
        if trivial {
            (
                Validator {
                    expected_size,
                    expected_sha256,
                    phase: ValidationPhase::Done { result: Ok(()) },
                },
                ValidationAction::Finish,
            )
        } else {
            (
                Validator { expected_size, expected_sha256, phase: ValidationPhase::Started },
                ValidationAction::EmitStarted,
            )
        }
    }

    /// Step once the notification is emitted: check the size when one
    /// is expected, else go straight to the cancellation check.
    pub fn after_started(&mut self) -> (a: ValidationAction)
        requires
            old(self).phase matches ValidationPhase::Started,
        ensures
            final(self).wf(),
            final(self).expected_size == old(self).expected_size,
            final(self).expected_sha256 == old(self).expected_sha256,
            old(self).expected_size is Some ==> final(self).phase == ValidationPhase::AwaitSize
                && a == ValidationAction::ReadSize,
            old(self).expected_size is None ==> final(self).phase == ValidationPhase::AwaitCancel
                && a == ValidationAction::CheckCancel,
    {
        if self.expected_size.is_some() {
            self.phase = ValidationPhase::AwaitSize;
            ValidationAction::ReadSize
        } else {
            self.phase = ValidationPhase::AwaitCancel;
            ValidationAction::CheckCancel
        }
    }

    /// Step once the file's length is read.  A length unequal to the
    /// expected one fails with a mismatch error naming both counts; a
    /// metadata failure is fatal; a match moves on to the cancellation
    /// check.
    pub fn on_size(&mut self, actual: Result<u64, String>) -> (a: ValidationAction)
        requires
            old(self).phase matches ValidationPhase::AwaitSize,
            old(self).wf(),
        ensures
            final(self).wf(),
            final(self).expected_size == old(self).expected_size,
            final(self).expected_sha256 == old(self).expected_sha256,
            (old(self).expected_size matches Some(expected) ==> match actual {
                Ok(n) => if n == expected {
                    final(self).phase == ValidationPhase::AwaitCancel && a
                        == ValidationAction::CheckCancel
                } else {
                    final(self).phase == (ValidationPhase::Done {
                        result: Err(DownloadError::SizeMismatch { expected, actual: n }),
                    }) && a == ValidationAction::Finish
                },
                Err(m) => {
                    &&& final(self).phase matches ValidationPhase::Done { result: Err(e) }
                        && e matches DownloadError::Io { message } && message@
                        == "Failed to verify file size: "@ + m@
                    &&& a == ValidationAction::Finish
                },
            }),
    {
        let expected = match self.expected_size {
            Some(n) => n,
            None => 0,
        };
        match actual {
            Ok(n) => {
                if n == expected {
                    self.phase = ValidationPhase::AwaitCancel;
                    ValidationAction::CheckCancel
                } else {
                    self.phase = ValidationPhase::Done {
                        result: Err(DownloadError::SizeMismatch { expected, actual: n }),
                    };
                    ValidationAction::Finish
                }
            },
            Err(m) => {
                let mut message: String = "Failed to verify file size: ".to_owned();
                message.append(m.as_str());
                self.phase = ValidationPhase::Done {
                    result: Err(DownloadError::Io { message }),
                };
                ValidationAction::Finish
            },
        }
    }

    /// Step once the cancellation signal is polled, between the cheap
    /// size check and the expensive digest.  Cancellation fails the
    /// validation; otherwise the digest is computed when one is
    /// expected, else validation succeeds.
    pub fn on_cancel(&mut self, cancelled: bool) -> (a: ValidationAction)
        requires
            old(self).phase matches ValidationPhase::AwaitCancel,
        ensures
            final(self).wf(),
            final(self).expected_size == old(self).expected_size,
            final(self).expected_sha256 == old(self).expected_sha256,
            cancelled ==> final(self).phase == (ValidationPhase::Done {
                result: Err(DownloadError::Cancelled),
            }) && a == ValidationAction::Finish,
            !cancelled && old(self).expected_sha256 is Some ==> final(self).phase
                == ValidationPhase::AwaitDigest && a == ValidationAction::ComputeDigest,
            !cancelled && old(self).expected_sha256 is None ==> final(self).phase == (
            ValidationPhase::Done { result: Result::<(), DownloadError>::Ok(()) }) && a
                == ValidationAction::Finish,
    {
        if cancelled {
            self.phase = ValidationPhase::Done { result: Err(DownloadError::Cancelled) };
            ValidationAction::Finish
        } else if self.expected_sha256.is_some() {
            self.phase = ValidationPhase::AwaitDigest;
            ValidationAction::ComputeDigest
        } else {
            self.phase = ValidationPhase::Done { result: Ok(()) };
            ValidationAction::Finish
        }
    }

    /// Step once the digest is computed.  A digest unequal to the
    /// expected one fails with a mismatch error that deliberately does
    /// not echo the computed digest; a computation failure is fatal; a
    /// match ends the validation successfully.
    pub fn on_digest(&mut self, computed: Result<String, String>) -> (a: ValidationAction)
        requires
            old(self).phase matches ValidationPhase::AwaitDigest,
            old(self).wf(),
        ensures
            final(self).wf(),
            final(self).expected_size == old(self).expected_size,
            final(self).expected_sha256 == old(self).expected_sha256,
            (old(self).expected_sha256 matches Some(expected) ==> match computed {
                Ok(d) => if d@ == expected@ {
                    final(self).phase == (ValidationPhase::Done {
                        result: Result::<(), DownloadError>::Ok(()),
                    }) && a == ValidationAction::Finish
                } else {
                    final(self).phase == (ValidationPhase::Done {
                        result: Err(DownloadError::HashMismatch),
                    }) && a == ValidationAction::Finish
                },
                Err(m) => {
                    &&& final(self).phase matches ValidationPhase::Done { result: Err(e) }
                        && e matches DownloadError::Io { message } && message@
                        == "Failed to verify file integrity: "@ + m@
                    &&& a == ValidationAction::Finish
                },
            }),
    {
        let matches_expected = match (&computed, &self.expected_sha256) {
            (Ok(d), Some(expected)) => *d == *expected,
            _ => false,
        };
        match computed {
            Ok(d) => {
                if matches_expected {
                    self.phase = ValidationPhase::Done { result: Ok(()) };
                } else {
                    self.phase = ValidationPhase::Done {
                        result: Err(DownloadError::HashMismatch),
                    };
                }
                ValidationAction::Finish
            },
            Err(m) => {
                let mut message: String = "Failed to verify file integrity: ".to_owned();
                message.append(m.as_str());
                self.phase = ValidationPhase::Done {
                    result: Err(DownloadError::Io { message }),
                };
                ValidationAction::Finish
            },
        }
    }

    /// The result of a finished validation, if it is finished.
    pub fn outcome(&self) -> (r: Option<&Result<(), DownloadError>>)
        ensures
            match r {
                Some(res) => self.phase matches ValidationPhase::Done { result } && *res == result,
                None => !(self.phase matches ValidationPhase::Done { .. }),
            },
    {
        match &self.phase {
            ValidationPhase::Done { result } => Some(result),
            _ => None,
        }
    }
}

} // verus!
