//! The error taxonomy of the download engine.

use vstd::prelude::*;

use crate::decimal::{dec_chars, u64_to_string};

verus! {

/// One failure of a batch, a transfer, or a validation.
///
/// `HashMismatch` deliberately carries no computed digest, so no caller
/// can echo a partially trusted value.
#[derive(Clone, Debug)]
pub enum DownloadError {
    /// A proxy or URL configuration was rejected before any network call.
    Configuration { message: String },
    /// A destination path would resolve outside the trusted data root.
    PathSecurity,
    /// A non-success HTTP status or connection failure.
    Transport { status: u16, message: String },
    /// The shared cancellation signal was observed.
    Cancelled,
    /// The downloaded file's length differs from the expected one.
    SizeMismatch { expected: u64, actual: u64 },
    /// The downloaded file's digest differs from the expected one.
    HashMismatch,
    /// A file-system failure, with the host's description.
    Io { message: String },
}

/// The text that `DownloadError::message` renders for each variant.
pub open spec fn spec_message(e: DownloadError) -> Seq<char> {
    match e {
        DownloadError::Configuration { message } => message@,
        DownloadError::PathSecurity => "Path is outside of the data folder"@,
        DownloadError::Transport { status, message } => "Failed to download: HTTP status "@
            + dec_chars(status as nat) + ", "@ + message@,
        DownloadError::Cancelled => "Download cancelled"@,
        DownloadError::SizeMismatch { expected, actual } => "Size verification failed. Expected "@
            + dec_chars(expected as nat) + " bytes but got "@ + dec_chars(actual as nat)
            + " bytes."@,
        DownloadError::HashMismatch => "Hash verification failed. The downloaded file is corrupted or has been tampered with."@,
        DownloadError::Io { message } => message@,
    }
}

impl DownloadError {
    /// A human-readable description of the failure.  A size mismatch
    /// names the expected and actual byte counts; a hash mismatch names
    /// no digest at all.
    pub fn message(&self) -> (r: String)
        ensures
            r@ == spec_message(*self),
    {
        match self {
            DownloadError::Configuration { message } => message.clone(),
            DownloadError::PathSecurity => "Path is outside of the data folder".to_owned(),
            DownloadError::Transport { status, message } => {
                let mut s: String = "Failed to download: HTTP status ".to_owned();
                let num = u64_to_string(*status as u64);
                s.append(num.as_str());
                s.append(", ");
                s.append(message.as_str());
                s
            },
            DownloadError::Cancelled => "Download cancelled".to_owned(),
            DownloadError::SizeMismatch { expected, actual } => {
                let mut s: String = "Size verification failed. Expected ".to_owned();
                let e = u64_to_string(*expected);
                s.append(e.as_str());
                s.append(" bytes but got ");
                let a = u64_to_string(*actual);
                s.append(a.as_str());
                s.append(" bytes.");
                s
            },
            DownloadError::HashMismatch => "Hash verification failed. The downloaded file is corrupted or has been tampered with.".to_owned(),
            DownloadError::Io { message } => message.clone(),
        }
    }
}

} // verus!
