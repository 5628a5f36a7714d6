//! The failures of a transfer.

use vstd::prelude::*;
use vstd::string::*;
use crate::retry::Outcome;
use crate::text::{push_decimal, spec_decimal};

verus! {

/// The class of a failure.
#[derive(Clone, Copy, Debug, PartialEq, Eq, Structural)]
pub enum ErrorKind {
    /// A name could not be mapped to an identifier, or the size or the
    /// download address of the file is not to be had. Final, never retried.
    Resolution,
    /// The server refused to open or to close the upload session. Final,
    /// never retried.
    Session,
    /// A unit met a status that is no success, or used up its retries. The
    /// whole transfer fails; what was transferred stays where it is.
    FatalTransfer,
}

/// Why a transfer failed.
#[derive(Clone, Debug, PartialEq, Eq)]
pub enum TransferError {
    /// No entry of that name in the directory.
    NotFound { name: String },
    /// The metadata of the file could not be read.
    MalformedMetadata,
    /// The metadata of the file does not give its size.
    SizeUnavailable,
    /// The server gave no download address.
    UrlUnavailable,
    /// The transfer cannot be planned: the part size is zero, or the parts
    /// cannot be numbered in 32 bits.
    Unplannable,
    /// The answer to the session request could not be read.
    MalformedSessionReply,
    /// The answer to the session request carries an error code.
    SessionRejected { code: String },
    /// The server did not give one upload target for each declared part.
    PartCountMismatch { declared: u64, received: u64 },
    /// The part has no upload target.
    MissingUploadTarget { part: u32 },
    /// Every part was sent, but the server did not accept the finalize call:
    /// the bytes are there and the file is not committed.
    FinalizeFailed { cause: Outcome },
    /// A part of an upload failed for good on its `attempts`-th attempt.
    PartFailed { part: u32, attempts: u64, cause: Outcome },
    /// `failed` chunks of a download failed for good; the first of them to
    /// fail was chunk `part`, on its `attempts`-th attempt.
    ChunksFailed { failed: u32, part: u32, attempts: u64, cause: Outcome },
}

impl TransferError {
    /// The class of the failure.
    pub open spec fn spec_kind(&self) -> ErrorKind {
        match self {
            TransferError::NotFound { .. } => ErrorKind::Resolution,
            TransferError::MalformedMetadata => ErrorKind::Resolution,
            TransferError::SizeUnavailable => ErrorKind::Resolution,
            TransferError::UrlUnavailable => ErrorKind::Resolution,
            TransferError::Unplannable => ErrorKind::Resolution,
            TransferError::MalformedSessionReply => ErrorKind::Session,
            TransferError::SessionRejected { .. } => ErrorKind::Session,
            TransferError::PartCountMismatch { .. } => ErrorKind::Session,
            TransferError::MissingUploadTarget { .. } => ErrorKind::Session,
            TransferError::FinalizeFailed { .. } => ErrorKind::Session,
            TransferError::PartFailed { .. } => ErrorKind::FatalTransfer,
            TransferError::ChunksFailed { .. } => ErrorKind::FatalTransfer,
        }
    }

    /// The class of the failure.
    pub fn kind(&self) -> (kind: ErrorKind)
        ensures
            kind == self.spec_kind(),
    {
        match self {
            TransferError::NotFound { .. } => ErrorKind::Resolution,
            TransferError::MalformedMetadata => ErrorKind::Resolution,
            TransferError::SizeUnavailable => ErrorKind::Resolution,
            TransferError::UrlUnavailable => ErrorKind::Resolution,
            TransferError::Unplannable => ErrorKind::Resolution,
            TransferError::MalformedSessionReply => ErrorKind::Session,
            TransferError::SessionRejected { .. } => ErrorKind::Session,
            TransferError::PartCountMismatch { .. } => ErrorKind::Session,
            TransferError::MissingUploadTarget { .. } => ErrorKind::Session,
            TransferError::FinalizeFailed { .. } => ErrorKind::Session,
            TransferError::PartFailed { .. } => ErrorKind::FatalTransfer,
            TransferError::ChunksFailed { .. } => ErrorKind::FatalTransfer,
        }
    }

    /// Whether all bytes were sent and only the commit failed.
    pub fn is_finalize_failure(&self) -> (b: bool)
        ensures
            b == (self is FinalizeFailed),
    {
        match self {
            TransferError::FinalizeFailed { .. } => true,
            _ => false,
        }
    }

    /// Whether a unit failed in the middle of the transfer.
    pub fn is_unit_failure(&self) -> (b: bool)
        ensures
            b == (self is PartFailed || self is ChunksFailed),
    {
        match self {
            TransferError::PartFailed { .. } => true,
            TransferError::ChunksFailed { .. } => true,
            _ => false,
        }
    }
}

/// What an attempt came to, in words.
pub open spec fn spec_outcome_text(outcome: Outcome) -> Seq<char> {
    match outcome {
        Outcome::Success => "success"@,
        Outcome::Throttled => "too many concurrent requests"@,
        Outcome::Rejected(status) => "status "@ + spec_decimal(status as nat),
        Outcome::TransportError => "network error"@,
        Outcome::Aborted => "transfer broken off"@,
    }
}

/// Appends to `text` what an attempt came to, in words.
pub fn push_outcome_text(text: &mut String, outcome: Outcome)
    ensures
        final(text)@ == old(text)@ + spec_outcome_text(outcome),
{
    match outcome {
        Outcome::Success => text.append("success"),
        Outcome::Throttled => text.append("too many concurrent requests"),
        Outcome::Rejected(status) => {
            text.append("status ");
            push_decimal(text, status as u64);
            assert(final(text)@ =~= old(text)@ + spec_outcome_text(outcome));
        },
        Outcome::TransportError => text.append("network error"),
        Outcome::Aborted => text.append("transfer broken off"),
    }
}

impl TransferError {
    /// The failure in words, as it is shown to the user.
    pub open spec fn spec_message(&self) -> Seq<char> {
        match self {
            TransferError::NotFound { name } => "File '"@ + name@
                + "' not found in current directory"@,
            TransferError::MalformedMetadata => "Can not read file metadata"@,
            TransferError::SizeUnavailable => "Can not get file size"@,
            TransferError::UrlUnavailable => "No URL in response"@,
            TransferError::Unplannable => "Can not plan the transfer"@,
            TransferError::MalformedSessionReply => "Can not read the upload session"@,
            TransferError::SessionRejected { code } => "Failed to create file: "@ + code@,
            TransferError::PartCountMismatch { declared, received } => "Upload targets for "@
                + spec_decimal(*received as nat) + " parts, declared were "@ + spec_decimal(
                *declared as nat,
            ),
            TransferError::MissingUploadTarget { part } => "Missing upload_url for part "@
                + spec_decimal(*part as nat),
            TransferError::FinalizeFailed { cause } => "Upload completion failed: "@
                + spec_outcome_text(*cause),
            TransferError::PartFailed { part, attempts, cause } => "Part "@ + spec_decimal(
                *part as nat,
            ) + " upload failed: "@ + spec_outcome_text(*cause) + " on attempt "@ + spec_decimal(
                *attempts as nat,
            ),
            TransferError::ChunksFailed { failed, part, attempts, cause } => "Download failed: "@
                + spec_decimal(*failed as nat) + " chunks failed, first chunk "@ + spec_decimal(
                *part as nat,
            ) + ": "@ + spec_outcome_text(*cause) + " on attempt "@ + spec_decimal(
                *attempts as nat,
            ),
        }
    }

    /// The failure in words, as it is shown to the user.
    pub fn message(&self) -> (text: String)
        ensures
            text@ == self.spec_message(),
    {
        match self {
            TransferError::NotFound { name } => {
                let mut text = String::from_str("File '");
                text.append(name.as_str());
                text.append("' not found in current directory");
                text
            },
            TransferError::MalformedMetadata => String::from_str("Can not read file metadata"),
            TransferError::SizeUnavailable => String::from_str("Can not get file size"),
            TransferError::UrlUnavailable => String::from_str("No URL in response"),
            TransferError::Unplannable => String::from_str("Can not plan the transfer"),
            TransferError::MalformedSessionReply => String::from_str(
                "Can not read the upload session",
            ),
            TransferError::SessionRejected { code } => {
                let mut text = String::from_str("Failed to create file: ");
                text.append(code.as_str());
                text
            },
            TransferError::PartCountMismatch { declared, received } => {
                let mut text = String::from_str("Upload targets for ");
                push_decimal(&mut text, *received);
                text.append(" parts, declared were ");
                push_decimal(&mut text, *declared);
                text
            },
            TransferError::MissingUploadTarget { part } => {
                let mut text = String::from_str("Missing upload_url for part ");
                push_decimal(&mut text, *part as u64);
                text
            },
            TransferError::FinalizeFailed { cause } => {
                let mut text = String::from_str("Upload completion failed: ");
                push_outcome_text(&mut text, *cause);
                text
            },
            TransferError::PartFailed { part, attempts, cause } => {
                let mut text = String::from_str("Part ");
                push_decimal(&mut text, *part as u64);
                text.append(" upload failed: ");
                push_outcome_text(&mut text, *cause);
                text.append(" on attempt ");
                push_decimal(&mut text, *attempts);
                text
            },
            TransferError::ChunksFailed { failed, part, attempts, cause } => {
                let mut text = String::from_str("Download failed: ");
                push_decimal(&mut text, *failed as u64);
                text.append(" chunks failed, first chunk ");
                push_decimal(&mut text, *part as u64);
                text.append(": ");
                push_outcome_text(&mut text, *cause);
                text.append(" on attempt ");
                push_decimal(&mut text, *attempts);
                text
            },
        }
    }
}

} // verus!
