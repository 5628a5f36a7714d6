//! What the server says of a file before it is downloaded: its size and the
//! address to read it from.

use vstd::prelude::*;
use crate::error::TransferError;
use crate::json::{
    json_document, member_string, member_u64, parse, spec_member_string, spec_member_u64,
};

verus! {

/// The size that the metadata `body` gives for the file.
pub open spec fn spec_file_size(body: Seq<char>) -> Option<u64> {
    match json_document(body) {
        Some(document) => spec_member_u64(document, "size"@),
        None => None,
    }
}

/// The download address that the answer `body` gives.
pub open spec fn spec_download_url(body: Seq<char>) -> Option<Seq<char>> {
    match json_document(body) {
        Some(document) => spec_member_string(document, "url"@),
        None => None,
    }
}

/// The size, where the metadata gave one.
pub fn require_size(size: Option<u64>) -> (r: Result<u64, TransferError>)
    ensures
        r == match size {
            Some(n) => Ok::<u64, TransferError>(n),
            None => Err::<u64, TransferError>(TransferError::SizeUnavailable),
        },
{
    match size {
        Some(n) => Ok(n),
        None => Err(TransferError::SizeUnavailable),
    }
}

/// The download address, where the answer gave one.
pub fn require_url(url: Option<String>) -> (r: Result<String, TransferError>)
    ensures
        r == match url {
            Some(address) => Ok::<String, TransferError>(address),
            None => Err::<String, TransferError>(TransferError::UrlUnavailable),
        },
{
    match url {
        Some(address) => Ok(address),
        None => Err(TransferError::UrlUnavailable),
    }
}

/// Reads the size of the file from its metadata: the member `size` of the
/// document, an integer without sign. A download cannot be planned without it.
pub fn read_file_size(body: &str) -> (r: Result<u64, TransferError>)
    ensures
        json_document(body@) is None ==> r == Err::<u64, TransferError>(
            TransferError::MalformedMetadata,
        ),
        json_document(body@) is Some ==> match spec_file_size(body@) {
            Some(size) => r == Ok::<u64, TransferError>(size),
            None => r == Err::<u64, TransferError>(TransferError::SizeUnavailable),
        },
{
    match parse(body) {
        Err(_) => Err(TransferError::MalformedMetadata),
        Ok(document) => require_size(member_u64(&document, "size")),
    }
}

/// Reads the download address from the server's answer: the member `url` of
/// the document, a string. One address serves the whole transfer.
pub fn read_download_url(body: &str) -> (r: Result<String, TransferError>)
    ensures
        json_document(body@) is None ==> r == Err::<String, TransferError>(
            TransferError::MalformedMetadata,
        ),
        json_document(body@) is Some ==> match spec_download_url(body@) {
            Some(url) => r matches Ok(found) && found@ == url,
            None => r == Err::<String, TransferError>(TransferError::UrlUnavailable),
        },
{
    match parse(body) {
        Err(_) => Err(TransferError::MalformedMetadata),
        Ok(document) => require_url(member_string(&document, "url")),
    }
}

} // verus!
