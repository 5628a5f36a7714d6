//! The settings of a transfer, one set for each direction, with their
//! defaults.

use vstd::prelude::*;
use crate::download::MAX_CONCURRENCY;
use crate::plan::{DOWNLOAD_PART_SIZE, UPLOAD_PART_SIZE};
use crate::retry::{RetryPolicy, MAX_RETRIES, RETRY_DELAY_SECS};

verus! {

/// The settings of a download.
#[derive(Clone, Copy, Debug, PartialEq, Eq, Structural)]
pub struct DownloadConfig {
    /// Length of a chunk. Default: 8 MiB.
    pub part_size: u64,
    /// Number of chunk transfers in flight at a time. Default: 3.
    pub max_concurrency: usize,
    /// How a failed attempt at a chunk is retried. Default: three further
    /// attempts, three seconds apart.
    pub retry: RetryPolicy,
}

impl Default for DownloadConfig {
    fn default() -> (config: DownloadConfig)
        ensures
            config.part_size == DOWNLOAD_PART_SIZE,
            config.max_concurrency == MAX_CONCURRENCY,
            config.retry.max_retries == MAX_RETRIES,
            config.retry.delay_secs == RETRY_DELAY_SECS,
    {
        DownloadConfig {
            part_size: DOWNLOAD_PART_SIZE,
            max_concurrency: MAX_CONCURRENCY,
            retry: RetryPolicy::default(),
        }
    }
}

/// The settings of an upload. Parts go out one at a time, as the server
/// allows no more for one session.
#[derive(Clone, Copy, Debug, PartialEq, Eq, Structural)]
pub struct UploadConfig {
    /// Length of a part. Default: 500 MiB. The whole part is held in memory
    /// while it is sent.
    pub part_size: u64,
    /// How a failed attempt at a part is retried. Default: three further
    /// attempts, three seconds apart.
    pub retry: RetryPolicy,
}

impl Default for UploadConfig {
    fn default() -> (config: UploadConfig)
        ensures
            config.part_size == UPLOAD_PART_SIZE,
            config.retry.max_retries == MAX_RETRIES,
            config.retry.delay_secs == RETRY_DELAY_SECS,
    {
        UploadConfig { part_size: UPLOAD_PART_SIZE, retry: RetryPolicy::default() }
    }
}

} // verus!
