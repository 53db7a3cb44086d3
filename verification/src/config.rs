//! Runtime parameters of a measurement run.
//!
//! The configuration is supplied once at orchestration start and read-only
//! for the rest of the run.

use vstd::prelude::*;

verus! {

/// Bytes requested from the download endpoint by default.
pub const DEFAULT_DOWNLOAD_SIZE_BYTES: u32 = 100_000_000;

/// Bytes posted to the upload endpoint by default.
pub const DEFAULT_UPLOAD_SIZE_BYTES: u32 = 20_000_000;

/// Per-request timeout in seconds by default.
pub const DEFAULT_REQUEST_TIMEOUT_SECONDS: u32 = 30;

/// Latency requests issued by default.
pub const DEFAULT_LATENCY_SAMPLE_COUNT: u32 = 3;

/// Jitter requests issued by default.
pub const DEFAULT_JITTER_SAMPLE_COUNT: u32 = 10;

/// Pause between consecutive jitter requests by default, in milliseconds.
pub const DEFAULT_JITTER_DELAY_MS: u32 = 100;

/// Parameters of one measurement run.
#[derive(Clone, Copy, Debug, PartialEq, Eq, Structural)]
pub struct ProbeConfig {
    /// Bytes requested from the download endpoint.
    pub download_size_bytes: u32,
    /// Bytes posted to the upload endpoint.
    pub upload_size_bytes: u32,
    /// Timeout applied by the transport to each request, in seconds.
    pub request_timeout_seconds: u32,
    /// How many latency requests to issue.
    pub latency_sample_count: u32,
    /// How many jitter requests to issue.
    pub jitter_sample_count: u32,
    /// Pause before every jitter request but the first, in milliseconds.
    pub jitter_inter_sample_delay_ms: u32,
    /// Whether the driver should log per-probe diagnostics.
    pub verbose: bool,
}

impl Default for ProbeConfig {
    /// The stock configuration: a 100 MB download, a 20 MB upload, a 30 s
    /// request timeout, 3 latency samples, and 10 jitter samples 100 ms
    /// apart, without verbose logging.
    fn default() -> (c: ProbeConfig)
        ensures
            c == (ProbeConfig {
                download_size_bytes: DEFAULT_DOWNLOAD_SIZE_BYTES,
                upload_size_bytes: DEFAULT_UPLOAD_SIZE_BYTES,
                request_timeout_seconds: DEFAULT_REQUEST_TIMEOUT_SECONDS,
                latency_sample_count: DEFAULT_LATENCY_SAMPLE_COUNT,
                jitter_sample_count: DEFAULT_JITTER_SAMPLE_COUNT,
                jitter_inter_sample_delay_ms: DEFAULT_JITTER_DELAY_MS,
                verbose: false,
            }),
    {
        ProbeConfig {
            download_size_bytes: DEFAULT_DOWNLOAD_SIZE_BYTES,
            upload_size_bytes: DEFAULT_UPLOAD_SIZE_BYTES,
            request_timeout_seconds: DEFAULT_REQUEST_TIMEOUT_SECONDS,
            latency_sample_count: DEFAULT_LATENCY_SAMPLE_COUNT,
            jitter_sample_count: DEFAULT_JITTER_SAMPLE_COUNT,
            jitter_inter_sample_delay_ms: DEFAULT_JITTER_DELAY_MS,
            verbose: false,
        }
    }
}

} // verus!
