//! The measurement orchestrator.
//!
//! A run issues the four probes strictly in order — download, upload,
//! latency, jitter — one request at a time, never two in flight at once,
//! so that no probe's timing is skewed by another.  The orchestrator is a
//! state machine: `next_request` says which HTTP operation an unverified
//! driver must perform next, `record` takes the outcome of that operation
//! back, and `finish` reduces the recorded outcomes to the result record.
//! Every transition is stated exactly by the spec function `step`, so the
//! figures a run reports are a function of its configuration and of the
//! transport outcomes alone.
//!
//! A failed transport call never aborts a run: the affected figure degrades
//! to zero and the remaining probes still execute, so the result record is
//! always fully populated.

use vstd::prelude::*;

verus! {

use crate::config::ProbeConfig;
use crate::stats::spec_mean_us;
use crate::stats::spec_jitter_us;
use crate::stats::mean_latency_us;
use crate::stats::jitter_us;
use crate::throughput::spec_throughput_bps;
use crate::throughput::throughput_bps;

/// Which probe the run is currently on.
#[derive(Clone, Copy, Debug, PartialEq, Eq, Structural)]
pub enum Phase {
    /// The single timed download is outstanding.
    Download,
    /// The single timed upload is outstanding.
    Upload,
    /// Latency samples are being collected.
    Latency,
    /// Jitter samples are being collected.
    Jitter,
    /// All probes have completed; only assembly is left.
    Done,
}

/// One HTTP operation the driver must perform, with everything the
/// transport needs to know.  The driver maps each variant to the fixed
/// endpoint it stands for.
#[derive(Clone, Copy, Debug, PartialEq, Eq, Structural)]
pub enum ProbeRequest {
    /// GET the size-parameterized download endpoint and read the whole body.
    Download {
        /// How many bytes to ask the server to stream back.
        size_bytes: u32,
    },
    /// POST a zero-filled body of exactly this size to the upload endpoint.
    Upload {
        /// How many bytes the posted body must hold.
        size_bytes: u32,
    },
    /// GET the lightweight latency endpoint.
    LatencyGet,
    /// GET the diagnostic jitter endpoint after pausing.
    JitterGet {
        /// Milliseconds to pause before issuing the request; zero before
        /// the first jitter sample.
        delay_before_ms: u32,
    },
}

/// What came back from one HTTP operation.
#[derive(Clone, Copy, Debug, PartialEq, Eq, Structural)]
pub enum ProbeOutcome {
    /// The request completed; the driver timed it.
    Success {
        /// Bytes of response body actually received.  Only the download
        /// probe reads this; the other probes time the exchange alone.
        bytes_received: u64,
        /// Wall-clock time from just before the request until the response
        /// (body included, for the download) was fully received, in
        /// microseconds.
        elapsed_us: u64,
    },
    /// The request failed at the transport level: connection failure,
    /// timeout, or a response that could not be read.
    Failure,
}

/// The abstract state of a run: the configuration, the probe in progress,
/// and everything recorded so far.
pub struct RunModel {
    /// The read-only parameters of the run.
    pub config: ProbeConfig,
    /// The probe in progress.
    pub phase: Phase,
    /// Download throughput in bits per second; zero until recorded.
    pub download_bps: nat,
    /// Upload throughput in bits per second; zero until recorded.
    pub upload_bps: nat,
    /// Latency requests issued so far, failed ones included.
    pub latency_issued: nat,
    /// Elapsed times of the latency requests that succeeded, in order, in
    /// microseconds.  Failed requests are skipped, not recorded.
    pub latency_samples: Seq<u64>,
    /// Jitter requests that completed successfully so far.  A failed
    /// request is not counted: it ends the sampler instead.
    pub jitter_issued: nat,
    /// Elapsed times of the jitter requests, in order, in microseconds.
    pub jitter_samples: Seq<u64>,
    /// Whether a jitter request failed; the jitter figure then degrades to
    /// zero and the sampler stops.
    pub jitter_failed: bool,
}

/// The state a run starts in: on the download probe, with nothing recorded.
pub open spec fn initial_model(config: ProbeConfig) -> RunModel {
    RunModel {
        config,
        phase: Phase::Download,
        download_bps: 0,
        upload_bps: 0,
        latency_issued: 0,
        latency_samples: Seq::empty(),
        jitter_issued: 0,
        jitter_samples: Seq::empty(),
        jitter_failed: false,
    }
}

/// The probe that follows the upload: latency, unless no latency samples
/// are asked for.
pub open spec fn phase_after_upload(c: ProbeConfig) -> Phase {
    if c.latency_sample_count > 0 {
        Phase::Latency
    } else {
        phase_after_latency(c)
    }
}

/// The probe that follows the latency sampler: jitter, unless no jitter
/// samples are asked for.
pub open spec fn phase_after_latency(c: ProbeConfig) -> Phase {
    if c.jitter_sample_count > 0 {
        Phase::Jitter
    } else {
        Phase::Done
    }
}

/// Download throughput derived from one transport outcome: the rate over
/// the bytes actually received — a truncated transfer reports a real, lower
/// number — or zero on failure.
pub open spec fn download_figure(o: ProbeOutcome) -> nat {
    match o {
        ProbeOutcome::Success { bytes_received, elapsed_us } => spec_throughput_bps(
            bytes_received as nat,
            elapsed_us as nat,
        ),
        ProbeOutcome::Failure => 0,
    }
}

/// Upload throughput derived from one transport outcome: the rate over the
/// requested body size — only the client-side send time is characterized,
/// not an echo — or zero on failure.
pub open spec fn upload_figure(c: ProbeConfig, o: ProbeOutcome) -> nat {
    match o {
        ProbeOutcome::Success { elapsed_us, .. } => spec_throughput_bps(
            c.upload_size_bytes as nat,
            elapsed_us as nat,
        ),
        ProbeOutcome::Failure => 0,
    }
}

/// The transition relation of a run: the state after the outcome of the
/// outstanding request is recorded.  Recording into a finished run changes
/// nothing.
pub open spec fn step(m: RunModel, o: ProbeOutcome) -> RunModel {
    match m.phase {
        Phase::Download => RunModel {
            phase: Phase::Upload,
            download_bps: download_figure(o),
            ..m
        },
        Phase::Upload => RunModel {
            phase: phase_after_upload(m.config),
            upload_bps: upload_figure(m.config, o),
            ..m
        },
        Phase::Latency => {
            let samples = match o {
                ProbeOutcome::Success { elapsed_us, .. } => m.latency_samples.push(elapsed_us),
                ProbeOutcome::Failure => m.latency_samples,
            };
            let issued = m.latency_issued + 1;
            RunModel {
                phase: if issued < m.config.latency_sample_count {
                    Phase::Latency
                } else {
                    phase_after_latency(m.config)
                },
                latency_issued: issued,
                latency_samples: samples,
                ..m
            }
        },
        Phase::Jitter => match o {
            ProbeOutcome::Success { elapsed_us, .. } => {
                let issued = m.jitter_issued + 1;
                RunModel {
                    phase: if issued < m.config.jitter_sample_count {
                        Phase::Jitter
                    } else {
                        Phase::Done
                    },
                    jitter_issued: issued,
                    jitter_samples: m.jitter_samples.push(elapsed_us),
                    ..m
                }
            },
            ProbeOutcome::Failure => RunModel { phase: Phase::Done, jitter_failed: true, ..m },
        },
        Phase::Done => m,
    }
}

/// The state after a whole sequence of outcomes is recorded, first to last.
pub open spec fn run_steps(m: RunModel, outcomes: Seq<ProbeOutcome>) -> RunModel
    decreases outcomes.len(),
{
    if outcomes.len() == 0 {
        m
    } else {
        step(run_steps(m, outcomes.drop_last()), outcomes.last())
    }
}

/// The request the driver must perform next, if any.
pub open spec fn spec_next_request(m: RunModel) -> Option<ProbeRequest> {
    match m.phase {
        Phase::Download => Some(ProbeRequest::Download { size_bytes: m.config.download_size_bytes }),
        Phase::Upload => Some(ProbeRequest::Upload { size_bytes: m.config.upload_size_bytes }),
        Phase::Latency => Some(ProbeRequest::LatencyGet),
        Phase::Jitter => Some(
            ProbeRequest::JitterGet {
                delay_before_ms: if m.jitter_issued == 0 {
                    0
                } else {
                    m.config.jitter_inter_sample_delay_ms
                },
            },
        ),
        Phase::Done => None,
    }
}

/// Well-formedness of a run state: while a sampler is in progress, fewer
/// requests have been issued than the configuration asks for.
pub open spec fn wf(m: RunModel) -> bool {
    &&& ((m.phase == Phase::Download || m.phase == Phase::Upload) ==> m.latency_issued == 0
        && m.jitter_issued == 0)
    &&& (m.phase == Phase::Latency ==> m.latency_issued < m.config.latency_sample_count
        && m.jitter_issued == 0)
    &&& (m.phase == Phase::Jitter ==> m.jitter_issued < m.config.jitter_sample_count)
}

/// The latency figure of a state: the mean of the successful samples, zero
/// when every latency request failed.
pub open spec fn spec_ping_us(m: RunModel) -> int {
    spec_mean_us(m.latency_samples)
}

/// The jitter figure of a state: the mean absolute difference between
/// consecutive samples, degraded to zero when a jitter request failed or
/// fewer than two samples were collected.
pub open spec fn spec_jitter_figure_us(m: RunModel) -> int {
    if m.jitter_failed {
        0
    } else {
        spec_jitter_us(m.jitter_samples)
    }
}

/// The assembled result of a run: four numeric figures, a completion
/// timestamp, and the server identifier.  There are no optional fields —
/// a record is always fully populated, whatever failed during the run.
#[derive(Debug)]
pub struct MeasurementResult {
    /// Instant of completion, in milliseconds since the Unix epoch.
    pub timestamp_ms: i64,
    /// Download throughput in bits per second (a millionth of a Mbps).
    pub download_bits_per_sec: u128,
    /// Upload throughput in bits per second (a millionth of a Mbps).
    pub upload_bits_per_sec: u128,
    /// Mean round-trip latency in microseconds (a thousandth of a ms).
    pub ping_us: u64,
    /// Mean absolute jitter in microseconds (a thousandth of a ms).
    pub jitter_us: u64,
    /// Identifier of the server farm the probes were aimed at.
    pub server_id: String,
}

/// Relies on std::time::SystemTime::now for the wall-clock instant at
/// which the run completed, read as milliseconds since the Unix epoch.  A
/// clock set before the epoch reads as zero and a reading too large for
/// the result type saturates, so the call never panics; nothing more is
/// promised of the clock's reading.
#[verifier::external_body]
fn now_unix_ms() -> i64 {
    match std::time::SystemTime::now().duration_since(std::time::UNIX_EPOCH) {
        Ok(since_epoch) => i64::try_from(since_epoch.as_millis()).unwrap_or(i64::MAX),
        Err(_) => 0,
    }
}

/// A measurement run in progress.
pub struct SpeedTest {
    config: ProbeConfig,
    phase: Phase,
    download_bps: u128,
    upload_bps: u128,
    latency_issued: u32,
    latency_samples: Vec<u64>,
    jitter_issued: u32,
    jitter_samples: Vec<u64>,
    jitter_failed: bool,
}

impl View for SpeedTest {
    type V = RunModel;

    closed spec fn view(&self) -> RunModel {
        RunModel {
            config: self.config,
            phase: self.phase,
            download_bps: self.download_bps as nat,
            upload_bps: self.upload_bps as nat,
            latency_issued: self.latency_issued as nat,
            latency_samples: self.latency_samples@,
            jitter_issued: self.jitter_issued as nat,
            jitter_samples: self.jitter_samples@,
            jitter_failed: self.jitter_failed,
        }
    }
}

impl SpeedTest {
    /// Starts a run with the given parameters, on the download probe.
    pub fn new(config: ProbeConfig) -> (t: SpeedTest)
        ensures
            t@ == initial_model(config),
            wf(t@),
    {
        SpeedTest {
            config,
            phase: Phase::Download,
            download_bps: 0,
            upload_bps: 0,
            latency_issued: 0,
            latency_samples: Vec::new(),
            jitter_issued: 0,
            jitter_samples: Vec::new(),
            jitter_failed: false,
        }
    }

    /// Whether every probe has completed.
    pub fn is_done(&self) -> (b: bool)
        ensures
            b == (self@.phase == Phase::Done),
    {
        self.phase == Phase::Done
    }

    /// The HTTP operation the driver must perform next, or `None` once
    /// every probe has completed.
    pub fn next_request(&self) -> (r: Option<ProbeRequest>)
        ensures
            r == spec_next_request(self@),
    {
        match self.phase {
            Phase::Download => Some(ProbeRequest::Download { size_bytes: self.config.download_size_bytes }),
            Phase::Upload => Some(ProbeRequest::Upload { size_bytes: self.config.upload_size_bytes }),
            Phase::Latency => Some(ProbeRequest::LatencyGet),
            Phase::Jitter => Some(
                ProbeRequest::JitterGet {
                    delay_before_ms: if self.jitter_issued == 0 {
                        0
                    } else {
                        self.config.jitter_inter_sample_delay_ms
                    },
                },
            ),
            Phase::Done => None,
        }
    }

    /// Records the outcome of the outstanding request and moves to the next
    /// probe.  A failure degrades the affected figure to zero — the run
    /// goes on; it never aborts.
    pub fn record(&mut self, outcome: ProbeOutcome)
        requires
            wf(old(self)@),
        ensures
            final(self)@ == step(old(self)@, outcome),
            wf(final(self)@),
    {
        match self.phase {
            Phase::Download => {
                self.download_bps = match outcome {
                    ProbeOutcome::Success { bytes_received, elapsed_us } => throughput_bps(
                        bytes_received,
                        elapsed_us,
                    ),
                    ProbeOutcome::Failure => 0,
                };
                self.phase = Phase::Upload;
            },
            Phase::Upload => {
                self.upload_bps = match outcome {
                    ProbeOutcome::Success { elapsed_us, .. } => throughput_bps(
                        self.config.upload_size_bytes as u64,
                        elapsed_us,
                    ),
                    ProbeOutcome::Failure => 0,
                };
                self.phase = if self.config.latency_sample_count > 0 {
                    Phase::Latency
                } else if self.config.jitter_sample_count > 0 {
                    Phase::Jitter
                } else {
                    Phase::Done
                };
            },
            Phase::Latency => {
                match outcome {
                    ProbeOutcome::Success { elapsed_us, .. } => self.latency_samples.push(
                        elapsed_us,
                    ),
                    ProbeOutcome::Failure => {},
                }
                self.latency_issued = self.latency_issued + 1;
                if self.latency_issued >= self.config.latency_sample_count {
                    self.phase = if self.config.jitter_sample_count > 0 {
                        Phase::Jitter
                    } else {
                        Phase::Done
                    };
                }
            },
            Phase::Jitter => {
                match outcome {
                    ProbeOutcome::Success { elapsed_us, .. } => {
                        self.jitter_samples.push(elapsed_us);
                        self.jitter_issued = self.jitter_issued + 1;
                        if self.jitter_issued >= self.config.jitter_sample_count {
                            self.phase = Phase::Done;
                        }
                    },
                    ProbeOutcome::Failure => {
                        self.jitter_failed = true;
                        self.phase = Phase::Done;
                    },
                }
            },
            Phase::Done => {},
        }
    }

    /// Assembles the result record once every probe has completed, stamped
    /// with the given completion instant.  Whatever failed during the run,
    /// every field of the record is populated.
    pub fn finish(&self, timestamp_ms: i64, server_id: String) -> (r: MeasurementResult)
        requires
            self@.phase == Phase::Done,
        ensures
            r.timestamp_ms == timestamp_ms,
            r.server_id == server_id,
            r.download_bits_per_sec == self@.download_bps,
            r.upload_bits_per_sec == self@.upload_bps,
            r.ping_us == spec_ping_us(self@),
            r.jitter_us == spec_jitter_figure_us(self@),
    {
        let ping: u64 = mean_latency_us(&self.latency_samples);
        let jit: u64 = if self.jitter_failed {
            0
        } else {
            jitter_us(&self.jitter_samples)
        };
        MeasurementResult {
            timestamp_ms,
            download_bits_per_sec: self.download_bps,
            upload_bits_per_sec: self.upload_bps,
            ping_us: ping,
            jitter_us: jit,
            server_id,
        }
    }

    /// Assembles the result record stamped with the current wall-clock
    /// time, once every probe has completed.
    pub fn finish_now(&self, server_id: String) -> (r: MeasurementResult)
        requires
            self@.phase == Phase::Done,
        ensures
            r.server_id == server_id,
            r.download_bits_per_sec == self@.download_bps,
            r.upload_bits_per_sec == self@.upload_bps,
            r.ping_us == spec_ping_us(self@),
            r.jitter_us == spec_jitter_figure_us(self@),
    {
        let ts: i64 = now_unix_ms();
        self.finish(ts, server_id)
    }
}

/// Builds the body for the upload probe: a zero-filled payload of exactly
/// the requested size.  The content is irrelevant to the measurement; only
/// the byte count matters.
pub fn upload_payload(size_bytes: u32) -> (v: Vec<u8>)
    ensures
        v@.len() == size_bytes,
        forall|i: int| 0 <= i < v@.len() ==> v@[i] == 0u8,
{
    let mut v: Vec<u8> = Vec::new();
    let mut i: u32 = 0;
    while i < size_bytes
        invariant
            i <= size_bytes,
            v@.len() == i,
            forall|j: int| 0 <= j < v@.len() ==> v@[j] == 0u8,
        decreases size_bytes - i,
    {
        v.push(0u8);
        i += 1;
    }
    v
}

/// Replays a whole run over outcomes recorded ahead of time: exactly the
/// state an interactive driver reaches by feeding the same outcomes one by
/// one.
pub fn run_recorded(config: ProbeConfig, outcomes: &Vec<ProbeOutcome>) -> (t: SpeedTest)
    ensures
        t@ == run_steps(initial_model(config), outcomes@),
        wf(t@),
{
    let mut t = SpeedTest::new(config);
    let mut i: usize = 0;
    while i < outcomes.len()
        invariant
            i <= outcomes@.len(),
            t@ == run_steps(initial_model(config), outcomes@.take(i as int)),
            wf(t@),
        decreases outcomes@.len() - i,
    {
        proof {
            assert(outcomes@.take(i + 1).drop_last() =~= outcomes@.take(i as int));
            assert(outcomes@.take(i + 1).last() == outcomes@[i as int]);
        }
        t.record(outcomes[i]);
        i += 1;
    }
    proof {
        assert(outcomes@.take(outcomes@.len() as int) =~= outcomes@);
    }
    t
}

/// Two measurement runs that start from the same configuration and see the
/// same transport outcomes end in the same state, and so report identical
/// figures: a run is a deterministic function of its configuration and the
/// outcomes alone.
pub proof fn lemma_run_deterministic(
    c1: ProbeConfig,
    c2: ProbeConfig,
    o1: Seq<ProbeOutcome>,
    o2: Seq<ProbeOutcome>,
)
    requires
        c1 == c2,
        o1 == o2,
    ensures
        run_steps(initial_model(c1), o1) == run_steps(initial_model(c2), o2),
{
}

/// How many more outcomes a run still has to record before it is done: one
/// for the download, one for the upload, and one per remaining sampler
/// request.  A failed jitter request ends the run early, so this is an
/// upper bound as well as the exact count of the failure-free run.
pub open spec fn remaining_outcomes(m: RunModel) -> int {
    match m.phase {
        Phase::Download => 2 + m.config.latency_sample_count + m.config.jitter_sample_count,
        Phase::Upload => 1 + m.config.latency_sample_count + m.config.jitter_sample_count,
        Phase::Latency => (m.config.latency_sample_count - m.latency_issued)
            + m.config.jitter_sample_count,
        Phase::Jitter => m.config.jitter_sample_count - m.jitter_issued,
        Phase::Done => 0,
    }
}

/// Recording one outcome preserves well-formedness and brings an unfinished
/// run strictly closer to completion; a finished run is left untouched.
pub proof fn lemma_step_progress(m: RunModel, o: ProbeOutcome)
    requires
        wf(m),
    ensures
        wf(step(m, o)),
        m.phase != Phase::Done ==> remaining_outcomes(step(m, o)) < remaining_outcomes(m),
        m.phase == Phase::Done ==> step(m, o) == m,
{
}

proof fn lemma_run_steps_progress(m: RunModel, outcomes: Seq<ProbeOutcome>)
    requires
        wf(m),
    ensures
        wf(run_steps(m, outcomes)),
        remaining_outcomes(run_steps(m, outcomes)) <= remaining_outcomes(m) - outcomes.len()
            || remaining_outcomes(run_steps(m, outcomes)) == 0,
    decreases outcomes.len(),
{
    if outcomes.len() > 0 {
        lemma_run_steps_progress(m, outcomes.drop_last());
        let r = run_steps(m, outcomes.drop_last());
        assert(r.phase != Phase::Done ==> remaining_outcomes(r) >= 1);
        lemma_step_progress(r, outcomes.last());
    }
}

/// However the transport behaves, a run is complete once an outcome has
/// been recorded for every request the configuration asks for: the
/// orchestrator always reaches the assembly stage, and `finish` then
/// populates every field of the record.
pub proof fn lemma_run_completes(m: RunModel, outcomes: Seq<ProbeOutcome>)
    requires
        wf(m),
        outcomes.len() >= remaining_outcomes(m),
    ensures
        run_steps(m, outcomes).phase == Phase::Done,
{
    lemma_run_steps_progress(m, outcomes);
    let r = run_steps(m, outcomes);
    assert(r.phase != Phase::Done ==> remaining_outcomes(r) >= 1);
}

/// A probe whose transport call fails contributes a zero figure and leaves
/// everything already recorded untouched: the run itself never aborts.
pub proof fn lemma_failed_probe_degrades_to_zero(m: RunModel)
    ensures
        m.phase == Phase::Download ==> step(m, ProbeOutcome::Failure).download_bps == 0,
        m.phase == Phase::Upload ==> step(m, ProbeOutcome::Failure).upload_bps == 0,
        m.phase == Phase::Latency ==> step(m, ProbeOutcome::Failure).latency_samples
            == m.latency_samples,
        m.phase == Phase::Jitter ==> spec_jitter_figure_us(step(m, ProbeOutcome::Failure)) == 0,
        m.phase != Phase::Download ==> step(m, ProbeOutcome::Failure).download_bps
            == m.download_bps,
        m.phase != Phase::Upload ==> step(m, ProbeOutcome::Failure).upload_bps == m.upload_bps,
{
}

} // verus!
