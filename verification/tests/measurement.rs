//! Exercises the measurement core on concrete values: the throughput
//! formula, the two samplers, the probe ordering, the failure policy, and
//! full mock runs.

use speedtest::config::ProbeConfig;
use speedtest::orchestrator::Phase;
use speedtest::orchestrator::ProbeOutcome;
use speedtest::orchestrator::ProbeRequest;
use speedtest::orchestrator::SpeedTest;
use speedtest::orchestrator::run_recorded;
use speedtest::orchestrator::upload_payload;
use speedtest::stats::jitter_us;
use speedtest::stats::mean_latency_us;
use speedtest::throughput::throughput_bps;

fn ok(elapsed_us: u64) -> ProbeOutcome {
    ProbeOutcome::Success { bytes_received: 0, elapsed_us }
}

#[test]
fn throughput_formula_exact() {
    // 50,000,000 bytes in 1.0 s: 400,000,000 bits/s, i.e. 400.0 Mbps.
    assert_eq!(throughput_bps(50_000_000, 1_000_000), 400_000_000);
    // 20,000,000 bytes in 2.0 s: 80.0 Mbps.
    assert_eq!(throughput_bps(20_000_000, 2_000_000), 80_000_000);
    // 1 byte in 8 s: 1 bit/s.
    assert_eq!(throughput_bps(1, 8_000_000), 1);
    let mbps = throughput_bps(50_000_000, 1_000_000) as f64 / 1_000_000.0;
    assert_eq!(mbps, 400.0);
}

#[test]
fn throughput_monotone_in_elapsed_time() {
    let fast = throughput_bps(100_000_000, 1_000_000);
    let mid = throughput_bps(100_000_000, 3_141_592);
    let slow = throughput_bps(100_000_000, 30_000_000);
    assert!(fast > mid && mid > slow);
}

#[test]
fn throughput_zero_elapsed_guarded() {
    assert_eq!(throughput_bps(100, 0), 0);
}

#[test]
fn throughput_largest_inputs() {
    // The computation is exact even at the extremes of the input types.
    assert_eq!(
        throughput_bps(u64::MAX, 1),
        (u64::MAX as u128) * 8_000_000
    );
    assert_eq!(throughput_bps(u64::MAX, u64::MAX), 8_000_000);
    assert_eq!(throughput_bps(0, 1), 0);
}

#[test]
fn latency_mean_exact() {
    // Samples of 10, 20, 30 ms have a mean of exactly 20.0 ms.
    let samples: Vec<u64> = vec![10_000, 20_000, 30_000];
    let mean_us = mean_latency_us(&samples);
    assert_eq!(mean_us, 20_000);
    assert_eq!(mean_us as f64 / 1_000.0, 20.0);
}

#[test]
fn latency_no_samples_is_zero() {
    let samples: Vec<u64> = vec![];
    assert_eq!(mean_latency_us(&samples), 0);
}

#[test]
fn latency_single_sample_is_itself() {
    // A single surviving sample still yields a valid mean.
    let samples: Vec<u64> = vec![42_000];
    assert_eq!(mean_latency_us(&samples), 42_000);
}

#[test]
fn latency_mean_rounds_toward_zero() {
    let samples: Vec<u64> = vec![10, 11];
    assert_eq!(mean_latency_us(&samples), 10);
}

#[test]
fn jitter_mean_abs_deviation_exact() {
    // Samples of 100, 105, 95, 110 ms: deviations 5, 10, 15 ms, mean 10.0 ms.
    let samples: Vec<u64> = vec![100_000, 105_000, 95_000, 110_000];
    let j_us = jitter_us(&samples);
    assert_eq!(j_us, 10_000);
    assert_eq!(j_us as f64 / 1_000.0, 10.0);
}

#[test]
fn jitter_single_sample_is_zero() {
    // One sample leaves no consecutive pair: defined result, no division.
    let samples: Vec<u64> = vec![123_456];
    assert_eq!(jitter_us(&samples), 0);
}

#[test]
fn jitter_no_samples_is_zero() {
    let samples: Vec<u64> = vec![];
    assert_eq!(jitter_us(&samples), 0);
}

#[test]
fn jitter_two_samples() {
    let samples: Vec<u64> = vec![7_000, 9_500];
    assert_eq!(jitter_us(&samples), 2_500);
}

#[test]
fn config_defaults() {
    let c = ProbeConfig::default();
    assert_eq!(c.download_size_bytes, 100_000_000);
    assert_eq!(c.upload_size_bytes, 20_000_000);
    assert_eq!(c.request_timeout_seconds, 30);
    assert_eq!(c.latency_sample_count, 3);
    assert_eq!(c.jitter_sample_count, 10);
    assert_eq!(c.jitter_inter_sample_delay_ms, 100);
    assert!(!c.verbose);
}

#[test]
fn probes_run_in_fixed_order() {
    let mut cfg = ProbeConfig::default();
    cfg.latency_sample_count = 2;
    cfg.jitter_sample_count = 2;
    let mut t = SpeedTest::new(cfg);

    assert_eq!(
        t.next_request(),
        Some(ProbeRequest::Download { size_bytes: 100_000_000 })
    );
    t.record(ProbeOutcome::Success { bytes_received: 1_000, elapsed_us: 1_000 });

    assert_eq!(
        t.next_request(),
        Some(ProbeRequest::Upload { size_bytes: 20_000_000 })
    );
    t.record(ok(1_000));

    assert_eq!(t.next_request(), Some(ProbeRequest::LatencyGet));
    t.record(ok(10_000));
    assert_eq!(t.next_request(), Some(ProbeRequest::LatencyGet));
    t.record(ok(20_000));

    // No pause before the first jitter request, the configured pause after.
    assert_eq!(t.next_request(), Some(ProbeRequest::JitterGet { delay_before_ms: 0 }));
    t.record(ok(30_000));
    assert_eq!(t.next_request(), Some(ProbeRequest::JitterGet { delay_before_ms: 100 }));
    t.record(ok(31_000));

    assert!(t.is_done());
    assert_eq!(t.next_request(), None);
}

#[test]
fn end_to_end_mock_run() {
    // Download of 50,000,000 bytes in 1.0 s, upload of the configured
    // 20,000,000 bytes acknowledged in 2.0 s, latency samples 12, 14, 13 ms,
    // jitter samples 50, 52, 49 ms.
    let mut cfg = ProbeConfig::default();
    cfg.latency_sample_count = 3;
    cfg.jitter_sample_count = 3;
    let outcomes: Vec<ProbeOutcome> = vec![
        ProbeOutcome::Success { bytes_received: 50_000_000, elapsed_us: 1_000_000 },
        ok(2_000_000),
        ok(12_000),
        ok(14_000),
        ok(13_000),
        ok(50_000),
        ok(52_000),
        ok(49_000),
    ];
    let t = run_recorded(cfg, &outcomes);
    assert!(t.is_done());
    let r = t.finish(1_700_000_000_000, "cloudflare".to_string());

    assert_eq!(r.download_bits_per_sec, 400_000_000); // 400.0 Mbps
    assert_eq!(r.upload_bits_per_sec, 80_000_000); // 80.0 Mbps
    assert_eq!(r.ping_us, 13_000); // 13.0 ms
    // Deviations of 2 and 3 ms have a mean of 2.5 ms.
    assert_eq!(r.jitter_us, 2_500);
    assert_eq!(r.timestamp_ms, 1_700_000_000_000);
    assert_eq!(r.server_id, "cloudflare");
}

#[test]
fn run_is_deterministic() {
    // The same configuration and the same transport outcomes, twice:
    // identical numeric results.
    let mut cfg = ProbeConfig::default();
    cfg.latency_sample_count = 3;
    cfg.jitter_sample_count = 3;
    let outcomes: Vec<ProbeOutcome> = vec![
        ProbeOutcome::Success { bytes_received: 44_000_000, elapsed_us: 1_600_000 },
        ok(2_000_000),
        ProbeOutcome::Failure,
        ok(14_000),
        ok(13_000),
        ok(50_000),
        ok(52_000),
        ok(49_000),
    ];
    let first = run_recorded(cfg, &outcomes).finish(7, "cloudflare".to_string());
    let second = run_recorded(cfg, &outcomes).finish(7, "cloudflare".to_string());
    assert_eq!(first.download_bits_per_sec, second.download_bits_per_sec);
    assert_eq!(first.upload_bits_per_sec, second.upload_bits_per_sec);
    assert_eq!(first.ping_us, second.ping_us);
    assert_eq!(first.jitter_us, second.jitter_us);
    assert_eq!(first.server_id, second.server_id);
}

#[test]
fn failed_download_reports_zero() {
    let mut cfg = ProbeConfig::default();
    cfg.latency_sample_count = 1;
    cfg.jitter_sample_count = 2;
    let outcomes: Vec<ProbeOutcome> =
        vec![ProbeOutcome::Failure, ok(1_000_000), ok(10_000), ok(20_000), ok(22_000)];
    let t = run_recorded(cfg, &outcomes);
    assert!(t.is_done());
    let r = t.finish(0, "cloudflare".to_string());
    assert_eq!(r.download_bits_per_sec, 0);
    // The rest of the run was not aborted.
    assert_eq!(r.upload_bits_per_sec, 160_000_000);
    assert_eq!(r.ping_us, 10_000);
    assert_eq!(r.jitter_us, 2_000);
}

#[test]
fn failed_latency_samples_are_skipped() {
    let mut cfg = ProbeConfig::default();
    cfg.latency_sample_count = 3;
    cfg.jitter_sample_count = 0;
    let outcomes: Vec<ProbeOutcome> = vec![
        ok(1_000),
        ok(1_000),
        ProbeOutcome::Failure,
        ok(30_000),
        ProbeOutcome::Failure,
    ];
    let t = run_recorded(cfg, &outcomes);
    assert!(t.is_done());
    let r = t.finish(0, "cloudflare".to_string());
    // 1 of 3 succeeding still yields a mean from that one sample.
    assert_eq!(r.ping_us, 30_000);
}

#[test]
fn all_latency_samples_failed_is_zero() {
    let mut cfg = ProbeConfig::default();
    cfg.latency_sample_count = 3;
    cfg.jitter_sample_count = 0;
    let outcomes: Vec<ProbeOutcome> = vec![
        ok(1_000),
        ok(1_000),
        ProbeOutcome::Failure,
        ProbeOutcome::Failure,
        ProbeOutcome::Failure,
    ];
    let r = run_recorded(cfg, &outcomes).finish(0, "cloudflare".to_string());
    assert_eq!(r.ping_us, 0);
}

#[test]
fn failed_jitter_sample_degrades_to_zero() {
    // A transport failure during jitter sampling zeroes the jitter figure
    // but never unwinds the whole run.
    let mut cfg = ProbeConfig::default();
    cfg.latency_sample_count = 1;
    cfg.jitter_sample_count = 5;
    let outcomes: Vec<ProbeOutcome> = vec![
        ProbeOutcome::Success { bytes_received: 8_000_000, elapsed_us: 1_000_000 },
        ok(1_000_000),
        ok(10_000),
        ok(50_000),
        ok(52_000),
        ProbeOutcome::Failure,
    ];
    let t = run_recorded(cfg, &outcomes);
    assert!(t.is_done());
    let r = t.finish(3, "cloudflare".to_string());
    assert_eq!(r.jitter_us, 0);
    assert_eq!(r.download_bits_per_sec, 64_000_000);
    assert_eq!(r.upload_bits_per_sec, 160_000_000);
    assert_eq!(r.ping_us, 10_000);
}

#[test]
fn every_probe_failed_still_full_record() {
    // The orchestrator never raises: four zeros, timestamp and server id.
    let mut cfg = ProbeConfig::default();
    cfg.latency_sample_count = 2;
    cfg.jitter_sample_count = 2;
    let outcomes: Vec<ProbeOutcome> = vec![
        ProbeOutcome::Failure,
        ProbeOutcome::Failure,
        ProbeOutcome::Failure,
        ProbeOutcome::Failure,
        ProbeOutcome::Failure,
    ];
    let t = run_recorded(cfg, &outcomes);
    assert!(t.is_done());
    let r = t.finish(99, "cloudflare".to_string());
    assert_eq!(r.download_bits_per_sec, 0);
    assert_eq!(r.upload_bits_per_sec, 0);
    assert_eq!(r.ping_us, 0);
    assert_eq!(r.jitter_us, 0);
    assert_eq!(r.timestamp_ms, 99);
    assert_eq!(r.server_id, "cloudflare");
}

#[test]
fn zero_sample_counts_skip_the_samplers() {
    let mut cfg = ProbeConfig::default();
    cfg.latency_sample_count = 0;
    cfg.jitter_sample_count = 0;
    let mut t = SpeedTest::new(cfg);
    assert!(matches!(t.next_request(), Some(ProbeRequest::Download { .. })));
    t.record(ok(1_000));
    assert!(matches!(t.next_request(), Some(ProbeRequest::Upload { .. })));
    t.record(ok(1_000));
    assert!(t.is_done());
    let r = t.finish(0, "cloudflare".to_string());
    assert_eq!(r.ping_us, 0);
    assert_eq!(r.jitter_us, 0);
}

#[test]
fn finish_now_stamps_a_timestamp() {
    // Runs the wall-clock wrapper for real; only sanity of the figures and
    // the stamp's presence can be asserted.
    let mut cfg = ProbeConfig::default();
    cfg.latency_sample_count = 1;
    cfg.jitter_sample_count = 0;
    let outcomes: Vec<ProbeOutcome> = vec![
        ProbeOutcome::Success { bytes_received: 1_000, elapsed_us: 1_000 },
        ok(1_000),
        ok(5_000),
    ];
    let t = run_recorded(cfg, &outcomes);
    let r = t.finish_now("cloudflare".to_string());
    assert_eq!(r.ping_us, 5_000);
    assert_eq!(r.server_id, "cloudflare");
    // Any sane clock is far past the epoch.
    assert!(r.timestamp_ms > 0);
}

#[test]
fn upload_payload_is_zero_filled() {
    let body = upload_payload(1_024);
    assert_eq!(body.len(), 1_024);
    assert!(body.iter().all(|b| *b == 0));
    let empty = upload_payload(0);
    assert_eq!(empty.len(), 0);
}

#[test]
fn download_uses_actual_bytes_received() {
    // A truncated transfer reports a real, lower figure, not a failure.
    let mut cfg = ProbeConfig::default();
    cfg.download_size_bytes = 100_000_000;
    cfg.latency_sample_count = 0;
    cfg.jitter_sample_count = 0;
    let outcomes: Vec<ProbeOutcome> = vec![
        ProbeOutcome::Success { bytes_received: 25_000_000, elapsed_us: 1_000_000 },
        ProbeOutcome::Failure,
    ];
    let r = run_recorded(cfg, &outcomes).finish(0, "cloudflare".to_string());
    assert_eq!(r.download_bits_per_sec, 200_000_000);
}

#[test]
fn upload_uses_requested_size() {
    // The upload figure is computed over the requested body size, whatever
    // byte count the acknowledgement carried.
    let mut cfg = ProbeConfig::default();
    cfg.upload_size_bytes = 10_000_000;
    cfg.latency_sample_count = 0;
    cfg.jitter_sample_count = 0;
    let outcomes: Vec<ProbeOutcome> = vec![
        ProbeOutcome::Failure,
        ProbeOutcome::Success { bytes_received: 17, elapsed_us: 1_000_000 },
    ];
    let r = run_recorded(cfg, &outcomes).finish(0, "cloudflare".to_string());
    assert_eq!(r.upload_bits_per_sec, 80_000_000);
}

#[test]
fn record_after_done_changes_nothing() {
    let mut cfg = ProbeConfig::default();
    cfg.latency_sample_count = 0;
    cfg.jitter_sample_count = 0;
    let mut t = SpeedTest::new(cfg);
    t.record(ProbeOutcome::Success { bytes_received: 2_000_000, elapsed_us: 1_000_000 });
    t.record(ok(1_000_000));
    assert!(t.is_done());
    t.record(ok(123));
    assert!(t.is_done());
    let r = t.finish(0, "cloudflare".to_string());
    assert_eq!(r.download_bits_per_sec, 16_000_000);
}

#[test]
fn phases_are_distinct() {
    assert_ne!(Phase::Download, Phase::Upload);
    assert_ne!(Phase::Latency, Phase::Jitter);
    assert_ne!(Phase::Jitter, Phase::Done);
}
