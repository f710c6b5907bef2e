use std::sync::mpsc::channel;
use std::time::Duration;

use stabilizer_core::lens::{parse_lens_param, FisheyeParams, LensParam};
use stabilizer_core::recompute::{Coordinator, JobAction, JobStage, RecomputeJob};
use stabilizer_core::telemetry::{
    imu_sample, imu_samples, orientation_sample, orientation_samples, telemetry_source,
    TelemetrySource,
};
use stabilizer_core::{run_threaded, Fixed, PixelFormat, StabilizationManager};

fn fx(units: i64) -> Fixed {
    Fixed { micros: units * 1_000_000 }
}

fn manager() -> StabilizationManager {
    StabilizationManager::new(PixelFormat { count: 4, scalar_bytes: 1 })
}

fn complete_lens() -> FisheyeParams {
    FisheyeParams {
        camera_matrix: vec![
            vec![fx(1), fx(2), fx(3)],
            vec![fx(4), fx(5), fx(6)],
            vec![fx(7), fx(8), fx(9)],
        ],
        distortion_coeffs: vec![fx(10), fx(11), fx(12), fx(13), fx(14)],
    }
}

#[test]
fn default_coordinator_is_all_zero() {
    let c = Coordinator::default();
    assert_eq!(c.current_compute_id, 0);
    assert_eq!(c.smoothness_checksum, 0);
    assert_eq!(c.adaptive_zoom_checksum, 0);
}

#[test]
fn submit_makes_the_job_current() {
    let mut c = Coordinator { current_compute_id: 1, smoothness_checksum: 2, adaptive_zoom_checksum: 3 };
    let job = c.submit(42);
    assert_eq!(job, RecomputeJob { id: 42, stage: JobStage::Entry, smoothing_changed: false });
    assert_eq!(
        c,
        Coordinator { current_compute_id: 42, smoothness_checksum: 2, adaptive_zoom_checksum: 3 }
    );
    assert!(!job.is_superseded(&c));
}

#[test]
fn a_job_over_changed_settings_runs_every_stage() {
    let mut c = Coordinator::default();
    let mut job = c.submit(7);
    assert_eq!(job.advance(&mut c, 100, 200), JobAction::RecomputeSmoothing);
    assert_eq!(job.stage, JobStage::Smoothed);
    assert!(job.smoothing_changed);
    assert_eq!(job.advance(&mut c, 100, 200), JobAction::RecomputeZoom);
    assert_eq!(job.stage, JobStage::Zoomed);
    assert_eq!(c.smoothness_checksum, 0);
    assert_eq!(job.advance(&mut c, 100, 200), JobAction::Commit);
    assert_eq!(job.stage, JobStage::Finished);
    assert_eq!(
        c,
        Coordinator { current_compute_id: 7, smoothness_checksum: 100, adaptive_zoom_checksum: 200 }
    );
    assert_eq!(job.advance(&mut c, 1, 2), JobAction::Idle);
    assert_eq!(job.stage, JobStage::Finished);
    assert_eq!(c.smoothness_checksum, 100);
}

#[test]
fn unchanged_fingerprints_skip_their_stages() {
    let mut c = Coordinator { current_compute_id: 0, smoothness_checksum: 100, adaptive_zoom_checksum: 200 };
    let mut job = c.submit(8);
    assert_eq!(job.advance(&mut c, 100, 200), JobAction::KeepSmoothing);
    assert!(!job.smoothing_changed);
    assert_eq!(job.advance(&mut c, 100, 200), JobAction::KeepZoom);
    assert_eq!(job.advance(&mut c, 100, 200), JobAction::Commit);
    assert_eq!(c.smoothness_checksum, 100);
    assert_eq!(c.adaptive_zoom_checksum, 200);
}

#[test]
fn a_changed_zoom_fingerprint_reruns_zoom_only() {
    let mut c = Coordinator { current_compute_id: 0, smoothness_checksum: 100, adaptive_zoom_checksum: 200 };
    let mut job = c.submit(9);
    assert_eq!(job.advance(&mut c, 100, 201), JobAction::KeepSmoothing);
    assert_eq!(job.advance(&mut c, 100, 201), JobAction::RecomputeZoom);
    assert_eq!(job.advance(&mut c, 100, 201), JobAction::Commit);
    assert_eq!(c.adaptive_zoom_checksum, 201);
}

#[test]
fn changed_smoothing_reruns_zoom_too() {
    let mut c = Coordinator { current_compute_id: 0, smoothness_checksum: 100, adaptive_zoom_checksum: 200 };
    let mut job = c.submit(9);
    assert_eq!(job.advance(&mut c, 101, 200), JobAction::RecomputeSmoothing);
    assert_eq!(job.advance(&mut c, 101, 200), JobAction::RecomputeZoom);
}

#[test]
fn a_second_run_over_unchanged_settings_skips_both_stages() {
    let mut m = manager();
    let mut first = m.recompute_threaded();
    while first.advance(&mut m.coordinator, 55, 66) != JobAction::Commit {}
    let committed = m.coordinator;
    let mut second = m.recompute_threaded();
    assert_eq!(second.advance(&mut m.coordinator, 55, 66), JobAction::KeepSmoothing);
    assert_eq!(second.advance(&mut m.coordinator, 55, 66), JobAction::KeepZoom);
    assert_eq!(second.advance(&mut m.coordinator, 55, 66), JobAction::Commit);
    assert_eq!(m.coordinator.smoothness_checksum, committed.smoothness_checksum);
    assert_eq!(m.coordinator.adaptive_zoom_checksum, committed.adaptive_zoom_checksum);
}

#[test]
fn a_superseded_job_stops_at_each_checkpoint() {
    for steps_before in 0..3 {
        let mut c = Coordinator::default();
        let mut first = c.submit(1);
        for _ in 0..steps_before {
            assert_ne!(first.advance(&mut c, 10, 20), JobAction::Abandon);
        }
        let mut second = c.submit(2);
        assert!(first.is_superseded(&c));
        let before = c;
        assert_eq!(first.advance(&mut c, 10, 20), JobAction::Abandon);
        assert_eq!(first.stage, JobStage::Aborted);
        assert_eq!(c, before);
        assert_eq!(first.advance(&mut c, 10, 20), JobAction::Idle);
        assert_eq!(first.stage, JobStage::Aborted);
        assert!(!first.is_superseded(&c));

        assert_eq!(second.advance(&mut c, 10, 20), JobAction::RecomputeSmoothing);
        assert_eq!(second.advance(&mut c, 10, 20), JobAction::RecomputeZoom);
        assert_eq!(second.advance(&mut c, 10, 20), JobAction::Commit);
        assert_eq!(c.current_compute_id, 2);
    }
}

#[test]
fn an_older_job_that_finished_first_is_overwritten_by_the_newer() {
    let mut c = Coordinator::default();
    let mut first = c.submit(1);
    assert_eq!(first.advance(&mut c, 10, 20), JobAction::RecomputeSmoothing);
    assert_eq!(first.advance(&mut c, 10, 20), JobAction::RecomputeZoom);
    assert_eq!(first.advance(&mut c, 10, 20), JobAction::Commit);
    let mut second = c.submit(2);
    assert_eq!(first.advance(&mut c, 10, 20), JobAction::Idle);
    assert_eq!(second.advance(&mut c, 11, 21), JobAction::RecomputeSmoothing);
    assert_eq!(second.advance(&mut c, 11, 21), JobAction::RecomputeZoom);
    assert_eq!(second.advance(&mut c, 11, 21), JobAction::Commit);
    assert_eq!(
        c,
        Coordinator { current_compute_id: 2, smoothness_checksum: 11, adaptive_zoom_checksum: 21 }
    );
}

#[test]
fn recompute_threaded_draws_fresh_ids() {
    let mut m = manager();
    m.coordinator.smoothness_checksum = 5;
    let mut ids = Vec::new();
    for _ in 0..64 {
        let job = m.recompute_threaded();
        assert_eq!(job.stage, JobStage::Entry);
        assert!(!job.smoothing_changed);
        assert_eq!(m.coordinator.current_compute_id, job.id);
        assert_eq!(m.coordinator.smoothness_checksum, 5);
        ids.push(job.id);
    }
    ids.sort();
    ids.dedup();
    assert!(ids.len() > 1);
}

#[test]
fn forgetting_fingerprints_keeps_the_current_job() {
    let mut c = Coordinator { current_compute_id: 4, smoothness_checksum: 5, adaptive_zoom_checksum: 6 };
    c.forget_fingerprints();
    assert_eq!(
        c,
        Coordinator { current_compute_id: 4, smoothness_checksum: 0, adaptive_zoom_checksum: 0 }
    );
}

#[test]
fn run_threaded_runs_the_closure() {
    let (sender, receiver) = channel();
    run_threaded(move || {
        sender.send(41 + 1).unwrap();
    });
    assert_eq!(receiver.recv_timeout(Duration::from_secs(15)), Ok(42));
}

#[test]
fn a_job_runs_on_the_pool_and_reports_its_id() {
    let mut m = manager();
    let mut job = m.recompute_threaded();
    let id = job.id;
    let mut coordinator = m.coordinator;
    let (sender, receiver) = channel();
    run_threaded(move || {
        loop {
            match job.advance(&mut coordinator, 3, 4) {
                JobAction::Commit => {
                    sender.send(Some(job.id)).unwrap();
                    return;
                }
                JobAction::Abandon | JobAction::Idle => {
                    sender.send(None).unwrap();
                    return;
                }
                _ => {}
            }
        }
    });
    assert_eq!(receiver.recv_timeout(Duration::from_secs(15)), Ok(Some(id)));
}

#[test]
fn lens_parameter_names() {
    assert_eq!(parse_lens_param("fx"), Some(LensParam::Fx));
    assert_eq!(parse_lens_param("fy"), Some(LensParam::Fy));
    assert_eq!(parse_lens_param("cx"), Some(LensParam::Cx));
    assert_eq!(parse_lens_param("cy"), Some(LensParam::Cy));
    assert_eq!(parse_lens_param("k1"), Some(LensParam::K1));
    assert_eq!(parse_lens_param("k2"), Some(LensParam::K2));
    assert_eq!(parse_lens_param("k3"), Some(LensParam::K3));
    assert_eq!(parse_lens_param("k4"), Some(LensParam::K4));
    assert_eq!(parse_lens_param("k5"), None);
    assert_eq!(parse_lens_param("k0"), None);
    assert_eq!(parse_lens_param("fz"), None);
    assert_eq!(parse_lens_param("FX"), None);
    assert_eq!(parse_lens_param(""), None);
    assert_eq!(parse_lens_param("f"), None);
    assert_eq!(parse_lens_param("fxx"), None);
    assert_eq!(parse_lens_param("\u{e9}x"), None);
}

#[test]
fn set_lens_param_writes_the_named_coefficient() {
    let mut m = manager();
    m.lens = complete_lens();
    m.set_lens_param("fx", fx(100));
    m.set_lens_param("fy", fx(101));
    m.set_lens_param("cx", fx(102));
    m.set_lens_param("cy", fx(103));
    m.set_lens_param("k1", fx(104));
    m.set_lens_param("k2", fx(105));
    m.set_lens_param("k3", fx(106));
    m.set_lens_param("k4", fx(107));
    assert_eq!(
        m.lens.camera_matrix,
        vec![
            vec![fx(100), fx(2), fx(102)],
            vec![fx(4), fx(101), fx(103)],
            vec![fx(7), fx(8), fx(9)],
        ]
    );
    assert_eq!(m.lens.distortion_coeffs, vec![fx(104), fx(105), fx(106), fx(107), fx(14)]);
}

#[test]
fn set_lens_param_ignores_unknown_names_and_incomplete_models() {
    let mut m = manager();
    m.lens = complete_lens();
    m.set_lens_param("k5", fx(1));
    m.set_lens_param("focal", fx(1));
    assert_eq!(m.lens.camera_matrix, complete_lens().camera_matrix);
    assert_eq!(m.lens.distortion_coeffs, complete_lens().distortion_coeffs);

    let mut short = complete_lens();
    short.distortion_coeffs.truncate(3);
    assert!(!short.is_complete());
    short.set_lens_param("k1", fx(1));
    short.set_lens_param("fx", fx(1));
    assert_eq!(short.distortion_coeffs, vec![fx(10), fx(11), fx(12)]);
    assert_eq!(short.camera_matrix, complete_lens().camera_matrix);

    let mut ragged = complete_lens();
    ragged.camera_matrix[2].push(fx(0));
    ragged.set_lens_param("fx", fx(77));
    assert_eq!(ragged.camera_matrix[0][0], fx(1));

    let mut empty = FisheyeParams::new();
    assert!(!empty.is_complete());
    empty.set_lens_param("fx", fx(1));
    assert!(empty.camera_matrix.is_empty());
    assert!(empty.distortion_coeffs.is_empty());
}

#[test]
fn set_param_and_clone_of_a_lens() {
    let mut lens = complete_lens();
    lens.set_param(LensParam::Cy, fx(50));
    let copy = lens.clone();
    assert_eq!(copy.camera_matrix[1], vec![fx(4), fx(5), fx(50)]);
    assert_eq!(copy.distortion_coeffs, lens.distortion_coeffs);
    lens.set_param(LensParam::K4, fx(0));
    assert_eq!(copy.distortion_coeffs[3], fx(13));
}

#[test]
fn project_files_are_known_by_their_ending() {
    assert_eq!(telemetry_source("clip.gyroflow"), TelemetrySource::ProjectFile);
    assert_eq!(telemetry_source(".gyroflow"), TelemetrySource::ProjectFile);
    assert_eq!(telemetry_source("/a/b/vid\u{e9}o.gyroflow"), TelemetrySource::ProjectFile);
    assert_eq!(telemetry_source("clip.mp4"), TelemetrySource::Recording);
    assert_eq!(telemetry_source("gyroflow"), TelemetrySource::Recording);
    assert_eq!(telemetry_source("clip.gyroflow.mp4"), TelemetrySource::Recording);
    assert_eq!(telemetry_source("clip.GYROFLOW"), TelemetrySource::Recording);
    assert_eq!(telemetry_source("clip.gyroflo"), TelemetrySource::Recording);
    assert_eq!(telemetry_source(""), TelemetrySource::Recording);
    assert_eq!(manager().load_gyro_data("x.gyroflow"), TelemetrySource::ProjectFile);
    assert_eq!(manager().load_gyro_data("x.mov"), TelemetrySource::Recording);
}

#[test]
fn orientation_rows_hold_time_and_quaternion() {
    let row = vec![0.5f64, 1.25, 0.1, 0.2, 0.3, 0.4, 9.0];
    let sample = orientation_sample(&row).unwrap();
    assert_eq!(sample.seconds, 1.25);
    assert_eq!((sample.w, sample.x, sample.y, sample.z), (0.1, 0.2, 0.3, 0.4));
    assert!(orientation_sample(&vec![0.0f64; 5]).is_none());
    assert!(orientation_sample(&vec![0.0f64; 6]).is_some());

    let rows = vec![row.clone(), vec![1.0, 2.0], vec![10.0, 11.0, 12.0, 13.0, 14.0, 15.0]];
    let samples = orientation_samples(&rows);
    assert_eq!(samples.len(), 2);
    assert_eq!(samples[0].seconds, 1.25);
    assert_eq!(samples[1].seconds, 11.0);
    assert_eq!((samples[1].w, samples[1].x, samples[1].y, samples[1].z), (12.0, 13.0, 14.0, 15.0));
    assert!(orientation_samples::<f64>(&vec![]).is_empty());
}

#[test]
fn imu_rows_hold_rates_and_accelerations() {
    let row = vec![1.0f64, 2.0, 3.0, 4.0, 5.0, 6.0, 7.0, 8.0];
    let sample = imu_sample(&row).unwrap();
    assert_eq!(sample.gyro, (1.0, 2.0, 3.0));
    assert_eq!(sample.accl, (4.0, 5.0, 7.0));
    assert!(imu_sample(&vec![0.0f64; 6]).is_none());
    assert!(imu_sample(&vec![0.0f64; 7]).is_some());

    let rows = vec![vec![0.0; 3], row.clone(), vec![9.0, 8.0, 7.0, 6.0, 5.0, 4.0, 3.0]];
    let samples = imu_samples(&rows);
    assert_eq!(samples.len(), 2);
    assert_eq!(samples[0].accl, (4.0, 5.0, 7.0));
    assert_eq!(samples[1].gyro, (9.0, 8.0, 7.0));
    assert_eq!(samples[1].accl, (6.0, 5.0, 3.0));
}
