use stabilizer_core::fixed::{saturate_i32, saturate_i64};
use stabilizer_core::params::scale_dimension;
use stabilizer_core::{
    frame_at_timestamp, timestamp_at_frame, BasicParams, Fixed, PixelFormat, StabilizationManager,
};

fn fx(units: i64, millionths: i64) -> Fixed {
    Fixed { micros: units * 1_000_000 + millionths }
}

fn rgba8() -> PixelFormat {
    PixelFormat { count: 4, scalar_bytes: 1 }
}

#[test]
fn fixed_constructors() {
    assert_eq!(Fixed::zero().micros, 0);
    assert_eq!(Fixed::one().micros, 1_000_000);
    assert_eq!(Fixed::from_micros(-42).micros, -42);
    assert_eq!(Fixed::from_int(3).micros, 3_000_000);
    assert_eq!(Fixed::from_int(i32::MIN).micros, -2_147_483_648_000_000);
}

#[test]
fn fixed_ratio_drops_the_fraction() {
    assert_eq!(Fixed::ratio(1, 3).micros, 333_333);
    assert_eq!(Fixed::ratio(-1, 3).micros, -333_333);
    assert_eq!(Fixed::ratio(1, -3).micros, -333_333);
    assert_eq!(Fixed::ratio(-2, -3).micros, 666_666);
    assert_eq!(Fixed::ratio(30, 15).micros, 2_000_000);
}

#[test]
fn fixed_ratio_by_zero_saturates() {
    assert_eq!(Fixed::ratio(1, 0).micros, i64::MAX);
    assert_eq!(Fixed::ratio(-1, 0).micros, i64::MIN);
    assert_eq!(Fixed::ratio(0, 0).micros, 0);
    assert_eq!(Fixed::ratio(i64::MAX, 1).micros, i64::MAX);
    assert_eq!(Fixed::ratio(i64::MIN, 1).micros, i64::MIN);
}

#[test]
fn fixed_div_and_divide_whole() {
    assert_eq!(fx(60, 0).div(fx(2, 0)), fx(30, 0));
    assert_eq!(fx(1, 0).div(fx(0, 0)).micros, i64::MAX);
    assert_eq!(fx(2, 0).divide_whole(1001), 501);
    assert_eq!(fx(2, 0).divide_whole(-1001), -501);
    assert_eq!(fx(2, 0).divide_whole(1000), 500);
    assert_eq!(fx(-2, 0).divide_whole(1001), -501);
    assert_eq!(fx(0, 0).divide_whole(5), i64::MAX);
    assert_eq!(fx(0, 0).divide_whole(-5), i64::MIN);
    assert_eq!(fx(0, 0).divide_whole(0), 0);
    assert_eq!(fx(0, 1).divide_whole(i64::MAX), i64::MAX);
}

#[test]
fn saturating_conversions() {
    assert_eq!(saturate_i64(i64::MAX as i128 + 1), i64::MAX);
    assert_eq!(saturate_i64(i64::MIN as i128 - 1), i64::MIN);
    assert_eq!(saturate_i64(-7), -7);
    assert_eq!(saturate_i32(1 << 40), i32::MAX);
    assert_eq!(saturate_i32(-(1 << 40)), i32::MIN);
    assert_eq!(saturate_i32(12), 12);
}

#[test]
fn frame_at_timestamp_rounds_to_nearest() {
    assert_eq!(frame_at_timestamp(fx(1000, 0), fx(30, 0)), 30);
    assert_eq!(frame_at_timestamp(fx(16, 600_000), fx(30, 0)), 0);
    assert_eq!(frame_at_timestamp(fx(16, 700_000), fx(30, 0)), 1);
    assert_eq!(frame_at_timestamp(fx(50, 0), fx(30, 0)), 2);
    assert_eq!(frame_at_timestamp(fx(-50, 0), fx(30, 0)), -2);
    assert_eq!(frame_at_timestamp(fx(0, 0), fx(30, 0)), 0);
    assert_eq!(frame_at_timestamp(fx(1000, 0), fx(0, 0)), 0);
}

#[test]
fn frame_at_timestamp_saturates() {
    let huge = Fixed { micros: i64::MAX };
    assert_eq!(frame_at_timestamp(huge, huge), i32::MAX);
    assert_eq!(frame_at_timestamp(Fixed { micros: i64::MIN }, huge), i32::MIN);
}

#[test]
fn timestamp_at_frame_multiplies() {
    assert_eq!(timestamp_at_frame(2, fx(30, 0)), fx(60_000, 0));
    assert_eq!(timestamp_at_frame(0, fx(30, 0)), fx(0, 0));
    assert_eq!(timestamp_at_frame(-3, fx(1, 500_000)), fx(-4_500, 0));
    assert_eq!(timestamp_at_frame(i32::MAX, Fixed { micros: i64::MAX }).micros, i64::MAX);
    assert_eq!(timestamp_at_frame(i32::MIN, Fixed { micros: i64::MAX }).micros, i64::MIN);
}

#[test]
fn frame_round_trip_at_unit_rate_is_exact() {
    for frame in [0, 1, 7, 1000, 123_456, i32::MAX] {
        let back = frame_at_timestamp(timestamp_at_frame(frame, fx(1, 0)), fx(1, 0));
        assert_eq!(back, frame);
    }
}

#[test]
fn frame_round_trip_stays_close_only_near_unit_rate() {
    // 10 * 1.05 * 1.05 = 11.025: within one frame of 10.
    let near = fx(1, 50_000);
    assert_eq!(frame_at_timestamp(timestamp_at_frame(10, near), near), 11);
    // Frame zero comes back at any rate.
    assert_eq!(frame_at_timestamp(timestamp_at_frame(0, fx(30, 0)), fx(30, 0)), 0);
    // 10 * 30 * 30 = 9000: far from 10.
    assert_eq!(frame_at_timestamp(timestamp_at_frame(10, fx(30, 0)), fx(30, 0)), 9000);
}

#[test]
fn default_params() {
    let p = BasicParams::default();
    assert_eq!(p.size, (0, 0));
    assert_eq!(p.output_size, (0, 0));
    assert_eq!(p.video_size, (0, 0));
    assert_eq!(p.video_output_size, (0, 0));
    assert_eq!(p.background, (fx(0, 0), fx(0, 0), fx(0, 0), fx(0, 0)));
    assert_eq!(p.frame_readout_time, fx(0, 0));
    assert_eq!(p.adaptive_zoom_window, fx(0, 0));
    assert_eq!(p.fov, fx(1, 0));
    assert!(p.fovs.is_empty());
    assert_eq!(p.fps, fx(0, 0));
    assert_eq!(p.fps_scale, None);
    assert_eq!(p.frame_count, 0);
    assert_eq!(p.duration_ms, fx(0, 0));
    assert_eq!(p.trim_start, fx(0, 0));
    assert_eq!(p.trim_end, fx(1, 0));
    assert_eq!(p.video_rotation, fx(0, 0));
    assert!(!p.framebuffer_inverted);
    assert!(!p.is_calibrator);
    assert!(p.stab_enabled);
    assert!(p.show_detected_features);
    assert!(p.show_optical_flow);
}

#[test]
fn clone_keeps_every_field() {
    let mut p = BasicParams::default();
    p.size = (3, 4);
    p.fovs = vec![fx(1, 0), fx(2, 0)];
    p.fps_scale = Some(fx(2, 0));
    p.is_calibrator = true;
    let q = p.clone();
    assert_eq!(q.size, (3, 4));
    assert_eq!(q.fovs, vec![fx(1, 0), fx(2, 0)]);
    assert_eq!(q.fps_scale, Some(fx(2, 0)));
    assert!(q.is_calibrator);
    assert_eq!(q.fov, fx(1, 0));
}

#[test]
fn scaled_accessors_divide_by_the_override() {
    let mut p = BasicParams::default();
    p.fps = fx(60, 0);
    p.duration_ms = fx(10_000, 0);
    assert_eq!(p.get_scaled_fps(), fx(60, 0));
    assert_eq!(p.get_scaled_duration_ms(), fx(10_000, 0));
    p.fps_scale = Some(fx(2, 0));
    assert_eq!(p.get_scaled_fps(), fx(30, 0));
    assert_eq!(p.get_scaled_duration_ms(), fx(5_000, 0));
    p.fps_scale = Some(fx(0, 500_000));
    assert_eq!(p.get_scaled_fps(), fx(120, 0));
    assert_eq!(p.get_scaled_duration_ms(), fx(20_000, 0));
}

#[test]
fn scale_dimension_values() {
    assert_eq!(scale_dimension(1920, 960, 1920), 960);
    assert_eq!(scale_dimension(1080, 960, 1920), 540);
    assert_eq!(scale_dimension(3, 1, 3), 1);
    assert_eq!(scale_dimension(49, 1, 49), 1);
    assert_eq!(scale_dimension(1081, 1, 2), 540);
    assert_eq!(scale_dimension(7, 0, 0), 0);
    assert_eq!(scale_dimension(0, 7, 0), 0);
    assert_eq!(scale_dimension(7, 7, 0), usize::MAX);
    assert_eq!(scale_dimension(usize::MAX, usize::MAX, 1), usize::MAX);
}

#[test]
fn set_size_then_set_output_size_scenario() {
    let mut m = StabilizationManager::new(rgba8());
    m.params.size = (1920, 1080);
    m.params.video_size = (1920, 1080);
    m.params.video_output_size = (1920, 1080);
    m.set_size(960, 540);
    assert_eq!(m.params.size, (960, 540));
    assert_eq!(m.params.output_size, (960, 540));
    m.set_output_size(1920, 1080);
    assert_eq!(m.params.output_size, (960, 540));
    assert_eq!(m.params.video_output_size, (1920, 1080));
}

#[test]
fn sizes_stay_in_proportion_over_a_sequence_of_calls() {
    let mut p = BasicParams::default();
    p.video_size = (4000, 3000);
    let calls: [(bool, usize, usize); 6] = [
        (true, 2000, 1500),
        (false, 3840, 2160),
        (true, 1000, 750),
        (false, 1280, 720),
        (true, 4000, 3000),
        (true, 333, 250),
    ];
    for (is_size, w, h) in calls {
        if is_size {
            p.set_size(w, h);
        } else {
            p.set_output_size(w, h);
        }
        let (ow, oh) = p.output_size;
        let (vw, vh) = p.video_output_size;
        assert!(ow * p.video_size.0 <= vw * p.size.0);
        assert!(vw * p.size.0 < (ow + 1) * p.video_size.0);
        assert!(oh * p.video_size.0 <= vh * p.size.0);
        assert!(vh * p.size.0 < (oh + 1) * p.video_size.0);
    }
    assert_eq!(p.output_size, (106, 59));
}

#[test]
fn set_size_reports_the_engine_setup() {
    let mut m = StabilizationManager::new(rgba8());
    m.params.video_size = (1920, 1080);
    assert_eq!(m.set_output_size(1280, 720), None);
    let setup = m.set_size(1920, 1080).unwrap();
    assert_eq!(setup.size, (1920, 1080));
    assert_eq!(setup.stride, 7680);
    assert_eq!(setup.output_size, (1280, 720));
    assert_eq!(setup.output_stride, 5120);
    assert_eq!(setup.background, m.params.background);
    assert_eq!(m.init_size(), Some(setup));
    assert_eq!(m.set_size(0, 1080), None);
}

#[test]
fn engine_setup_is_refused_where_a_row_does_not_fit() {
    let mut m = StabilizationManager::new(PixelFormat { count: usize::MAX, scalar_bytes: 2 });
    m.params.size = (2, 2);
    m.params.output_size = (2, 2);
    assert_eq!(m.init_size(), None);
    m.pixel = PixelFormat { count: usize::MAX, scalar_bytes: 0 };
    let setup = m.init_size().unwrap();
    assert_eq!(setup.stride, 0);
    assert_eq!(setup.output_stride, 0);
}

#[test]
fn clear_keeps_the_allow_list_and_resets_the_rest() {
    let mut m = StabilizationManager::new(rgba8());
    m.init_from_video_data(fx(5000, 0), fx(30, 0), 150, (1920, 1080));
    m.set_output_size(1280, 720);
    m.set_size(960, 540);
    m.set_stab_enabled(false);
    m.set_show_detected_features(false);
    m.set_show_optical_flow(false);
    m.set_background_color((fx(1, 0), fx(2, 0), fx(3, 0), fx(4, 0)));
    m.set_adaptive_zoom(fx(4, 0));
    m.params.framebuffer_inverted = true;
    m.params.is_calibrator = true;
    m.set_fov(fx(2, 0));
    m.set_fovs(vec![fx(1, 0)]);
    m.set_trim_start(fx(0, 100_000));
    m.set_trim_end(fx(0, 900_000));
    m.set_video_rotation(fx(90, 0));
    m.set_frame_readout_time(fx(8, 0));
    m.override_video_fps(fx(60, 0));
    let job = m.recompute_threaded();

    m.clear();

    assert!(!m.params.stab_enabled);
    assert!(!m.params.show_detected_features);
    assert!(!m.params.show_optical_flow);
    assert_eq!(m.params.background, (fx(1, 0), fx(2, 0), fx(3, 0), fx(4, 0)));
    assert_eq!(m.params.adaptive_zoom_window, fx(4, 0));
    assert!(m.params.framebuffer_inverted);

    let d = BasicParams::default();
    assert_eq!(m.params.size, d.size);
    assert_eq!(m.params.output_size, d.output_size);
    assert_eq!(m.params.video_size, d.video_size);
    assert_eq!(m.params.video_output_size, d.video_output_size);
    assert_eq!(m.params.frame_readout_time, d.frame_readout_time);
    assert_eq!(m.params.fov, d.fov);
    assert!(m.params.fovs.is_empty());
    assert_eq!(m.params.fps, d.fps);
    assert_eq!(m.params.fps_scale, None);
    assert_eq!(m.params.frame_count, 0);
    assert_eq!(m.params.duration_ms, d.duration_ms);
    assert_eq!(m.params.trim_start, d.trim_start);
    assert_eq!(m.params.trim_end, d.trim_end);
    assert_eq!(m.params.video_rotation, d.video_rotation);
    assert!(!m.params.is_calibrator);
    assert_eq!(m.coordinator.current_compute_id, job.id);
}

#[test]
fn setters_change_one_field() {
    let mut m = StabilizationManager::new(rgba8());
    m.set_video_rotation(fx(180, 0));
    assert_eq!(m.params.video_rotation, fx(180, 0));
    m.set_trim_start(fx(0, 250_000));
    assert_eq!(m.params.trim_start, fx(0, 250_000));
    m.set_trim_end(fx(0, 750_000));
    assert_eq!(m.params.trim_end, fx(0, 750_000));
    m.set_show_detected_features(false);
    assert!(!m.params.show_detected_features);
    m.set_show_optical_flow(false);
    assert!(!m.params.show_optical_flow);
    m.set_stab_enabled(false);
    assert!(!m.params.stab_enabled);
    m.set_frame_readout_time(fx(16, 0));
    assert_eq!(m.params.frame_readout_time, fx(16, 0));
    m.set_adaptive_zoom(fx(-1, 0));
    assert_eq!(m.params.adaptive_zoom_window, fx(-1, 0));
    m.set_fov(fx(1, 500_000));
    assert_eq!(m.params.fov, fx(1, 500_000));
    m.set_background_color((fx(0, 0), fx(0, 0), fx(0, 0), fx(255, 0)));
    assert_eq!(m.params.background.3, fx(255, 0));
    m.set_recording_readout_time(Some(fx(9, 0)));
    assert_eq!(m.params.frame_readout_time, fx(9, 0));
    m.set_recording_readout_time(None);
    assert_eq!(m.params.frame_readout_time, fx(0, 0));
    assert_eq!(m.params.size, (0, 0));
    assert_eq!(m.params.fps, fx(0, 0));
}

#[test]
fn init_from_video_data_records_the_video() {
    let mut m = StabilizationManager::new(rgba8());
    m.init_from_video_data(fx(12_345, 600_000), fx(29, 970_000), 370, (3840, 2160));
    assert_eq!(m.params.duration_ms, fx(12_345, 600_000));
    assert_eq!(m.params.fps, fx(29, 970_000));
    assert_eq!(m.params.frame_count, 370);
    assert_eq!(m.params.video_size, (3840, 2160));
    assert_eq!(m.params.output_size, (0, 0));
}

#[test]
fn override_video_fps_sets_the_scale_and_forgets_fingerprints() {
    let mut m = StabilizationManager::new(rgba8());
    m.init_from_video_data(fx(10_000, 0), fx(30, 0), 300, (1920, 1080));
    m.coordinator.smoothness_checksum = 11;
    m.coordinator.adaptive_zoom_checksum = 22;
    m.coordinator.current_compute_id = 33;
    m.override_video_fps(fx(60, 0));
    assert_eq!(m.params.fps_scale, Some(fx(2, 0)));
    assert_eq!(m.params.get_scaled_fps(), fx(15, 0));
    assert_eq!(m.params.get_scaled_duration_ms(), fx(5_000, 0));
    assert_eq!(m.coordinator.smoothness_checksum, 0);
    assert_eq!(m.coordinator.adaptive_zoom_checksum, 0);
    assert_eq!(m.coordinator.current_compute_id, 33);

    m.override_video_fps(fx(30, 1_000));
    assert_eq!(m.params.fps_scale, None);
    m.override_video_fps(fx(30, 1_001));
    assert_eq!(m.params.fps_scale, Some(Fixed { micros: 1_000_033 }));
    m.override_video_fps(fx(29, 998_999));
    assert_eq!(m.params.fps_scale, Some(Fixed { micros: 999_966 }));
    m.override_video_fps(fx(29, 999_000));
    assert_eq!(m.params.fps_scale, None);
}

#[test]
fn override_of_a_zero_rate_saturates() {
    let mut m = StabilizationManager::new(rgba8());
    m.override_video_fps(fx(30, 0));
    assert_eq!(m.params.fps_scale, Some(Fixed { micros: i64::MAX }));
    assert_eq!(m.params.get_scaled_fps(), fx(0, 0));
}

#[test]
fn zoom_sample_times_follow_the_scaled_rate() {
    let mut p = BasicParams::default();
    p.fps = fx(30, 0);
    p.frame_count = 4;
    assert_eq!(StabilizationManager::recompute_adaptive_zoom_static(&p), None);
    p.adaptive_zoom_window = fx(0, -900_000);
    assert_eq!(p.zoom_sample_times(), None);
    p.adaptive_zoom_window = fx(0, -900_001);
    let times = StabilizationManager::recompute_adaptive_zoom_static(&p).unwrap();
    assert_eq!(
        times,
        vec![
            fx(0, 0),
            Fixed { micros: 33_333_333 },
            Fixed { micros: 66_666_666 },
            fx(100, 0),
        ]
    );
    p.adaptive_zoom_window = fx(0, 1);
    p.fps_scale = Some(fx(2, 0));
    let times = p.zoom_sample_times().unwrap();
    assert_eq!(
        times,
        vec![fx(0, 0), Fixed { micros: 66_666_666 }, Fixed { micros: 133_333_333 }, fx(200, 0)]
    );
    p.frame_count = 0;
    assert_eq!(p.zoom_sample_times(), Some(vec![]));
}

#[test]
fn zoom_sample_times_at_a_zero_rate() {
    let mut p = BasicParams::default();
    p.frame_count = 2;
    p.adaptive_zoom_window = fx(1, 0);
    assert_eq!(p.zoom_sample_times(), Some(vec![fx(0, 0), Fixed { micros: i64::MAX }]));
}

#[test]
fn render_stabilizator_is_an_independent_copy() {
    let mut m = StabilizationManager::new(rgba8());
    m.init_from_video_data(fx(5000, 0), fx(30, 0), 150, (1920, 1080));
    m.set_output_size(1280, 720);
    m.set_size(960, 540);
    m.params.framebuffer_inverted = true;
    m.set_fov(fx(2, 0));
    m.lens.distortion_coeffs = vec![fx(1, 0), fx(2, 0), fx(3, 0), fx(4, 0)];
    m.lens.camera_matrix = vec![vec![fx(1, 0); 3], vec![fx(2, 0); 3], vec![fx(3, 0); 3]];
    m.coordinator.current_compute_id = 77;
    m.coordinator.smoothness_checksum = 5;

    let mut r = m.get_render_stabilizator((3840, 2160));
    assert_eq!(r.params.size, (1920, 1080));
    assert_eq!(r.params.output_size, (3840, 2160));
    assert_eq!(r.params.video_output_size, (3840, 2160));
    assert_eq!(r.params.video_size, (1920, 1080));
    assert!(!r.params.framebuffer_inverted);
    assert_eq!(r.params.fov, fx(2, 0));
    assert_eq!(r.params.frame_count, 150);
    assert_eq!(r.lens.distortion_coeffs, m.lens.distortion_coeffs);
    assert_eq!(r.lens.camera_matrix, m.lens.camera_matrix);
    assert_eq!(r.coordinator.current_compute_id, 0);
    assert_eq!(r.coordinator.smoothness_checksum, 0);
    assert_eq!(r.coordinator.adaptive_zoom_checksum, 0);
    assert_eq!(r.pixel, m.pixel);

    r.set_fov(fx(3, 0));
    r.set_lens_param("k1", fx(9, 0));
    assert_eq!(m.params.fov, fx(2, 0));
    assert_eq!(m.lens.distortion_coeffs[0], fx(1, 0));
    assert_eq!(m.params.size, (960, 540));
    assert!(m.params.framebuffer_inverted);
}
