//! The stabilization manager: the state of one stabilization job and the
//! decisions that are taken on it.
//!
//! The manager decides and records; it does not integrate motion data, warp
//! pixels or read files. Where its caller has to do one of these, the manager
//! hands back what the caller needs for it.

use vstd::prelude::*;
use crate::fixed::{clamp_i64, divided_whole, saturate_i64, Fixed};
use crate::lens::{FisheyeParams, FisheyeView};
use crate::overlay::{
    draw_features, draw_optical_flow, feature_pixels, features_pixels, flow_pixels,
    has_flow_line, opticalflow_pixels, painted_features, painted_flow, FlowLines, OverlayPixel,
    Point,
};
use crate::packing::{fits, pack_padded, packed};
use crate::params::{fps_scale_for, BasicParams, Color, ParamsView};
use crate::recompute::{fresh_job, submitted, Coordinator, RecomputeJob};
use crate::scheduler::random_id;
use crate::telemetry::{telemetry_source, source_of_path, TelemetrySource};
use crate::timing::{frame_at_timestamp, frame_index_at_timestamp};

verus! {

/// How the pixels of a frame are stored: the number of channels and the bytes
/// of one channel.
#[derive(Clone, Copy, Debug, PartialEq, Eq, Structural)]
pub struct PixelFormat {
    pub count: usize,
    pub scalar_bytes: usize,
}

impl PixelFormat {
    /// Whether a pixel has four channels of one byte: the only layout on which
    /// overlays are drawn.
    pub open spec fn takes_overlays(self) -> bool {
        self.count == 4 && self.scalar_bytes == 1
    }

    /// The bytes of `width` pixels.
    pub open spec fn row_bytes(self, width: usize) -> int {
        width * self.count * self.scalar_bytes
    }
}

/// The sizes with which the undistortion engine is set up.
#[derive(Clone, Copy, Debug, PartialEq, Eq)]
pub struct EngineSize {
    pub background: Color,
    pub size: (usize, usize),
    pub stride: usize,
    pub output_size: (usize, usize),
    pub output_stride: usize,
}

/// What the undistortion engine is asked for once a frame has been accepted.
#[derive(Clone, Copy, Debug, PartialEq, Eq, Structural)]
pub struct FrameRequest {
    /// The timestamp to correct for, in microseconds, after the frame-rate
    /// override has been applied.
    pub timestamp_us: i64,
    /// The frame whose overlays belong on the pixels.
    pub frame: i32,
    /// Whether the corners of the calibration target are to be drawn first.
    pub draw_calibration: bool,
}

/// The state of one stabilization job.
pub struct StabilizationManager {
    /// The job's settings.
    pub params: BasicParams,
    /// The lens model's coefficients.
    pub lens: FisheyeParams,
    /// What background recomputations share.
    pub coordinator: Coordinator,
    /// The pixel layout of the frames.
    pub pixel: PixelFormat,
}

/// The mathematical value of a [`StabilizationManager`].
pub struct ManagerView {
    pub params: ParamsView,
    pub lens: FisheyeView,
    pub coordinator: Coordinator,
    pub pixel: PixelFormat,
}

impl View for StabilizationManager {
    type V = ManagerView;

    open spec fn view(&self) -> ManagerView {
        ManagerView {
            params: self.params@,
            lens: self.lens@,
            coordinator: self.coordinator,
            pixel: self.pixel,
        }
    }
}

/// The set-up of the undistortion engine that a set of sizes asks for: none
/// while a width or height is zero, or where a row's bytes do not fit a
/// `usize`.
pub open spec fn engine_size_for(params: ParamsView, pixel: PixelFormat) -> Option<EngineSize> {
    if params.size.0 > 0 && params.output_size.0 > 0 && params.size.1 > 0 && params.output_size.1
        > 0 && pixel.row_bytes(params.size.0) <= usize::MAX && pixel.row_bytes(
        params.output_size.0,
    ) <= usize::MAX {
        Some(
            EngineSize {
                background: params.background,
                size: params.size,
                stride: pixel.row_bytes(params.size.0) as usize,
                output_size: params.output_size,
                output_stride: pixel.row_bytes(params.output_size.0) as usize,
            },
        )
    } else {
        None
    }
}

/// The timestamp for which a frame is corrected: the requested one, divided
/// by the frame-rate scale where one is set.
pub open spec fn render_timestamp(params: ParamsView, timestamp_us: i64) -> i64 {
    match params.fps_scale {
        Some(scale) => divided_whole(timestamp_us as int, scale.micros as int) as i64,
        None => timestamp_us,
    }
}

/// The frame that is shown at a timestamp given in microseconds, at the
/// nominal frame rate.
pub open spec fn render_frame(params: ParamsView, timestamp_us: i64) -> i32 {
    frame_index_at_timestamp(clamp_i64(timestamp_us * 1000), params.fps.micros as int) as i32
}

/// Whether a frame is accepted for correction: stabilization is on and the
/// requested output size is the configured one.
pub open spec fn accepts_frame(params: ParamsView, out_width: usize, out_height: usize) -> bool {
    params.stab_enabled && params.output_size.0 == out_width && params.output_size.1 == out_height
}

/// What the undistortion engine is asked for a frame at `timestamp_us`.
pub open spec fn frame_request(manager: ManagerView, timestamp_us: i64) -> FrameRequest {
    let scaled = render_timestamp(manager.params, timestamp_us);
    FrameRequest {
        timestamp_us: scaled,
        frame: render_frame(manager.params, scaled),
        draw_calibration: manager.pixel.takes_overlays() && manager.params.is_calibrator,
    }
}

/// The pixels after the overlays that are switched on have been drawn: first
/// the feature points, then the optical flow.
pub open spec fn overlaid(
    buffer: Seq<u8>,
    manager: ManagerView,
    points: Seq<Point>,
    window: Seq<Option<FlowLines>>,
    height: usize,
    stride: usize,
) -> Seq<u8> {
    if !manager.pixel.takes_overlays() {
        buffer
    } else {
        let inverted = manager.params.framebuffer_inverted;
        let featured = if manager.params.show_detected_features {
            painted_features(
                buffer,
                feature_pixels(points),
                feature_pixels(points).len() as int,
                height as int,
                stride as int,
                inverted,
            )
        } else {
            buffer
        };
        if manager.params.show_optical_flow && has_flow_line(window, 3) {
            painted_flow(
                featured,
                flow_pixels(window, 3),
                flow_pixels(window, 3).len() as int,
                height as int,
                stride as int,
                inverted,
            )
        } else {
            featured
        }
    }
}

/// The bytes of `width` pixels, if they fit a `usize`.
fn row_bytes(pixel: PixelFormat, width: usize) -> (bytes: Option<usize>)
    ensures
        bytes.is_some() == (pixel.row_bytes(width) <= usize::MAX),
        bytes.is_some() ==> bytes.unwrap() == pixel.row_bytes(width),
{
    if width == 0 || pixel.count == 0 || pixel.scalar_bytes == 0 {
        assert(width * pixel.count * pixel.scalar_bytes == 0) by (nonlinear_arith)
            requires
                width == 0 || pixel.count == 0 || pixel.scalar_bytes == 0,
        ;
        return Some(0);
    }
    let w: usize = width;
    let c: usize = pixel.count;
    let b: usize = pixel.scalar_bytes;
    match w.checked_mul(c) {
        None => {
            assert(w * c * b > usize::MAX) by (nonlinear_arith)
                requires
                    w * c > usize::MAX,
                    b >= 1,
            ;
            None
        },
        Some(pixels) => pixels.checked_mul(b),
    }
}

impl StabilizationManager {
    /// A manager with default settings, an empty lens model and no job
    /// submitted yet, for frames of the given pixel layout.
    pub fn new(pixel: PixelFormat) -> (manager: StabilizationManager)
        ensures
            manager@.params == ParamsView::initial(),
            manager@.lens.camera_matrix.len() == 0,
            manager@.lens.distortion_coeffs.len() == 0,
            manager@.coordinator == (Coordinator {
                current_compute_id: 0,
                smoothness_checksum: 0,
                adaptive_zoom_checksum: 0,
            }),
            manager@.pixel == pixel,
    {
        StabilizationManager {
            params: BasicParams::default(),
            lens: FisheyeParams::new(),
            coordinator: Coordinator::default(),
            pixel,
        }
    }

    /// Records what is known of the video itself.
    pub fn init_from_video_data(
        &mut self,
        duration_ms: Fixed,
        fps: Fixed,
        frame_count: usize,
        video_size: (usize, usize),
    )
        ensures
            final(self)@ == (ManagerView {
                params: ParamsView { fps, frame_count, duration_ms, video_size, ..old(self)@.params },
                ..old(self)@
            }),
    {
        self.params.set_video_data(duration_ms, fps, frame_count, video_size);
    }

    /// Says from which kind of file the motion data at `path` is to be read.
    pub fn load_gyro_data(&self, path: &str) -> (source: TelemetrySource)
        ensures
            source == source_of_path(path@),
    {
        telemetry_source(path)
    }

    /// Records the readout time that a recording's telemetry gave, or zero
    /// where it gave none.
    pub fn set_recording_readout_time(&mut self, frame_readout_time: Option<Fixed>)
        ensures
            final(self)@ == (ManagerView {
                params: ParamsView {
                    frame_readout_time: match frame_readout_time {
                        Some(time) => time,
                        None => Fixed { micros: 0 },
                    },
                    ..old(self)@.params
                },
                ..old(self)@
            }),
    {
        self.params.frame_readout_time = match frame_readout_time {
            Some(time) => time,
            None => Fixed::zero(),
        };
    }

    /// The set-up that the undistortion engine needs for the current sizes, or
    /// nothing while there is nothing to set up.
    pub fn init_size(&self) -> (setup: Option<EngineSize>)
        ensures
            setup == engine_size_for(self@.params, self@.pixel),
    {
        let (w, h): (usize, usize) = self.params.size;
        let (ow, oh): (usize, usize) = self.params.output_size;
        if w > 0 && ow > 0 && h > 0 && oh > 0 {
            match row_bytes(self.pixel, w) {
                None => None,
                Some(stride) => match row_bytes(self.pixel, ow) {
                    None => None,
                    Some(output_stride) => Some(
                        EngineSize {
                            background: self.params.background,
                            size: (w, h),
                            stride,
                            output_size: (ow, oh),
                            output_stride,
                        },
                    ),
                },
            }
        } else {
            None
        }
    }

    /// Sets the processing size, brings the processing output size back into
    /// proportion and says how the undistortion engine is to be set up.
    pub fn set_size(&mut self, width: usize, height: usize) -> (setup: Option<EngineSize>)
        ensures
            final(self)@ == (ManagerView {
                params: old(self)@.params.with_size(width, height),
                ..old(self)@
            }),
            final(self)@.params.in_proportion(),
            setup == engine_size_for(final(self)@.params, final(self)@.pixel),
    {
        self.params.set_size(width, height);
        self.init_size()
    }

    /// Sets the full-resolution output size, brings the processing output size
    /// back into proportion and says how the undistortion engine is to be set
    /// up.
    pub fn set_output_size(&mut self, width: usize, height: usize) -> (setup: Option<EngineSize>)
        ensures
            final(self)@ == (ManagerView {
                params: old(self)@.params.with_output_size(width, height),
                ..old(self)@
            }),
            final(self)@.params.in_proportion(),
            setup == engine_size_for(final(self)@.params, final(self)@.pixel),
    {
        self.params.set_output_size(width, height);
        self.init_size()
    }

    /// The times, in milliseconds, at which adaptive zoom samples the smoothed
    /// orientation, one for each frame, or nothing where adaptive zoom is off
    /// and the per-frame fields of view are to be empty.
    pub fn recompute_adaptive_zoom_static(params: &BasicParams) -> (times: Option<Vec<Fixed>>)
        ensures
            times.is_some() == params@.zoom_is_active(),
            times.is_some() ==> times.unwrap()@ == params@.zoom_sample_times(),
    {
        params.zoom_sample_times()
    }

    /// Takes over the per-frame fields of view that adaptive zoom computed.
    pub fn set_fovs(&mut self, fovs: Vec<Fixed>)
        ensures
            final(self)@ == (ManagerView {
                params: ParamsView { fovs: fovs@, ..old(self)@.params },
                ..old(self)@
            }),
    {
        self.params.fovs = fovs;
    }

    /// Starts a background recomputation: draws a new job id, makes it the
    /// current one and hands out the job. Every job submitted before is
    /// superseded from now on, unless it was submitted under the same id.
    pub fn recompute_threaded(&mut self) -> (job: RecomputeJob)
        ensures
            job == fresh_job(job.id),
            final(self)@ == (ManagerView {
                coordinator: submitted(old(self)@.coordinator, job.id),
                ..old(self)@
            }),
    {
        let id: u64 = random_id();
        self.coordinator.submit(id)
    }

    /// The pixels that mark the detected feature points of a frame, or nothing
    /// where the overlay is off or the frame has no point.
    pub fn get_features_pixels(&self, points: &Vec<Point>) -> (pixels: Option<Vec<OverlayPixel>>)
        ensures
            pixels.is_some() == (self@.params.show_detected_features && points@.len() > 0),
            pixels.is_some() ==> pixels.unwrap()@ == feature_pixels(points@),
    {
        if self.params.show_detected_features {
            features_pixels(points)
        } else {
            None
        }
    }

    /// The pixels of the optical-flow lines of a frame and the two after it,
    /// or nothing where the overlay is off or none of the three has a line.
    pub fn get_opticalflow_pixels(&self, window: &[Option<FlowLines>; 3]) -> (pixels: Option<
        Vec<OverlayPixel>,
    >)
        ensures
            pixels.is_some() == (self@.params.show_optical_flow && has_flow_line(window@, 3)),
            pixels.is_some() ==> pixels.unwrap()@ == flow_pixels(window@, 3),
    {
        if self.params.show_optical_flow {
            opticalflow_pixels(window)
        } else {
            None
        }
    }

    /// Packs the correction parameters of one timestamp into a renderer's
    /// buffer.
    ///
    /// Succeeds where stabilization is on, there are parameters, and they fit
    /// the buffer. Otherwise the buffer is left as it was.
    pub fn fill_undistortion_data_padded<T: Copy>(
        &self,
        data: Option<&Vec<[T; 9]>>,
        out: &mut [T],
    ) -> (done: bool)
        ensures
            done == (self@.params.stab_enabled && data.is_some() && fits(
                data.unwrap()@.len() as int,
                old(out)@.len() as int,
            )),
            done ==> final(out)@ == packed(old(out)@, data.unwrap()@),
            !done ==> final(out)@ == old(out)@,
    {
        if self.params.stab_enabled {
            match data {
                Some(rows) => pack_padded(rows, out),
                None => false,
            }
        } else {
            false
        }
    }

    /// What the undistortion engine is asked for a frame at `timestamp_us`:
    /// the timestamp under the frame-rate override, and the frame whose
    /// overlays belong on it.
    pub fn frame_request(&self, timestamp_us: i64) -> (request: FrameRequest)
        ensures
            request == frame_request(self@, timestamp_us),
    {
        let scaled: i64 = match self.params.fps_scale {
            Some(scale) => scale.divide_whole(timestamp_us),
            None => timestamp_us,
        };
        let millis: Fixed = Fixed { micros: saturate_i64(scaled as i128 * 1000) };
        let frame: i32 = frame_at_timestamp(millis, self.params.fps);
        FrameRequest {
            timestamp_us: scaled,
            frame,
            draw_calibration: self.pixel.count == 4 && self.pixel.scalar_bytes == 1
                && self.params.is_calibrator,
        }
    }

    /// Prepares a frame for correction.
    ///
    /// The frame is refused, and its pixels left as they are, unless
    /// stabilization is on and the requested output size is the configured
    /// one. On an accepted frame of four one-byte channels the overlays that
    /// are switched on are drawn: `points` are the feature points of the
    /// requested frame and `window` the optical flow of that frame and the two
    /// after it. What comes back is what to ask of the undistortion engine.
    pub fn process_pixels(
        &self,
        timestamp_us: i64,
        width: usize,
        height: usize,
        stride: usize,
        out_width: usize,
        out_height: usize,
        out_stride: usize,
        pixels: &mut [u8],
        points: &Vec<Point>,
        window: &[Option<FlowLines>; 3],
    ) -> (request: Option<FrameRequest>)
        ensures
            request.is_some() == accepts_frame(self@.params, out_width, out_height),
            request.is_some() ==> request.unwrap() == frame_request(self@, timestamp_us),
            request.is_none() ==> final(pixels)@ == old(pixels)@,
            request.is_some() ==> final(pixels)@ == overlaid(
                old(pixels)@,
                self@,
                points@,
                window@,
                height,
                stride,
            ),
    {
        if self.params.stab_enabled && self.params.output_size.0 == out_width
            && self.params.output_size.1 == out_height {
            let request: FrameRequest = self.frame_request(timestamp_us);
            if self.pixel.count == 4 && self.pixel.scalar_bytes == 1 {
                let inverted: bool = self.params.framebuffer_inverted;
                match self.get_features_pixels(points) {
                    Some(marks) => {
                        draw_features(pixels, &marks, height, stride, inverted);
                    },
                    None => {},
                }
                match self.get_opticalflow_pixels(window) {
                    Some(lines) => {
                        draw_optical_flow(pixels, &lines, height, stride, inverted);
                    },
                    None => {},
                }
            }
            Some(request)
        } else {
            None
        }
    }

    /// Sets the rotation of the video, in degrees.
    pub fn set_video_rotation(&mut self, v: Fixed)
        ensures
            final(self)@ == (ManagerView {
                params: ParamsView { video_rotation: v, ..old(self)@.params },
                ..old(self)@
            }),
    {
        self.params.video_rotation = v;
    }

    /// Sets the start of the trimmed range.
    pub fn set_trim_start(&mut self, v: Fixed)
        ensures
            final(self)@ == (ManagerView {
                params: ParamsView { trim_start: v, ..old(self)@.params },
                ..old(self)@
            }),
    {
        self.params.trim_start = v;
    }

    /// Sets the end of the trimmed range.
    pub fn set_trim_end(&mut self, v: Fixed)
        ensures
            final(self)@ == (ManagerView {
                params: ParamsView { trim_end: v, ..old(self)@.params },
                ..old(self)@
            }),
    {
        self.params.trim_end = v;
    }

    /// Switches the drawing of detected feature points on or off.
    pub fn set_show_detected_features(&mut self, v: bool)
        ensures
            final(self)@ == (ManagerView {
                params: ParamsView { show_detected_features: v, ..old(self)@.params },
                ..old(self)@
            }),
    {
        self.params.show_detected_features = v;
    }

    /// Switches the drawing of optical-flow lines on or off.
    pub fn set_show_optical_flow(&mut self, v: bool)
        ensures
            final(self)@ == (ManagerView {
                params: ParamsView { show_optical_flow: v, ..old(self)@.params },
                ..old(self)@
            }),
    {
        self.params.show_optical_flow = v;
    }

    /// Switches stabilization on or off.
    pub fn set_stab_enabled(&mut self, v: bool)
        ensures
            final(self)@ == (ManagerView {
                params: ParamsView { stab_enabled: v, ..old(self)@.params },
                ..old(self)@
            }),
    {
        self.params.stab_enabled = v;
    }

    /// Sets the sensor readout time of a frame, in milliseconds.
    pub fn set_frame_readout_time(&mut self, v: Fixed)
        ensures
            final(self)@ == (ManagerView {
                params: ParamsView { frame_readout_time: v, ..old(self)@.params },
                ..old(self)@
            }),
    {
        self.params.frame_readout_time = v;
    }

    /// Sets the adaptive-zoom window, in seconds.
    pub fn set_adaptive_zoom(&mut self, v: Fixed)
        ensures
            final(self)@ == (ManagerView {
                params: ParamsView { adaptive_zoom_window: v, ..old(self)@.params },
                ..old(self)@
            }),
    {
        self.params.adaptive_zoom_window = v;
    }

    /// Sets the target field of view.
    pub fn set_fov(&mut self, v: Fixed)
        ensures
            final(self)@ == (ManagerView {
                params: ParamsView { fov: v, ..old(self)@.params },
                ..old(self)@
            }),
    {
        self.params.fov = v;
    }

    /// Sets the background colour.
    pub fn set_background_color(&mut self, bg: Color)
        ensures
            final(self)@ == (ManagerView {
                params: ParamsView { background: bg, ..old(self)@.params },
                ..old(self)@
            }),
    {
        self.params.background = bg;
    }

    /// Sets the lens coefficient called `param` to `value`. A lens model that
    /// is not complete, or a name that names no coefficient, changes nothing.
    pub fn set_lens_param(&mut self, param: &str, value: Fixed)
        ensures
            final(self)@ == (ManagerView {
                lens: old(self)@.lens.with_named_param(param@, value),
                ..old(self)@
            }),
    {
        self.lens.set_lens_param(param, value);
    }

    /// An independent manager for rendering at `output_size`: a copy of the
    /// settings and the lens model, rows stored top-down, processing at the
    /// video's full size, and no job submitted yet.
    ///
    /// Where the video's width is not zero the copy's processing output size
    /// is `output_size` itself.
    pub fn get_render_stabilizator(&self, output_size: (usize, usize)) -> (render:
        StabilizationManager)
        ensures
            render@.params == (ParamsView {
                framebuffer_inverted: false,
                ..self@.params
            }).with_size(self@.params.video_size.0, self@.params.video_size.1).with_output_size(
                output_size.0,
                output_size.1,
            ),
            render@.params.in_proportion(),
            self@.params.video_size.0 > 0 ==> render@.params.output_size == output_size,
            render@.lens == self@.lens,
            render@.coordinator == (Coordinator {
                current_compute_id: 0,
                smoothness_checksum: 0,
                adaptive_zoom_checksum: 0,
            }),
            render@.pixel == self@.pixel,
    {
        let size: (usize, usize) = self.params.video_size;
        let mut render = StabilizationManager {
            params: self.params.clone(),
            lens: self.lens.clone(),
            coordinator: Coordinator::default(),
            pixel: self.pixel,
        };
        render.params.framebuffer_inverted = false;
        render.params.set_size(size.0, size.1);
        render.params.set_output_size(output_size.0, output_size.1);
        proof {
            if size.0 > 0 {
                crate::params::lemma_proportion_at_full_size(render@.params);
            }
        }
        render
    }

    /// Resets the settings, keeping the stabilization toggle, the two overlay
    /// toggles, the background colour, the adaptive-zoom window and the
    /// framebuffer orientation.
    pub fn clear(&mut self)
        ensures
            final(self)@ == (ManagerView { params: old(self)@.params.cleared(), ..old(self)@ }),
    {
        self.params.clear();
    }

    /// Overrides the frame rate of the video and forgets the committed
    /// fingerprints, so that the next recomputation starts afresh.
    pub fn override_video_fps(&mut self, fps: Fixed)
        ensures
            final(self)@ == (ManagerView {
                params: ParamsView {
                    fps_scale: fps_scale_for(old(self)@.params.fps, fps),
                    ..old(self)@.params
                },
                coordinator: Coordinator {
                    smoothness_checksum: 0,
                    adaptive_zoom_checksum: 0,
                    ..old(self)@.coordinator
                },
                ..old(self)@
            }),
    {
        self.params.override_fps(fps);
        self.coordinator.forget_fingerprints();
    }
}

} // verus!
