//! The parameter state of a stabilization job.

use vstd::prelude::*;
use crate::fixed::{magnitude, ratio_micros, ratio_wide, Fixed};

verus! {

/// A background colour: red, green, blue and opacity.
pub type Color = (Fixed, Fixed, Fixed, Fixed);

/// The settings that describe one stabilization job.
pub struct BasicParams {
    /// Processing input size, as width and height.
    pub size: (usize, usize),
    /// Processing output size.
    pub output_size: (usize, usize),
    /// Full-resolution input size.
    pub video_size: (usize, usize),
    /// Full-resolution output size.
    pub video_output_size: (usize, usize),
    /// The colour shown where the corrected frame has no source pixel.
    pub background: Color,
    /// Sensor readout time of one frame, in milliseconds.
    pub frame_readout_time: Fixed,
    /// Length of the adaptive-zoom window, in seconds.
    pub adaptive_zoom_window: Fixed,
    /// Target field of view.
    pub fov: Fixed,
    /// Field of view of each frame, as adaptive zoom last computed it.
    pub fovs: Vec<Fixed>,
    /// Nominal frame rate of the video.
    pub fps: Fixed,
    /// The factor by which an overridden frame rate differs from the nominal one.
    pub fps_scale: Option<Fixed>,
    /// Number of frames in the video.
    pub frame_count: usize,
    /// Length of the video, in milliseconds.
    pub duration_ms: Fixed,
    /// Start of the trimmed range, as a fraction of the video.
    pub trim_start: Fixed,
    /// End of the trimmed range, as a fraction of the video.
    pub trim_end: Fixed,
    /// Rotation of the video, in degrees.
    pub video_rotation: Fixed,
    /// Whether pixel rows are stored bottom-up.
    pub framebuffer_inverted: bool,
    /// Whether the job calibrates a lens rather than stabilizing a video.
    pub is_calibrator: bool,
    /// Whether frames are corrected at all.
    pub stab_enabled: bool,
    /// Whether detected feature points are drawn on the frame.
    pub show_detected_features: bool,
    /// Whether optical-flow lines are drawn on the frame.
    pub show_optical_flow: bool,
}

/// The mathematical value of a [`BasicParams`]: the same fields, with the
/// per-frame fields of view as a sequence.
pub struct ParamsView {
    pub size: (usize, usize),
    pub output_size: (usize, usize),
    pub video_size: (usize, usize),
    pub video_output_size: (usize, usize),
    pub background: Color,
    pub frame_readout_time: Fixed,
    pub adaptive_zoom_window: Fixed,
    pub fov: Fixed,
    pub fovs: Seq<Fixed>,
    pub fps: Fixed,
    pub fps_scale: Option<Fixed>,
    pub frame_count: usize,
    pub duration_ms: Fixed,
    pub trim_start: Fixed,
    pub trim_end: Fixed,
    pub video_rotation: Fixed,
    pub framebuffer_inverted: bool,
    pub is_calibrator: bool,
    pub stab_enabled: bool,
    pub show_detected_features: bool,
    pub show_optical_flow: bool,
}

impl View for BasicParams {
    type V = ParamsView;

    open spec fn view(&self) -> ParamsView {
        ParamsView {
            size: self.size,
            output_size: self.output_size,
            video_size: self.video_size,
            video_output_size: self.video_output_size,
            background: self.background,
            frame_readout_time: self.frame_readout_time,
            adaptive_zoom_window: self.adaptive_zoom_window,
            fov: self.fov,
            fovs: self.fovs@,
            fps: self.fps,
            fps_scale: self.fps_scale,
            frame_count: self.frame_count,
            duration_ms: self.duration_ms,
            trim_start: self.trim_start,
            trim_end: self.trim_end,
            video_rotation: self.video_rotation,
            framebuffer_inverted: self.framebuffer_inverted,
            is_calibrator: self.is_calibrator,
            stab_enabled: self.stab_enabled,
            show_detected_features: self.show_detected_features,
            show_optical_flow: self.show_optical_flow,
        }
    }
}

impl ParamsView {
    /// The settings of a job on which nothing has been set yet: stabilization
    /// and both overlays on, a field of view of one, the whole video kept by
    /// the trim range, and everything else zero, empty or off.
    pub open spec fn initial() -> ParamsView {
        ParamsView {
            size: (0, 0),
            output_size: (0, 0),
            video_size: (0, 0),
            video_output_size: (0, 0),
            background: (
                Fixed { micros: 0 },
                Fixed { micros: 0 },
                Fixed { micros: 0 },
                Fixed { micros: 0 },
            ),
            frame_readout_time: Fixed { micros: 0 },
            adaptive_zoom_window: Fixed { micros: 0 },
            fov: Fixed { micros: 1_000_000 },
            fovs: Seq::empty(),
            fps: Fixed { micros: 0 },
            fps_scale: None,
            frame_count: 0,
            duration_ms: Fixed { micros: 0 },
            trim_start: Fixed { micros: 0 },
            trim_end: Fixed { micros: 1_000_000 },
            video_rotation: Fixed { micros: 0 },
            framebuffer_inverted: false,
            is_calibrator: false,
            stab_enabled: true,
            show_detected_features: true,
            show_optical_flow: true,
        }
    }
}

impl Default for BasicParams {
    fn default() -> (params: BasicParams)
        ensures
            params@ == ParamsView::initial(),
    {
        BasicParams {
            fov: Fixed::one(),
            fovs: Vec::new(),
            stab_enabled: true,
            show_detected_features: true,
            show_optical_flow: true,
            frame_readout_time: Fixed::zero(),
            adaptive_zoom_window: Fixed::zero(),
            size: (0, 0),
            output_size: (0, 0),
            video_size: (0, 0),
            video_output_size: (0, 0),
            video_rotation: Fixed::zero(),
            framebuffer_inverted: false,
            is_calibrator: false,
            trim_start: Fixed::zero(),
            trim_end: Fixed::one(),
            background: (Fixed::zero(), Fixed::zero(), Fixed::zero(), Fixed::zero()),
            fps: Fixed::zero(),
            fps_scale: None,
            frame_count: 0,
            duration_ms: Fixed::zero(),
        }
    }
}

impl Clone for BasicParams {
    fn clone(&self) -> (copy: BasicParams)
        ensures
            copy@ == self@,
    {
        BasicParams {
            size: self.size,
            output_size: self.output_size,
            video_size: self.video_size,
            video_output_size: self.video_output_size,
            background: self.background,
            frame_readout_time: self.frame_readout_time,
            adaptive_zoom_window: self.adaptive_zoom_window,
            fov: self.fov,
            fovs: self.fovs.clone(),
            fps: self.fps,
            fps_scale: self.fps_scale,
            frame_count: self.frame_count,
            duration_ms: self.duration_ms,
            trim_start: self.trim_start,
            trim_end: self.trim_end,
            video_rotation: self.video_rotation,
            framebuffer_inverted: self.framebuffer_inverted,
            is_calibrator: self.is_calibrator,
            stab_enabled: self.stab_enabled,
            show_detected_features: self.show_detected_features,
            show_optical_flow: self.show_optical_flow,
        }
    }
}

/// An extent scaled by the ratio `numerator / denominator`, with the fraction
/// dropped, saturating at the largest `usize`.
///
/// A zero denominator makes the ratio infinite: a positive extent then scales
/// to the largest `usize`, unless the numerator is zero too, which scales
/// everything to zero.
pub open spec fn scaled_dimension(extent: int, numerator: int, denominator: int) -> int {
    if denominator == 0 {
        if numerator == 0 || extent == 0 {
            0
        } else {
            usize::MAX as int
        }
    } else if extent * numerator / denominator > usize::MAX {
        usize::MAX as int
    } else {
        extent * numerator / denominator
    }
}

/// Scales `extent` by `numerator / denominator`.
pub fn scale_dimension(extent: usize, numerator: usize, denominator: usize) -> (scaled: usize)
    ensures
        scaled as int == scaled_dimension(extent as int, numerator as int, denominator as int),
{
    if denominator == 0 {
        if numerator == 0 || extent == 0 {
            0
        } else {
            usize::MAX
        }
    } else {
        assert(0 <= extent * numerator <= 0xffff_ffff_ffff_ffff * 0xffff_ffff_ffff_ffff)
            by (nonlinear_arith)
            requires
                0 <= extent <= 0xffff_ffff_ffff_ffff,
                0 <= numerator <= 0xffff_ffff_ffff_ffff,
        ;
        let product: u128 = extent as u128 * numerator as u128;
        let quotient: u128 = product / denominator as u128;
        if quotient > usize::MAX as u128 {
            usize::MAX
        } else {
            quotient as usize
        }
    }
}

/// The scale that an overriding frame rate stands for: the requested rate over
/// the nominal one, or none where the two differ by a thousandth or less.
pub open spec fn fps_scale_for(nominal: Fixed, requested: Fixed) -> Option<Fixed> {
    if magnitude(requested.micros - nominal.micros) > 1000 {
        Some(Fixed { micros: ratio_micros(requested.micros as int, nominal.micros as int) as i64 })
    } else {
        None
    }
}

impl ParamsView {
    /// Whether the processing output size is the full-resolution output size
    /// scaled by the ratio of the processing width to the full-resolution width.
    pub open spec fn in_proportion(self) -> bool {
        &&& self.output_size.0 == scaled_dimension(
            self.video_output_size.0 as int,
            self.size.0 as int,
            self.video_size.0 as int,
        )
        &&& self.output_size.1 == scaled_dimension(
            self.video_output_size.1 as int,
            self.size.0 as int,
            self.video_size.0 as int,
        )
    }

    /// The processing output size that the proportion asks for.
    pub open spec fn proportional_output(self) -> (usize, usize) {
        (
            scaled_dimension(
                self.video_output_size.0 as int,
                self.size.0 as int,
                self.video_size.0 as int,
            ) as usize,
            scaled_dimension(
                self.video_output_size.1 as int,
                self.size.0 as int,
                self.video_size.0 as int,
            ) as usize,
        )
    }

    /// The settings after the processing size is set to `width` by `height`.
    pub open spec fn with_size(self, width: usize, height: usize) -> ParamsView {
        let resized = ParamsView { size: (width, height), ..self };
        ParamsView { output_size: resized.proportional_output(), ..resized }
    }

    /// The settings after the full-resolution output size is set to `width` by
    /// `height`.
    pub open spec fn with_output_size(self, width: usize, height: usize) -> ParamsView {
        let resized = ParamsView { video_output_size: (width, height), ..self };
        ParamsView { output_size: resized.proportional_output(), ..resized }
    }

    /// The settings after a reset that keeps the stabilization toggle, the two
    /// overlay toggles, the background colour, the adaptive-zoom window and the
    /// framebuffer orientation.
    pub open spec fn cleared(self) -> ParamsView {
        ParamsView {
            stab_enabled: self.stab_enabled,
            show_detected_features: self.show_detected_features,
            show_optical_flow: self.show_optical_flow,
            background: self.background,
            adaptive_zoom_window: self.adaptive_zoom_window,
            framebuffer_inverted: self.framebuffer_inverted,
            ..ParamsView::initial()
        }
    }

    /// The length of the video in milliseconds, divided by the frame-rate scale
    /// where one is set.
    pub open spec fn scaled_duration_ms(self) -> Fixed {
        match self.fps_scale {
            Some(scale) => Fixed {
                micros: ratio_micros(self.duration_ms.micros as int, scale.micros as int) as i64,
            },
            None => self.duration_ms,
        }
    }

    /// The frame rate, divided by the frame-rate scale where one is set.
    pub open spec fn scaled_fps(self) -> Fixed {
        match self.fps_scale {
            Some(scale) => Fixed {
                micros: ratio_micros(self.fps.micros as int, scale.micros as int) as i64,
            },
            None => self.fps,
        }
    }

    /// Whether adaptive zoom is on: its window is positive, or below -0.9.
    pub open spec fn zoom_is_active(self) -> bool {
        self.adaptive_zoom_window.micros > 0 || self.adaptive_zoom_window.micros < -900_000
    }

    /// The time, in milliseconds, at which adaptive zoom samples the
    /// orientation of a frame: `frame * 1000 / fps`, at the scaled frame rate.
    pub open spec fn zoom_sample_time(self, frame: int) -> Fixed {
        Fixed {
            micros: ratio_micros(frame * 1_000_000_000, self.scaled_fps().micros as int) as i64,
        }
    }

    /// The sample times of all frames, in order.
    pub open spec fn zoom_sample_times(self) -> Seq<Fixed> {
        Seq::new(self.frame_count as nat, |frame: int| self.zoom_sample_time(frame))
    }
}

impl BasicParams {
    /// The times at which adaptive zoom samples the smoothed orientation, one
    /// for each frame, or nothing where adaptive zoom is off.
    pub fn zoom_sample_times(&self) -> (times: Option<Vec<Fixed>>)
        ensures
            times.is_some() == self@.zoom_is_active(),
            times.is_some() ==> times.unwrap()@ == self@.zoom_sample_times(),
    {
        if self.adaptive_zoom_window.micros > 0 || self.adaptive_zoom_window.micros < -900_000 {
            let fps: Fixed = self.get_scaled_fps();
            let mut times: Vec<Fixed> = Vec::new();
            let mut frame: usize = 0;
            while frame < self.frame_count
                invariant
                    frame <= self.frame_count,
                    fps == self@.scaled_fps(),
                    times@.len() == frame,
                    forall|i: int| 0 <= i < frame ==> times@[i] == self@.zoom_sample_time(i),
                decreases self.frame_count - frame,
            {
                let at: i64 = ratio_wide(frame as i128 * 1_000_000_000, fps.micros as i128);
                times.push(Fixed { micros: at });
                frame = frame + 1;
            }
            assert(times@ =~= self@.zoom_sample_times());
            Some(times)
        } else {
            None
        }
    }

    /// The length of the video in milliseconds under the frame-rate override.
    pub fn get_scaled_duration_ms(&self) -> (duration: Fixed)
        ensures
            duration == self@.scaled_duration_ms(),
    {
        match self.fps_scale {
            Some(scale) => self.duration_ms.div(scale),
            None => self.duration_ms,
        }
    }

    /// The frame rate under the frame-rate override.
    pub fn get_scaled_fps(&self) -> (fps: Fixed)
        ensures
            fps == self@.scaled_fps(),
    {
        match self.fps_scale {
            Some(scale) => self.fps.div(scale),
            None => self.fps,
        }
    }

    /// Sets the processing size and brings the processing output size back
    /// into proportion.
    pub fn set_size(&mut self, width: usize, height: usize)
        ensures
            final(self)@ == old(self)@.with_size(width, height),
            final(self)@.in_proportion(),
    {
        self.size = (width, height);
        self.output_size = (
            scale_dimension(self.video_output_size.0, self.size.0, self.video_size.0),
            scale_dimension(self.video_output_size.1, self.size.0, self.video_size.0),
        );
    }

    /// Sets the full-resolution output size and brings the processing output
    /// size back into proportion.
    pub fn set_output_size(&mut self, width: usize, height: usize)
        ensures
            final(self)@ == old(self)@.with_output_size(width, height),
            final(self)@.in_proportion(),
    {
        self.output_size = (
            scale_dimension(width, self.size.0, self.video_size.0),
            scale_dimension(height, self.size.0, self.video_size.0),
        );
        self.video_output_size = (width, height);
    }

    /// Resets the settings, keeping the stabilization toggle, the two overlay
    /// toggles, the background colour, the adaptive-zoom window and the
    /// framebuffer orientation.
    pub fn clear(&mut self)
        ensures
            final(self)@ == old(self)@.cleared(),
    {
        let mut fresh: BasicParams = BasicParams::default();
        fresh.stab_enabled = self.stab_enabled;
        fresh.show_detected_features = self.show_detected_features;
        fresh.show_optical_flow = self.show_optical_flow;
        fresh.background = self.background;
        fresh.adaptive_zoom_window = self.adaptive_zoom_window;
        fresh.framebuffer_inverted = self.framebuffer_inverted;
        *self = fresh;
    }

    /// Records the video's own length, rate, frame count and size.
    pub fn set_video_data(
        &mut self,
        duration_ms: Fixed,
        fps: Fixed,
        frame_count: usize,
        video_size: (usize, usize),
    )
        ensures
            final(self)@ == (ParamsView { fps, frame_count, duration_ms, video_size, ..old(self)@ }),
    {
        self.fps = fps;
        self.frame_count = frame_count;
        self.duration_ms = duration_ms;
        self.video_size = video_size;
    }

    /// Overrides the frame rate: the scale becomes the requested rate over the
    /// nominal one, or none where the two differ by a thousandth or less.
    pub fn override_fps(&mut self, fps: Fixed)
        ensures
            final(self)@ == (ParamsView {
                fps_scale: fps_scale_for(old(self)@.fps, fps),
                ..old(self)@
            }),
    {
        let difference: i128 = fps.micros as i128 - self.fps.micros as i128;
        if difference > 1000 || difference < -1000 {
            self.fps_scale = Some(fps.div(self.fps));
        } else {
            self.fps_scale = None;
        }
    }
}

/// A call that changes one of the two sizes from which the processing output
/// size is derived.
pub enum SizeCall {
    /// `set_size` with a width and a height.
    SetSize(usize, usize),
    /// `set_output_size` with a width and a height.
    SetOutputSize(usize, usize),
}

/// The settings after one size call.
pub open spec fn after_size_call(params: ParamsView, call: SizeCall) -> ParamsView {
    match call {
        SizeCall::SetSize(width, height) => params.with_size(width, height),
        SizeCall::SetOutputSize(width, height) => params.with_output_size(width, height),
    }
}

/// The settings after a sequence of size calls, made in order.
pub open spec fn after_size_calls(params: ParamsView, calls: Seq<SizeCall>) -> ParamsView
    decreases calls.len(),
{
    if calls.len() == 0 {
        params
    } else {
        after_size_call(after_size_calls(params, calls.drop_last()), calls.last())
    }
}

/// After any sequence of `set_size` and `set_output_size` calls that holds at
/// least one call, the processing output size is in proportion. Every prefix of
/// a sequence of calls is such a sequence, so this holds after each call.
pub proof fn lemma_size_calls_keep_proportion(params: ParamsView, calls: Seq<SizeCall>)
    requires
        calls.len() > 0,
    ensures
        after_size_calls(params, calls).in_proportion(),
{
}

/// Where the sizes are in proportion, the full-resolution width is not zero
/// and the scaled width did not saturate, the ratio of processing output width
/// to full-resolution output width and the ratio of processing width to
/// full-resolution width agree to within one pixel of output: cross-multiplied,
/// `output * video <= video_output * size < (output + 1) * video`. The same
/// holds of the heights, which are scaled by the ratio of the widths.
pub proof fn lemma_proportion_within_one_pixel(params: ParamsView)
    requires
        params.in_proportion(),
        params.video_size.0 > 0,
        params.output_size.0 < usize::MAX,
        params.output_size.1 < usize::MAX,
    ensures
        params.output_size.0 * params.video_size.0 <= params.video_output_size.0 * params.size.0,
        params.video_output_size.0 * params.size.0 < (params.output_size.0 + 1)
            * params.video_size.0,
        params.output_size.1 * params.video_size.0 <= params.video_output_size.1 * params.size.0,
        params.video_output_size.1 * params.size.0 < (params.output_size.1 + 1)
            * params.video_size.0,
{
    let d = params.video_size.0 as int;
    let a0 = params.video_output_size.0 as int * params.size.0 as int;
    let a1 = params.video_output_size.1 as int * params.size.0 as int;
    vstd::arithmetic::div_mod::lemma_fundamental_div_mod(a0, d);
    vstd::arithmetic::div_mod::lemma_mod_bound(a0, d);
    vstd::arithmetic::div_mod::lemma_fundamental_div_mod(a1, d);
    vstd::arithmetic::div_mod::lemma_mod_bound(a1, d);
    let q0 = a0 / d;
    let q1 = a1 / d;
    assert(q0 * d == d * q0) by (nonlinear_arith);
    assert(q1 * d == d * q1) by (nonlinear_arith);
    assert((q0 + 1) * d == d * q0 + d) by (nonlinear_arith);
    assert((q1 + 1) * d == d * q1 + d) by (nonlinear_arith);
}

/// Where the processing width equals the full-resolution width and is not
/// zero, sizes in proportion have the processing output size equal to the
/// full-resolution output size.
pub proof fn lemma_proportion_at_full_size(params: ParamsView)
    requires
        params.in_proportion(),
        params.video_size.0 > 0,
        params.size.0 == params.video_size.0,
    ensures
        params.output_size == params.video_output_size,
{
    let d = params.video_size.0 as int;
    vstd::arithmetic::div_mod::lemma_div_multiples_vanish(params.video_output_size.0 as int, d);
    vstd::arithmetic::div_mod::lemma_div_multiples_vanish(params.video_output_size.1 as int, d);
    assert(params.video_output_size.0 * d == d * params.video_output_size.0) by (nonlinear_arith);
    assert(params.video_output_size.1 * d == d * params.video_output_size.1) by (nonlinear_arith);
}

} // verus!
