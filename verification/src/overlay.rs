//! Overlays drawn on a frame before it is corrected: detected feature points
//! and optical-flow lines.

use vstd::prelude::*;
use crate::fixed::Fixed;

verus! {

/// A position in a frame: column and row.
pub type Point = (i32, i32);

/// The optical-flow matches of one frame: where each feature was, and where it
/// went. The two lists are read in pairs, up to the length of the shorter.
pub type FlowLines = (Vec<Point>, Vec<Point>);

/// One pixel of an overlay: column, row and opacity.
pub type OverlayPixel = (i64, i64, Fixed);

/// How many frames, from the current one on, have their optical flow drawn.
pub const OPTICAL_FLOW_WINDOW: usize = 3;

/// The `k`-th pixel of the blocks drawn for `points`: each point gives nine
/// pixels at full opacity, column by column from the one to its upper left to
/// the one to its lower right.
pub open spec fn feature_block_pixel(points: Seq<Point>, k: int) -> OverlayPixel {
    let point = points[k / 9];
    (
        (point.0 + (k % 9) / 3 - 1) as i64,
        (point.1 + k % 3 - 1) as i64,
        Fixed { micros: 1_000_000 },
    )
}

/// The pixels of the three-by-three blocks drawn for `points`.
pub open spec fn feature_pixels(points: Seq<Point>) -> Seq<OverlayPixel> {
    Seq::new(9 * points.len(), |k: int| feature_block_pixel(points, k))
}

/// The pixels of the three-by-three blocks that mark detected feature points,
/// or nothing where there is no point.
pub fn features_pixels(points: &Vec<Point>) -> (pixels: Option<Vec<OverlayPixel>>)
    ensures
        pixels.is_some() <==> points@.len() > 0,
        pixels.is_some() ==> pixels.unwrap()@ == feature_pixels(points@),
{
    if points.len() == 0 {
        return None;
    }
    let mut out: Vec<OverlayPixel> = Vec::new();
    let mut i: usize = 0;
    while i < points.len()
        invariant
            i <= points@.len(),
            out@.len() == 9 * i,
            forall|k: int| 0 <= k < out@.len() ==> out@[k] == feature_block_pixel(points@, k),
        decreases points@.len() - i,
    {
        let point: Point = points[i];
        let mut xstep: i64 = -1;
        while xstep <= 1
            invariant
                i < points@.len(),
                point == points@[i as int],
                -1 <= xstep <= 2,
                out@.len() == 9 * i + 3 * (xstep + 1),
                forall|k: int| 0 <= k < out@.len() ==> out@[k] == feature_block_pixel(points@, k),
            decreases 2 - xstep,
        {
            let mut ystep: i64 = -1;
            while ystep <= 1
                invariant
                    i < points@.len(),
                    point == points@[i as int],
                    -1 <= xstep <= 1,
                    -1 <= ystep <= 2,
                    out@.len() == 9 * i + 3 * (xstep + 1) + (ystep + 1),
                    forall|k: int|
                        0 <= k < out@.len() ==> out@[k] == feature_block_pixel(points@, k),
                decreases 2 - ystep,
            {
                let ghost k: int = out@.len() as int;
                assert(k / 9 == i && (k % 9) / 3 == xstep + 1 && k % 3 == ystep + 1);
                out.push((point.0 as i64 + xstep, point.1 as i64 + ystep, Fixed::one()));
                ystep = ystep + 1;
            }
            xstep = xstep + 1;
        }
        i = i + 1;
    }
    assert(out@ =~= feature_pixels(points@));
    Some(out)
}

/// The points of the line that Bresenham's algorithm draws from one point to
/// another, in the order in which it draws them.
pub uninterp spec fn bresenham_line(x0: i32, y0: i32, x1: i32, y1: i32) -> Seq<(i32, i32)>;

/// The line from `start` to `end`, as `line_drawing::Bresenham` walks it.
///
/// Trusted: the result is what the iterator yields, collected in order, which
/// the contract names `bresenham_line`. Of the points themselves it claims
/// only what the iterator's documentation says: the line holds both the start
/// and the end point. The iterator runs on `i64`, in which the differences of
/// `i32` coordinates cannot overflow, and every point it yields lies between
/// the two ends, so narrowing back to `i32` loses nothing.
#[verifier::external_body]
fn bresenham(start: Point, end: Point) -> (line: Vec<Point>)
    ensures
        line@ == bresenham_line(start.0, start.1, end.0, end.1),
        line@.len() > 0,
        line@[0] == start,
        line@[line@.len() - 1] == end,
{
    line_drawing::Bresenham::new(
        (start.0 as i64, start.1 as i64),
        (end.0 as i64, end.1 as i64),
    ).map(|p| (p.0 as i32, p.1 as i32)).collect()
}

/// The opacity of the optical flow of the frame `offset` frames ahead:
/// `(3 - offset) / 3`, to the nearest millionth.
pub open spec fn flow_alpha(offset: int) -> Fixed {
    Fixed { micros: ((2_000_000 * (3 - offset) + 3) / 6) as i64 }
}

/// The opacity of the optical flow of the frame `offset` frames ahead.
pub fn flow_opacity(offset: usize) -> (alpha: Fixed)
    requires
        offset < OPTICAL_FLOW_WINDOW,
    ensures
        alpha == flow_alpha(offset as int),
{
    Fixed { micros: (2_000_000 * (3 - offset as i64) + 3) / 6 }
}

/// The pixels of one line at one opacity.
pub open spec fn line_pixels(start: Point, end: Point, alpha: Fixed) -> Seq<OverlayPixel> {
    points_pixels(bresenham_line(start.0, start.1, end.0, end.1), alpha)
}

/// The pixels of the first `count` lines of a frame, in order.
pub open spec fn paired_lines_pixels(
    starts: Seq<Point>,
    ends: Seq<Point>,
    count: int,
    alpha: Fixed,
) -> Seq<OverlayPixel>
    decreases count,
{
    if count <= 0 {
        Seq::empty()
    } else {
        paired_lines_pixels(starts, ends, count - 1, alpha) + line_pixels(
            starts[count - 1],
            ends[count - 1],
            alpha,
        )
    }
}

/// How many lines a frame's matches give: the length of the shorter list.
pub open spec fn paired_count(lines: FlowLines) -> int {
    if lines.0@.len() <= lines.1@.len() {
        lines.0@.len() as int
    } else {
        lines.1@.len() as int
    }
}

/// The pixels of the lines of the frame `offset` frames ahead.
pub open spec fn frame_flow_pixels(lines: Option<FlowLines>, offset: int) -> Seq<OverlayPixel> {
    match lines {
        Some(l) => paired_lines_pixels(l.0@, l.1@, paired_count(l), flow_alpha(offset)),
        None => Seq::empty(),
    }
}

/// The pixels of the lines of the first `frames` frames of the window.
pub open spec fn flow_pixels(window: Seq<Option<FlowLines>>, frames: int) -> Seq<OverlayPixel>
    decreases frames,
{
    if frames <= 0 {
        Seq::empty()
    } else {
        flow_pixels(window, frames - 1) + frame_flow_pixels(window[frames - 1], frames - 1)
    }
}

/// Whether one of the first `frames` frames of the window has a line.
pub open spec fn has_flow_line(window: Seq<Option<FlowLines>>, frames: int) -> bool {
    exists|i: int|
        0 <= i < frames && (#[trigger] window[i]).is_some() && paired_count(window[i].unwrap()) > 0
}

/// The pixels of the given points at one opacity.
pub open spec fn points_pixels(points: Seq<Point>, alpha: Fixed) -> Seq<OverlayPixel> {
    points.map_values(|p: Point| (p.0 as i64, p.1 as i64, alpha))
}

/// Appends one pixel of opacity `alpha` for each of the points, in order.
pub fn append_points(out: &mut Vec<OverlayPixel>, points: &Vec<Point>, alpha: Fixed)
    ensures
        final(out)@ == old(out)@ + points_pixels(points@, alpha),
{
    let mut k: usize = 0;
    assert(out@ =~= old(out)@ + points_pixels(points@, alpha).take(0));
    while k < points.len()
        invariant
            k <= points@.len(),
            out@ == old(out)@ + points_pixels(points@, alpha).take(k as int),
        decreases points@.len() - k,
    {
        let p: Point = points[k];
        out.push((p.0 as i64, p.1 as i64, alpha));
        k = k + 1;
        assert(out@ =~= old(out)@ + points_pixels(points@, alpha).take(k as int));
    }
    assert(points_pixels(points@, alpha).take(k as int) =~= points_pixels(points@, alpha));
}

/// Appends the pixels of the line from `start` to `end`.
fn append_line(out: &mut Vec<OverlayPixel>, start: Point, end: Point, alpha: Fixed)
    ensures
        final(out)@ == old(out)@ + line_pixels(start, end, alpha),
{
    let line: Vec<Point> = bresenham(start, end);
    append_points(out, &line, alpha);
}

/// Appends the pixels of a frame's lines and says how many lines there were.
fn append_frame_lines(out: &mut Vec<OverlayPixel>, lines: &FlowLines, alpha: Fixed) -> (count:
    usize)
    ensures
        count == paired_count(*lines),
        final(out)@ == old(out)@ + paired_lines_pixels(
            lines.0@,
            lines.1@,
            paired_count(*lines),
            alpha,
        ),
{
    let count: usize = if lines.0.len() <= lines.1.len() {
        lines.0.len()
    } else {
        lines.1.len()
    };
    let mut j: usize = 0;
    assert(out@ =~= old(out)@ + paired_lines_pixels(lines.0@, lines.1@, 0, alpha));
    while j < count
        invariant
            j <= count,
            count == paired_count(*lines),
            out@ == old(out)@ + paired_lines_pixels(lines.0@, lines.1@, j as int, alpha),
        decreases count - j,
    {
        append_line(out, lines.0[j], lines.1[j], alpha);
        j = j + 1;
        assert(out@ =~= old(out)@ + paired_lines_pixels(lines.0@, lines.1@, j as int, alpha));
    }
    count
}

/// The pixels of the optical-flow lines of the current frame and the two after
/// it, each frame fainter than the one before, or nothing where none of the
/// three has a line.
pub fn opticalflow_pixels(window: &[Option<FlowLines>; 3]) -> (pixels: Option<Vec<OverlayPixel>>)
    ensures
        pixels.is_some() <==> has_flow_line(window@, 3),
        pixels.is_some() ==> pixels.unwrap()@ == flow_pixels(window@, 3),
{
    let mut out: Vec<OverlayPixel> = Vec::new();
    let mut any: bool = false;
    let mut i: usize = 0;
    while i < OPTICAL_FLOW_WINDOW
        invariant
            i <= 3,
            any <==> has_flow_line(window@, i as int),
            out@ == flow_pixels(window@, i as int),
        decreases 3 - i,
    {
        let ghost before = out@;
        match &window[i] {
            Some(lines) => {
                let count: usize = append_frame_lines(&mut out, lines, flow_opacity(i));
                if count > 0 {
                    any = true;
                }
            },
            None => {
                assert(out@ =~= before + frame_flow_pixels(window@[i as int], i as int));
            },
        }
        proof {
            let done = i as int;
            if has_flow_line(window@, done + 1) && !has_flow_line(window@, done) {
                let w = choose|w: int|
                    0 <= w < done + 1 && (#[trigger] window@[w]).is_some() && paired_count(
                        window@[w].unwrap(),
                    ) > 0;
                assert(w == done);
            }
        }
        i = i + 1;
    }
    if any {
        Some(out)
    } else {
        None
    }
}

/// The byte at which the pixel in column `x` of row `y` starts, in a buffer of
/// four one-byte channels per pixel: `row * stride + x * 4`. Where the rows
/// are stored bottom-up the row is counted from `height`.
pub open spec fn pixel_offset(x: int, y: int, height: int, stride: int, inverted: bool) -> int {
    (if inverted {
        height - y
    } else {
        y
    }) * stride + x * 4
}

/// Whether the three colour bytes that start at `offset` lie in a buffer of
/// `len` bytes.
pub open spec fn offset_in_buffer(offset: int, len: int) -> bool {
    0 <= offset && offset + 2 < len
}

/// Where in a buffer of `len` bytes the pixel in column `x` of row `y` starts,
/// if its three colour bytes lie in the buffer.
pub fn locate(x: i64, y: i64, height: usize, stride: usize, inverted: bool, len: usize) -> (at:
    Option<usize>)
    ensures
        at.is_some() <==> offset_in_buffer(
            pixel_offset(x as int, y as int, height as int, stride as int, inverted),
            len as int,
        ),
        at.is_some() ==> at.unwrap() as int == pixel_offset(
            x as int,
            y as int,
            height as int,
            stride as int,
            inverted,
        ),
{
    let row: i128 = if inverted {
        height as i128 - y as i128
    } else {
        y as i128
    };
    let shift: i128 = 4 * (x as i128);
    match row.checked_mul(stride as i128) {
        None => None,
        Some(base) => match base.checked_add(shift) {
            None => None,
            Some(offset) => {
                if offset >= 0 && offset < len as i128 && len as i128 - offset > 2 {
                    Some(offset as usize)
                } else {
                    None
                }
            },
        },
    }
}

/// The colour of a feature point: red, green and blue.
pub open spec fn feature_colour() -> (u8, u8, u8) {
    (0x0c, 0xff, 0x00)
}

/// The colour of an optical-flow line: red, green and blue.
pub open spec fn flow_colour() -> (u8, u8, u8) {
    (0xfe, 0xfb, 0x47)
}

/// A channel after a colour is laid over it at an opacity:
/// `channel * (1 - alpha) + colour * alpha`, with the fraction dropped and the
/// result held to the range of a byte.
pub open spec fn blend(channel: u8, colour: u8, alpha: Fixed) -> u8 {
    let mixed = channel * (1_000_000 - alpha.micros) + colour * alpha.micros;
    if mixed <= 0 {
        0u8
    } else if mixed / 1_000_000 > 255 {
        255u8
    } else {
        (mixed / 1_000_000) as u8
    }
}

/// Lays `colour` over `channel` at the opacity `alpha`.
pub fn blend_channel(channel: u8, colour: u8, alpha: Fixed) -> (mixed: u8)
    ensures
        mixed == blend(channel, colour, alpha),
{
    let a: i128 = alpha.micros as i128;
    let rest: i128 = 1_000_000 - a;
    let c: i128 = channel as i128;
    let k: i128 = colour as i128;
    assert(-0x1_0000_0000_0000_0000_0000 <= c * rest <= 0x1_0000_0000_0000_0000_0000)
        by (nonlinear_arith)
        requires
            0 <= c <= 255,
            -0x1_0000_0000_0000_0000 <= rest <= 0x1_0000_0000_0000_0000,
    ;
    assert(-0x1_0000_0000_0000_0000_0000 <= k * a <= 0x1_0000_0000_0000_0000_0000)
        by (nonlinear_arith)
        requires
            0 <= k <= 255,
            -0x1_0000_0000_0000_0000 <= a <= 0x1_0000_0000_0000_0000,
    ;
    let total: i128 = c * rest + k * a;
    if total <= 0 {
        0
    } else {
        let whole: i128 = total / 1_000_000;
        if whole > 255 {
            255
        } else {
            whole as u8
        }
    }
}

/// The buffer after a feature pixel is drawn at `offset`: its three colour
/// bytes take the feature colour if they lie in the buffer, and nothing
/// changes if they do not.
pub open spec fn paint_feature(buffer: Seq<u8>, offset: int) -> Seq<u8> {
    if offset_in_buffer(offset, buffer.len() as int) {
        buffer.update(offset, feature_colour().0).update(offset + 1, feature_colour().1).update(
            offset + 2,
            feature_colour().2,
        )
    } else {
        buffer
    }
}

/// The buffer after an optical-flow pixel is drawn at `offset`: the flow
/// colour is laid over its three colour bytes at the pixel's opacity if they
/// lie in the buffer, and nothing changes if they do not.
pub open spec fn paint_flow(buffer: Seq<u8>, offset: int, alpha: Fixed) -> Seq<u8> {
    if offset_in_buffer(offset, buffer.len() as int) {
        buffer.update(offset, blend(buffer[offset], flow_colour().0, alpha)).update(
            offset + 1,
            blend(buffer[offset + 1], flow_colour().1, alpha),
        ).update(offset + 2, blend(buffer[offset + 2], flow_colour().2, alpha))
    } else {
        buffer
    }
}

/// The buffer after the first `count` feature pixels are drawn, in order.
pub open spec fn painted_features(
    buffer: Seq<u8>,
    pixels: Seq<OverlayPixel>,
    count: int,
    height: int,
    stride: int,
    inverted: bool,
) -> Seq<u8>
    decreases count,
{
    if count <= 0 {
        buffer
    } else {
        paint_feature(
            painted_features(buffer, pixels, count - 1, height, stride, inverted),
            pixel_offset(
                pixels[count - 1].0 as int,
                pixels[count - 1].1 as int,
                height,
                stride,
                inverted,
            ),
        )
    }
}

/// The buffer after the first `count` optical-flow pixels are drawn, in order.
pub open spec fn painted_flow(
    buffer: Seq<u8>,
    pixels: Seq<OverlayPixel>,
    count: int,
    height: int,
    stride: int,
    inverted: bool,
) -> Seq<u8>
    decreases count,
{
    if count <= 0 {
        buffer
    } else {
        paint_flow(
            painted_flow(buffer, pixels, count - 1, height, stride, inverted),
            pixel_offset(
                pixels[count - 1].0 as int,
                pixels[count - 1].1 as int,
                height,
                stride,
                inverted,
            ),
            pixels[count - 1].2,
        )
    }
}

/// Draws feature pixels into a frame of four one-byte channels per pixel.
pub fn draw_features(
    buffer: &mut [u8],
    pixels: &Vec<OverlayPixel>,
    height: usize,
    stride: usize,
    inverted: bool,
)
    ensures
        final(buffer)@ == painted_features(
            old(buffer)@,
            pixels@,
            pixels@.len() as int,
            height as int,
            stride as int,
            inverted,
        ),
        final(buffer)@.len() == old(buffer)@.len(),
{
    let mut i: usize = 0;
    while i < pixels.len()
        invariant
            i <= pixels@.len(),
            buffer@.len() == old(buffer)@.len(),
            buffer@ == painted_features(
                old(buffer)@,
                pixels@,
                i as int,
                height as int,
                stride as int,
                inverted,
            ),
        decreases pixels@.len() - i,
    {
        let pixel: OverlayPixel = pixels[i];
        match locate(pixel.0, pixel.1, height, stride, inverted, buffer.len()) {
            Some(at) => {
                buffer[at] = 0x0c;
                buffer[at + 1] = 0xff;
                buffer[at + 2] = 0x00;
            },
            None => {},
        }
        i = i + 1;
    }
}

/// Draws optical-flow pixels into a frame of four one-byte channels per pixel.
pub fn draw_optical_flow(
    buffer: &mut [u8],
    pixels: &Vec<OverlayPixel>,
    height: usize,
    stride: usize,
    inverted: bool,
)
    ensures
        final(buffer)@ == painted_flow(
            old(buffer)@,
            pixels@,
            pixels@.len() as int,
            height as int,
            stride as int,
            inverted,
        ),
        final(buffer)@.len() == old(buffer)@.len(),
{
    let mut i: usize = 0;
    while i < pixels.len()
        invariant
            i <= pixels@.len(),
            buffer@.len() == old(buffer)@.len(),
            buffer@ == painted_flow(
                old(buffer)@,
                pixels@,
                i as int,
                height as int,
                stride as int,
                inverted,
            ),
        decreases pixels@.len() - i,
    {
        let pixel: OverlayPixel = pixels[i];
        match locate(pixel.0, pixel.1, height, stride, inverted, buffer.len()) {
            Some(at) => {
                let red: u8 = blend_channel(buffer[at], 0xfe, pixel.2);
                let green: u8 = blend_channel(buffer[at + 1], 0xfb, pixel.2);
                let blue: u8 = blend_channel(buffer[at + 2], 0x47, pixel.2);
                buffer[at] = red;
                buffer[at + 1] = green;
                buffer[at + 2] = blue;
            },
            None => {},
        }
        i = i + 1;
    }
}

} // verus!
