//! Reading motion data: which kind of file a path names, and which fields of a
//! project file's rows hold what.
//!
//! The scalars of a row are carried through untouched, so the functions here
//! take them as any copyable type.

use vstd::prelude::*;
use vstd::string::StrSliceExecFns;

verus! {

/// Where the motion data of a video comes from.
#[derive(Clone, Copy, Debug, PartialEq, Eq, Structural)]
pub enum TelemetrySource {
    /// A project file, which holds orientations and raw sensor rows as a
    /// structured document.
    ProjectFile,
    /// A recording with the camera's own telemetry in it.
    Recording,
}

/// The ending by which a project file is known.
pub open spec fn project_suffix() -> Seq<char> {
    seq!['.', 'g', 'y', 'r', 'o', 'f', 'l', 'o', 'w']
}

/// Whether `text` ends with `suffix`.
pub open spec fn ends_with(text: Seq<char>, suffix: Seq<char>) -> bool {
    text.len() >= suffix.len() && text.subrange(text.len() - suffix.len(), text.len() as int)
        == suffix
}

/// The kind of file that a path names: a project file where the path ends with
/// the project ending, a recording otherwise.
pub open spec fn source_of_path(path: Seq<char>) -> TelemetrySource {
    if ends_with(path, project_suffix()) {
        TelemetrySource::ProjectFile
    } else {
        TelemetrySource::Recording
    }
}

/// The kind of file that `path` names.
pub fn telemetry_source(path: &str) -> (source: TelemetrySource)
    ensures
        source == source_of_path(path@),
{
    let suffix: &str = ".gyroflow";
    proof {
        reveal_strlit(".gyroflow");
        assert(suffix@ =~= project_suffix());
    }
    let length: usize = path.unicode_len();
    if length < 9 {
        return TelemetrySource::Recording;
    }
    let start: usize = length - 9;
    let mut k: usize = 0;
    while k < 9
        invariant
            k <= 9,
            length == path@.len(),
            start == length - 9,
            suffix@ == project_suffix(),
            forall|i: int| 0 <= i < k ==> path@[start + i] == project_suffix()[i],
        decreases 9 - k,
    {
        if path.get_char(start + k) != suffix.get_char(k) {
            assert(path@.subrange(start as int, length as int)[k as int] != project_suffix()[k as int]);
            return TelemetrySource::Recording;
        }
        k = k + 1;
    }
    assert(path@.subrange(start as int, length as int) =~= project_suffix());
    TelemetrySource::ProjectFile
}

/// One orientation of the camera: when it was taken, in seconds, and the
/// quaternion's scalar part and vector part.
pub struct OrientationSample<T> {
    pub seconds: T,
    pub w: T,
    pub x: T,
    pub y: T,
    pub z: T,
}

/// One raw sensor reading: rotation rate and acceleration, each about three
/// axes.
pub struct ImuSample<T> {
    pub gyro: (T, T, T),
    pub accl: (T, T, T),
}

/// The orientation that a row of a project file holds: the second scalar is
/// the time, the third to the sixth are the quaternion.
pub open spec fn orientation_of_row<T>(row: Seq<T>) -> OrientationSample<T> {
    OrientationSample { seconds: row[1], w: row[2], x: row[3], y: row[4], z: row[5] }
}

/// The sensor reading that a row of a project file holds: the first three
/// scalars are the rotation rates, the fourth, fifth and seventh the
/// accelerations.
pub open spec fn imu_of_row<T>(row: Seq<T>) -> ImuSample<T> {
    ImuSample { gyro: (row[0], row[1], row[2]), accl: (row[3], row[4], row[6]) }
}

/// The orientation that a row holds, if the row is long enough to hold one.
pub fn orientation_sample<T: Copy>(row: &Vec<T>) -> (sample: Option<OrientationSample<T>>)
    ensures
        sample == (if row@.len() >= 6 {
            Some(orientation_of_row(row@))
        } else {
            None
        }),
{
    if row.len() >= 6 {
        Some(OrientationSample { seconds: row[1], w: row[2], x: row[3], y: row[4], z: row[5] })
    } else {
        None
    }
}

/// The sensor reading that a row holds, if the row is long enough to hold one.
pub fn imu_sample<T: Copy>(row: &Vec<T>) -> (sample: Option<ImuSample<T>>)
    ensures
        sample == (if row@.len() >= 7 {
            Some(imu_of_row(row@))
        } else {
            None
        }),
{
    if row.len() >= 7 {
        Some(ImuSample { gyro: (row[0], row[1], row[2]), accl: (row[3], row[4], row[6]) })
    } else {
        None
    }
}

/// The orientations of the first `count` rows, in order, the rows that are too
/// short left out.
pub open spec fn orientations_of<T>(rows: Seq<Vec<T>>, count: int) -> Seq<OrientationSample<T>>
    decreases count,
{
    if count <= 0 {
        Seq::empty()
    } else if rows[count - 1]@.len() >= 6 {
        orientations_of(rows, count - 1).push(orientation_of_row(rows[count - 1]@))
    } else {
        orientations_of(rows, count - 1)
    }
}

/// The sensor readings of the first `count` rows, in order, the rows that are
/// too short left out.
pub open spec fn imu_readings_of<T>(rows: Seq<Vec<T>>, count: int) -> Seq<ImuSample<T>>
    decreases count,
{
    if count <= 0 {
        Seq::empty()
    } else if rows[count - 1]@.len() >= 7 {
        imu_readings_of(rows, count - 1).push(imu_of_row(rows[count - 1]@))
    } else {
        imu_readings_of(rows, count - 1)
    }
}

/// The orientations that the rows of a project file hold.
pub fn orientation_samples<T: Copy>(rows: &Vec<Vec<T>>) -> (samples: Vec<OrientationSample<T>>)
    ensures
        samples@ == orientations_of(rows@, rows@.len() as int),
{
    let mut samples: Vec<OrientationSample<T>> = Vec::new();
    let mut i: usize = 0;
    while i < rows.len()
        invariant
            i <= rows@.len(),
            samples@ == orientations_of(rows@, i as int),
        decreases rows@.len() - i,
    {
        match orientation_sample(&rows[i]) {
            Some(sample) => {
                samples.push(sample);
            },
            None => {},
        }
        i = i + 1;
    }
    samples
}

/// The sensor readings that the rows of a project file hold.
pub fn imu_samples<T: Copy>(rows: &Vec<Vec<T>>) -> (samples: Vec<ImuSample<T>>)
    ensures
        samples@ == imu_readings_of(rows@, rows@.len() as int),
{
    let mut samples: Vec<ImuSample<T>> = Vec::new();
    let mut i: usize = 0;
    while i < rows.len()
        invariant
            i <= rows@.len(),
            samples@ == imu_readings_of(rows@, i as int),
        decreases rows@.len() - i,
    {
        match imu_sample(&rows[i]) {
            Some(sample) => {
                samples.push(sample);
            },
            None => {},
        }
        i = i + 1;
    }
    samples
}

} // verus!
