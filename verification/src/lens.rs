//! The coefficients of a fisheye lens model that can be set one by one.

use vstd::prelude::*;
use vstd::string::StrSliceExecFns;
use crate::fixed::Fixed;

verus! {

/// A coefficient of the lens model that has a name.
#[derive(Clone, Copy, Debug, PartialEq, Eq, Structural)]
pub enum LensParam {
    /// Horizontal focal length: row 0, column 0 of the camera matrix.
    Fx,
    /// Vertical focal length: row 1, column 1 of the camera matrix.
    Fy,
    /// Horizontal principal point: row 0, column 2 of the camera matrix.
    Cx,
    /// Vertical principal point: row 1, column 2 of the camera matrix.
    Cy,
    /// First distortion coefficient.
    K1,
    /// Second distortion coefficient.
    K2,
    /// Third distortion coefficient.
    K3,
    /// Fourth distortion coefficient.
    K4,
}

/// The camera matrix and distortion coefficients of a fisheye lens.
pub struct FisheyeParams {
    /// The camera matrix, row by row.
    pub camera_matrix: Vec<Vec<Fixed>>,
    /// The distortion coefficients.
    pub distortion_coeffs: Vec<Fixed>,
}

/// The mathematical value of a [`FisheyeParams`].
pub struct FisheyeView {
    pub camera_matrix: Seq<Seq<Fixed>>,
    pub distortion_coeffs: Seq<Fixed>,
}

impl View for FisheyeParams {
    type V = FisheyeView;

    open spec fn view(&self) -> FisheyeView {
        FisheyeView {
            camera_matrix: Seq::new(
                self.camera_matrix@.len(),
                |i: int| self.camera_matrix@[i]@,
            ),
            distortion_coeffs: self.distortion_coeffs@,
        }
    }
}

/// The coefficient that a name stands for: `fx`, `fy`, `cx`, `cy` and `k1` to
/// `k4`. Any other name stands for none.
pub open spec fn lens_param_named(name: Seq<char>) -> Option<LensParam> {
    if name.len() != 2 {
        None
    } else if name[0] == 'f' && name[1] == 'x' {
        Some(LensParam::Fx)
    } else if name[0] == 'f' && name[1] == 'y' {
        Some(LensParam::Fy)
    } else if name[0] == 'c' && name[1] == 'x' {
        Some(LensParam::Cx)
    } else if name[0] == 'c' && name[1] == 'y' {
        Some(LensParam::Cy)
    } else if name[0] == 'k' && name[1] == '1' {
        Some(LensParam::K1)
    } else if name[0] == 'k' && name[1] == '2' {
        Some(LensParam::K2)
    } else if name[0] == 'k' && name[1] == '3' {
        Some(LensParam::K3)
    } else if name[0] == 'k' && name[1] == '4' {
        Some(LensParam::K4)
    } else {
        None
    }
}

/// The coefficient that `name` stands for, if it names one.
pub fn parse_lens_param(name: &str) -> (param: Option<LensParam>)
    ensures
        param == lens_param_named(name@),
{
    if name.unicode_len() != 2 {
        return None;
    }
    let first: char = name.get_char(0);
    let second: char = name.get_char(1);
    if first == 'f' && second == 'x' {
        Some(LensParam::Fx)
    } else if first == 'f' && second == 'y' {
        Some(LensParam::Fy)
    } else if first == 'c' && second == 'x' {
        Some(LensParam::Cx)
    } else if first == 'c' && second == 'y' {
        Some(LensParam::Cy)
    } else if first == 'k' && second == '1' {
        Some(LensParam::K1)
    } else if first == 'k' && second == '2' {
        Some(LensParam::K2)
    } else if first == 'k' && second == '3' {
        Some(LensParam::K3)
    } else if first == 'k' && second == '4' {
        Some(LensParam::K4)
    } else {
        None
    }
}

impl FisheyeView {
    /// Whether the model has the shape in which its coefficients can be set:
    /// at least four distortion coefficients and a camera matrix of three rows
    /// of three.
    pub open spec fn is_complete(self) -> bool {
        &&& self.distortion_coeffs.len() >= 4
        &&& self.camera_matrix.len() == 3
        &&& self.camera_matrix[0].len() == 3
        &&& self.camera_matrix[1].len() == 3
        &&& self.camera_matrix[2].len() == 3
    }

    /// The model with one entry of the camera matrix replaced.
    pub open spec fn with_matrix_entry(self, row: int, column: int, value: Fixed) -> FisheyeView {
        FisheyeView {
            camera_matrix: self.camera_matrix.update(
                row,
                self.camera_matrix[row].update(column, value),
            ),
            ..self
        }
    }

    /// The model with one distortion coefficient replaced.
    pub open spec fn with_coefficient(self, index: int, value: Fixed) -> FisheyeView {
        FisheyeView { distortion_coeffs: self.distortion_coeffs.update(index, value), ..self }
    }

    /// The model with the coefficient `param` set to `value`.
    pub open spec fn with_param(self, param: LensParam, value: Fixed) -> FisheyeView {
        match param {
            LensParam::Fx => self.with_matrix_entry(0, 0, value),
            LensParam::Fy => self.with_matrix_entry(1, 1, value),
            LensParam::Cx => self.with_matrix_entry(0, 2, value),
            LensParam::Cy => self.with_matrix_entry(1, 2, value),
            LensParam::K1 => self.with_coefficient(0, value),
            LensParam::K2 => self.with_coefficient(1, value),
            LensParam::K3 => self.with_coefficient(2, value),
            LensParam::K4 => self.with_coefficient(3, value),
        }
    }

    /// The model after the coefficient called `name` is set to `value`: a
    /// model that is not complete, or a name that names no coefficient, leaves
    /// it as it is.
    pub open spec fn with_named_param(self, name: Seq<char>, value: Fixed) -> FisheyeView {
        match lens_param_named(name) {
            Some(param) => if self.is_complete() {
                self.with_param(param, value)
            } else {
                self
            },
            None => self,
        }
    }
}

impl FisheyeParams {
    /// A lens model without any coefficient.
    pub fn new() -> (lens: FisheyeParams)
        ensures
            lens@.camera_matrix.len() == 0,
            lens@.distortion_coeffs.len() == 0,
    {
        FisheyeParams { camera_matrix: Vec::new(), distortion_coeffs: Vec::new() }
    }

    /// Whether the model has the shape in which its coefficients can be set.
    pub fn is_complete(&self) -> (complete: bool)
        ensures
            complete == self@.is_complete(),
    {
        self.distortion_coeffs.len() >= 4 && self.camera_matrix.len() == 3
            && self.camera_matrix[0].len() == 3 && self.camera_matrix[1].len() == 3
            && self.camera_matrix[2].len() == 3
    }

    /// Replaces one entry of the camera matrix.
    fn set_matrix_entry(&mut self, row: usize, column: usize, value: Fixed)
        requires
            row < old(self)@.camera_matrix.len(),
            column < old(self)@.camera_matrix[row as int].len(),
        ensures
            final(self)@ == old(self)@.with_matrix_entry(row as int, column as int, value),
    {
        self.camera_matrix[row][column] = value;
        assert(self@.camera_matrix =~= old(self)@.with_matrix_entry(
            row as int,
            column as int,
            value,
        ).camera_matrix);
    }

    /// Sets the coefficient `param` of a complete model.
    pub fn set_param(&mut self, param: LensParam, value: Fixed)
        requires
            old(self)@.is_complete(),
        ensures
            final(self)@ == old(self)@.with_param(param, value),
    {
        match param {
            LensParam::Fx => self.set_matrix_entry(0, 0, value),
            LensParam::Fy => self.set_matrix_entry(1, 1, value),
            LensParam::Cx => self.set_matrix_entry(0, 2, value),
            LensParam::Cy => self.set_matrix_entry(1, 2, value),
            LensParam::K1 => {
                self.distortion_coeffs[0] = value;
            },
            LensParam::K2 => {
                self.distortion_coeffs[1] = value;
            },
            LensParam::K3 => {
                self.distortion_coeffs[2] = value;
            },
            LensParam::K4 => {
                self.distortion_coeffs[3] = value;
            },
        }
    }

    /// Sets the coefficient called `param` to `value`. A model that is not
    /// complete, or a name that names no coefficient, leaves the model as it
    /// is.
    pub fn set_lens_param(&mut self, param: &str, value: Fixed)
        ensures
            final(self)@ == old(self)@.with_named_param(param@, value),
    {
        if self.is_complete() {
            match parse_lens_param(param) {
                Some(named) => self.set_param(named, value),
                None => {},
            }
        }
    }
}

impl Clone for FisheyeParams {
    fn clone(&self) -> (copy: FisheyeParams)
        ensures
            copy@ == self@,
    {
        let mut rows: Vec<Vec<Fixed>> = Vec::new();
        let mut r: usize = 0;
        while r < self.camera_matrix.len()
            invariant
                r <= self.camera_matrix@.len(),
                rows@.len() == r,
                forall|i: int| 0 <= i < r ==> (#[trigger] rows@[i])@ == self.camera_matrix@[i]@,
            decreases self.camera_matrix@.len() - r,
        {
            let row: Vec<Fixed> = self.camera_matrix[r].clone();
            assert(row@ =~= self.camera_matrix@[r as int]@);
            rows.push(row);
            r = r + 1;
        }
        let coeffs: Vec<Fixed> = self.distortion_coeffs.clone();
        assert(coeffs@ =~= self.distortion_coeffs@);
        let copy = FisheyeParams { camera_matrix: rows, distortion_coeffs: coeffs };
        assert(copy@.camera_matrix =~= self@.camera_matrix);
        copy
    }
}

} // verus!
