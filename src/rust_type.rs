use vstd::prelude::*;

use crate::wgsl_type::{round_up, WgslScalar, WgslType};

verus! {

/// A host type, as the generated code names it.
#[derive(Debug)]
pub enum RustType {
    /// `i32`, `u32`, `f32` or `half::f16`.
    Scalar(WgslScalar),
    /// A named type: a numeric library's type or another generated struct.
    Path(String),
    /// A fixed-size array `[T; n]`.
    Array(Box<RustType>, u32),
    /// An array whose element count is not fixed by the shader.
    RuntimeArray(Box<RustType>),
}

impl RustType {
    /// A copy of this type.
    pub fn duplicate(&self) -> (r: RustType)
        ensures
            r == *self,
        decreases self,
    {
        match self {
            RustType::Scalar(s) => RustType::Scalar(*s),
            RustType::Path(p) => RustType::Path(p.clone()),
            RustType::Array(elem, n) => RustType::Array(Box::new((**elem).duplicate()), *n),
            RustType::RuntimeArray(elem) => RustType::RuntimeArray(Box::new((**elem).duplicate())),
        }
    }
}

/// A host type with its size and alignment in bytes. `size` is `None` for a
/// type whose size is only known at run time.
#[derive(Debug)]
pub struct RustTypeInfo {
    pub ty: RustType,
    pub size: Option<u32>,
    pub alignment: u32,
}

impl RustTypeInfo {
    pub open spec fn wf(&self) -> bool {
        self.alignment >= 1
    }

    /// The size that the type takes up in a sequence of its kind: its size
    /// rounded up to its alignment.
    pub open spec fn spec_size_after_alignment(&self) -> Option<nat> {
        match self.size {
            Some(s) => Some(round_up(s as nat, self.alignment as nat)),
            None => None,
        }
    }

    /// A copy of this description.
    pub fn duplicate(&self) -> (r: RustTypeInfo)
        ensures
            r == *self,
    {
        RustTypeInfo { ty: self.ty.duplicate(), size: self.size, alignment: self.alignment }
    }

    /// The size rounded up to the alignment; `None` for a type sized at run
    /// time.
    pub fn size_after_alignment(&self) -> (r: Option<u64>)
        requires
            self.wf(),
        ensures
            r matches Some(n) ==> self.spec_size_after_alignment() == Some(n as nat),
            r is None ==> self.spec_size_after_alignment() is None,
    {
        match self.size {
            Some(s) => {
                let s = s as u64;
                let a = self.alignment as u64;
                let rem = s % a;
                if rem == 0 {
                    Some(s)
                } else {
                    Some(s + (a - rem))
                }
            },
            None => None,
        }
    }
}

/// The plain-array host type that stands for a shader vector or matrix when
/// no library type is mapped to it: `[T; n]` for a vector, and for a matrix
/// an array of its columns, each padded to the column stride.
pub open spec fn spec_fallback_type(t: WgslType) -> RustType {
    let w = t.spec_scalar().spec_width();
    if t.spec_is_vector() {
        RustType::Array(Box::new(RustType::Scalar(t.spec_scalar())), t.spec_rows() as u32)
    } else {
        RustType::Array(
            Box::new(
                RustType::Array(
                    Box::new(RustType::Scalar(t.spec_scalar())),
                    (t.spec_column_stride() / w) as u32,
                ),
            ),
            t.spec_columns() as u32,
        )
    }
}

impl WgslType {
    /// The component type.
    pub fn scalar(&self) -> (r: WgslScalar)
        ensures
            r == self.spec_scalar(),
    {
        match self {
            WgslType::Vec2i | WgslType::Vec3i | WgslType::Vec4i => WgslScalar::I32,
            WgslType::Vec2u | WgslType::Vec3u | WgslType::Vec4u => WgslScalar::U32,
            WgslType::Vec2h | WgslType::Vec3h | WgslType::Vec4h | WgslType::Mat2x2h
            | WgslType::Mat2x3h | WgslType::Mat2x4h | WgslType::Mat3x2h | WgslType::Mat3x3h
            | WgslType::Mat3x4h | WgslType::Mat4x2h | WgslType::Mat4x3h
            | WgslType::Mat4x4h => WgslScalar::F16,
            _ => WgslScalar::F32,
        }
    }

    /// The component count of a vector, or the column count and the
    /// components per column (row count padded to the column stride) of a
    /// matrix.
    #[verifier::nonlinear]
    pub fn fallback_shape(&self) -> (r: (u32, u32))
        ensures
            self.spec_is_vector() ==> r.0 == self.spec_rows(),
            self.spec_is_matrix() ==> r.0 == self.spec_columns() && r.1
                == self.spec_column_stride() / self.spec_scalar().spec_width(),
    {
        match self {
            WgslType::Vec2i | WgslType::Vec2u | WgslType::Vec2f | WgslType::Vec2h => (2, 1),
            WgslType::Vec3i | WgslType::Vec3u | WgslType::Vec3f | WgslType::Vec3h => (3, 1),
            WgslType::Vec4i | WgslType::Vec4u | WgslType::Vec4f | WgslType::Vec4h => (4, 1),
            WgslType::Mat2x2f | WgslType::Mat2x2h => (2, 2),
            WgslType::Mat3x2f | WgslType::Mat3x2h => (3, 2),
            WgslType::Mat4x2f | WgslType::Mat4x2h => (4, 2),
            WgslType::Mat2x3f | WgslType::Mat2x3h | WgslType::Mat2x4f | WgslType::Mat2x4h => (2, 4),
            WgslType::Mat3x3f | WgslType::Mat3x3h | WgslType::Mat3x4f | WgslType::Mat3x4h => (3, 4),
            WgslType::Mat4x3f | WgslType::Mat4x3h | WgslType::Mat4x4f | WgslType::Mat4x4h => (4, 4),
        }
    }

    /// The plain-array host type of this vector or matrix, with the
    /// catalog's size and the alignment of one component.
    pub fn fallback_rust_type_info(&self) -> (r: RustTypeInfo)
        ensures
            r.ty == spec_fallback_type(*self),
            r.size == Some(self.spec_size() as u32),
            r.alignment == self.spec_scalar().spec_width(),
            r.wf(),
    {
        let (_, size) = self.alignment_and_size();
        let scalar = self.scalar();
        let (outer, inner) = self.fallback_shape();
        let ty = if self.is_vector() {
            RustType::Array(Box::new(RustType::Scalar(scalar)), outer)
        } else {
            RustType::Array(Box::new(RustType::Array(Box::new(RustType::Scalar(scalar)), inner)), outer)
        };
        RustTypeInfo { ty, size: Some(size as u32), alignment: scalar.width() }
    }
}

} // verus!
