use vstd::prelude::*;

use crate::options::WgslTypeSerializeStrategy;
use crate::rust_type::{RustType, RustTypeInfo};

verus! {

/// The component type of a shader vector or matrix.
#[derive(Debug, Clone, Copy, PartialEq, Eq, Hash, Structural)]
pub enum WgslScalar {
    I32,
    U32,
    F32,
    F16,
}

impl WgslScalar {
    /// Byte width of one component.
    pub open spec fn spec_width(self) -> nat {
        match self {
            WgslScalar::F16 => 2,
            _ => 4,
        }
    }

    /// Byte width of one component.
    pub fn width(&self) -> (r: u32)
        ensures
            r == self.spec_width(),
    {
        match self {
            WgslScalar::F16 => 2,
            _ => 4,
        }
    }
}

/// The shader's built-in vector and matrix types.
///
/// `MatCxRs` is a matrix of `C` columns, each a vector of `R` rows.
#[derive(Debug, Clone, Copy, PartialEq, Eq, Hash, Structural)]
pub enum WgslType {
    Vec2i,
    Vec3i,
    Vec4i,
    Vec2u,
    Vec3u,
    Vec4u,
    Vec2f,
    Vec3f,
    Vec4f,
    Vec2h,
    Vec3h,
    Vec4h,
    Mat2x2f,
    Mat2x3f,
    Mat2x4f,
    Mat3x2f,
    Mat3x3f,
    Mat3x4f,
    Mat4x2f,
    Mat4x3f,
    Mat4x4f,
    Mat2x2h,
    Mat2x3h,
    Mat2x4h,
    Mat3x2h,
    Mat3x3h,
    Mat3x4h,
    Mat4x2h,
    Mat4x3h,
    Mat4x4h,
}

/// Alignment of a vector of `n` components of `width` bytes.
pub open spec fn vector_alignment(n: nat, width: nat) -> nat {
    if n == 2 {
        2 * width
    } else {
        4 * width
    }
}

/// `size` rounded up to the next multiple of `align`.
pub open spec fn round_up(size: nat, align: nat) -> nat
    recommends
        align > 0,
{
    if size % align == 0 {
        size
    } else {
        size + (align - size % align) as nat
    }
}

impl WgslType {
    pub open spec fn spec_is_vector(self) -> bool {
        match self {
            WgslType::Vec2i | WgslType::Vec3i | WgslType::Vec4i | WgslType::Vec2u
            | WgslType::Vec3u | WgslType::Vec4u | WgslType::Vec2f | WgslType::Vec3f
            | WgslType::Vec4f | WgslType::Vec2h | WgslType::Vec3h | WgslType::Vec4h => true,
            _ => false,
        }
    }

    pub open spec fn spec_is_matrix(self) -> bool {
        match self {
            WgslType::Mat2x2f | WgslType::Mat2x3f | WgslType::Mat2x4f | WgslType::Mat3x2f
            | WgslType::Mat3x3f | WgslType::Mat3x4f | WgslType::Mat4x2f | WgslType::Mat4x3f
            | WgslType::Mat4x4f | WgslType::Mat2x2h | WgslType::Mat2x3h | WgslType::Mat2x4h
            | WgslType::Mat3x2h | WgslType::Mat3x3h | WgslType::Mat3x4h | WgslType::Mat4x2h
            | WgslType::Mat4x3h | WgslType::Mat4x4h => true,
            _ => false,
        }
    }

    /// The component type.
    pub open spec fn spec_scalar(self) -> WgslScalar {
        match self {
            WgslType::Vec2i | WgslType::Vec3i | WgslType::Vec4i => WgslScalar::I32,
            WgslType::Vec2u | WgslType::Vec3u | WgslType::Vec4u => WgslScalar::U32,
            WgslType::Vec2h | WgslType::Vec3h | WgslType::Vec4h | WgslType::Mat2x2h
            | WgslType::Mat2x3h | WgslType::Mat2x4h | WgslType::Mat3x2h | WgslType::Mat3x3h
            | WgslType::Mat3x4h | WgslType::Mat4x2h | WgslType::Mat4x3h
            | WgslType::Mat4x4h => WgslScalar::F16,
            _ => WgslScalar::F32,
        }
    }

    /// Number of columns: 1 for a vector.
    pub open spec fn spec_columns(self) -> nat {
        match self {
            WgslType::Mat2x2f | WgslType::Mat2x3f | WgslType::Mat2x4f | WgslType::Mat2x2h
            | WgslType::Mat2x3h | WgslType::Mat2x4h => 2,
            WgslType::Mat3x2f | WgslType::Mat3x3f | WgslType::Mat3x4f | WgslType::Mat3x2h
            | WgslType::Mat3x3h | WgslType::Mat3x4h => 3,
            WgslType::Mat4x2f | WgslType::Mat4x3f | WgslType::Mat4x4f | WgslType::Mat4x2h
            | WgslType::Mat4x3h | WgslType::Mat4x4h => 4,
            _ => 1,
        }
    }

    /// Number of components of a vector, or of each column of a matrix.
    pub open spec fn spec_rows(self) -> nat {
        match self {
            WgslType::Vec2i | WgslType::Vec2u | WgslType::Vec2f | WgslType::Vec2h
            | WgslType::Mat2x2f | WgslType::Mat3x2f | WgslType::Mat4x2f | WgslType::Mat2x2h
            | WgslType::Mat3x2h | WgslType::Mat4x2h => 2,
            WgslType::Vec3i | WgslType::Vec3u | WgslType::Vec3f | WgslType::Vec3h
            | WgslType::Mat2x3f | WgslType::Mat3x3f | WgslType::Mat4x3f | WgslType::Mat2x3h
            | WgslType::Mat3x3h | WgslType::Mat4x3h => 3,
            _ => 4,
        }
    }

    /// Alignment: that of the vector, or of a matrix's column vector.
    pub open spec fn spec_alignment(self) -> nat {
        vector_alignment(self.spec_rows(), self.spec_scalar().spec_width())
    }

    /// Byte distance between two columns of a matrix: a column's size
    /// rounded up to its alignment.
    pub open spec fn spec_column_stride(self) -> nat {
        round_up(self.spec_rows() * self.spec_scalar().spec_width(), self.spec_alignment())
    }

    /// Size: that of the vector, or of an array of the matrix's columns.
    pub open spec fn spec_size(self) -> nat {
        if self.spec_is_vector() {
            self.spec_rows() * self.spec_scalar().spec_width()
        } else {
            self.spec_columns() * self.spec_column_stride()
        }
    }

    /// Returns the alignment and size of the type, in bytes.
    #[verifier::nonlinear]
    pub fn alignment_and_size(&self) -> (r: (u8, usize))
        ensures
            r.0 as nat == self.spec_alignment(),
            r.1 as nat == self.spec_size(),
    {
        match self {
            WgslType::Vec2i | WgslType::Vec2u | WgslType::Vec2f => (8, 8),
            WgslType::Vec2h => (4, 4),
            WgslType::Vec3i | WgslType::Vec3u | WgslType::Vec3f => (16, 12),
            WgslType::Vec3h => (8, 6),
            WgslType::Vec4i | WgslType::Vec4u | WgslType::Vec4f => (16, 16),
            WgslType::Vec4h => (8, 8),
            WgslType::Mat2x2f => (8, 16),
            WgslType::Mat2x2h => (4, 8),
            WgslType::Mat3x2f => (8, 24),
            WgslType::Mat3x2h => (4, 12),
            WgslType::Mat4x2f => (8, 32),
            WgslType::Mat4x2h => (4, 16),
            WgslType::Mat2x3f => (16, 32),
            WgslType::Mat2x3h => (8, 16),
            WgslType::Mat3x3f => (16, 48),
            WgslType::Mat3x3h => (8, 24),
            WgslType::Mat4x3f => (16, 64),
            WgslType::Mat4x3h => (8, 32),
            WgslType::Mat2x4f => (16, 32),
            WgslType::Mat2x4h => (8, 16),
            WgslType::Mat3x4f => (16, 48),
            WgslType::Mat3x4h => (8, 24),
            WgslType::Mat4x4f => (16, 64),
            WgslType::Mat4x4h => (8, 32),
        }
    }

    /// Checks if the type is a vector.
    pub fn is_vector(&self) -> (r: bool)
        ensures
            r == self.spec_is_vector(),
    {
        match self {
            WgslType::Vec2i | WgslType::Vec3i | WgslType::Vec4i | WgslType::Vec2u
            | WgslType::Vec3u | WgslType::Vec4u | WgslType::Vec2f | WgslType::Vec3f
            | WgslType::Vec4f | WgslType::Vec2h | WgslType::Vec3h | WgslType::Vec4h => true,
            _ => false,
        }
    }

    /// Checks if the type is a matrix.
    pub fn is_matrix(&self) -> (r: bool)
        ensures
            r == self.spec_is_matrix(),
    {
        match self {
            WgslType::Mat2x2f | WgslType::Mat2x3f | WgslType::Mat2x4f | WgslType::Mat3x2f
            | WgslType::Mat3x3f | WgslType::Mat3x4f | WgslType::Mat4x2f | WgslType::Mat4x3f
            | WgslType::Mat4x4f | WgslType::Mat2x2h | WgslType::Mat2x3h | WgslType::Mat2x4h
            | WgslType::Mat3x2h | WgslType::Mat3x3h | WgslType::Mat3x4h | WgslType::Mat4x2h
            | WgslType::Mat4x3h | WgslType::Mat4x4h => true,
            _ => false,
        }
    }
}

} // verus!

verus! {

/// Number of entries in the catalog.
pub const WGSL_TYPE_COUNT: usize = 30;

impl WgslType {
    /// Position of the type in the catalog's order.
    pub open spec fn spec_index(self) -> nat {
        match self {
            WgslType::Vec2i => 0,
            WgslType::Vec3i => 1,
            WgslType::Vec4i => 2,
            WgslType::Vec2u => 3,
            WgslType::Vec3u => 4,
            WgslType::Vec4u => 5,
            WgslType::Vec2f => 6,
            WgslType::Vec3f => 7,
            WgslType::Vec4f => 8,
            WgslType::Vec2h => 9,
            WgslType::Vec3h => 10,
            WgslType::Vec4h => 11,
            WgslType::Mat2x2f => 12,
            WgslType::Mat2x3f => 13,
            WgslType::Mat2x4f => 14,
            WgslType::Mat3x2f => 15,
            WgslType::Mat3x3f => 16,
            WgslType::Mat3x4f => 17,
            WgslType::Mat4x2f => 18,
            WgslType::Mat4x3f => 19,
            WgslType::Mat4x4f => 20,
            WgslType::Mat2x2h => 21,
            WgslType::Mat2x3h => 22,
            WgslType::Mat2x4h => 23,
            WgslType::Mat3x2h => 24,
            WgslType::Mat3x3h => 25,
            WgslType::Mat3x4h => 26,
            WgslType::Mat4x2h => 27,
            WgslType::Mat4x3h => 28,
            WgslType::Mat4x4h => 29,
        }
    }

    /// Position of the type in the catalog's order.
    pub fn index(&self) -> (r: usize)
        ensures
            r == self.spec_index(),
            r < WGSL_TYPE_COUNT,
    {
        match self {
            WgslType::Vec2i => 0,
            WgslType::Vec3i => 1,
            WgslType::Vec4i => 2,
            WgslType::Vec2u => 3,
            WgslType::Vec3u => 4,
            WgslType::Vec4u => 5,
            WgslType::Vec2f => 6,
            WgslType::Vec3f => 7,
            WgslType::Vec4f => 8,
            WgslType::Vec2h => 9,
            WgslType::Vec3h => 10,
            WgslType::Vec4h => 11,
            WgslType::Mat2x2f => 12,
            WgslType::Mat2x3f => 13,
            WgslType::Mat2x4f => 14,
            WgslType::Mat3x2f => 15,
            WgslType::Mat3x3f => 16,
            WgslType::Mat3x4f => 17,
            WgslType::Mat4x2f => 18,
            WgslType::Mat4x3f => 19,
            WgslType::Mat4x4f => 20,
            WgslType::Mat2x2h => 21,
            WgslType::Mat2x3h => 22,
            WgslType::Mat2x4h => 23,
            WgslType::Mat3x2h => 24,
            WgslType::Mat3x3h => 25,
            WgslType::Mat3x4h => 26,
            WgslType::Mat4x2h => 27,
            WgslType::Mat4x3h => 28,
            WgslType::Mat4x4h => 29,
        }
    }
}

/// Distinct catalog entries have distinct positions.
pub proof fn lemma_index_injective(a: WgslType, b: WgslType)
    ensures
        a.spec_index() == b.spec_index() ==> a == b,
        a.spec_index() < WGSL_TYPE_COUNT,
{
}

/// For each catalog entry, the host type path it is mapped to, if any.
#[derive(Debug)]
pub struct WgslTypeMap {
    entries: Vec<Option<String>>,
}

pub open spec fn option_view(o: Option<String>) -> Option<Seq<char>> {
    match o {
        Some(s) => Some(s@),
        None => None,
    }
}

impl WgslTypeMap {
    pub closed spec fn wf(&self) -> bool {
        self.entries@.len() == WGSL_TYPE_COUNT
    }

    /// The host type path mapped to `t`, if any.
    pub closed spec fn spec_get(&self, t: WgslType) -> Option<Seq<char>> {
        option_view(self.entries@[t.spec_index() as int])
    }

    /// A map with no entry: every type takes its plain-array form.
    pub fn new() -> (r: WgslTypeMap)
        ensures
            r.wf(),
            forall|t: WgslType| (#[trigger] r.spec_get(t)) is None,
    {
        let mut entries: Vec<Option<String>> = Vec::new();
        let mut i: usize = 0;
        while i < WGSL_TYPE_COUNT
            invariant
                i <= WGSL_TYPE_COUNT,
                entries@.len() == i,
                forall|j: int| 0 <= j < i ==> (#[trigger] entries@[j]) is None,
            decreases WGSL_TYPE_COUNT - i,
        {
            entries.push(None);
            i = i + 1;
        }
        WgslTypeMap { entries }
    }

    /// Maps `t` to `ty`, or removes its entry when `ty` is `None`.
    pub fn set(&mut self, t: WgslType, ty: Option<String>)
        requires
            old(self).wf(),
        ensures
            final(self).wf(),
            final(self).spec_get(t) == option_view(ty),
            forall|u: WgslType| u != t ==> #[trigger] final(self).spec_get(u) == old(self).spec_get(u),
    {
        let i = t.index();
        self.entries.set(i, ty);
        proof {
            assert forall|u: WgslType| u != t implies #[trigger] self.spec_get(u) == old(self).spec_get(u) by {
                lemma_index_injective(u, t);
            }
        }
    }

    /// Maps `t` to the host type path `path`.
    pub fn insert_path(&mut self, t: WgslType, path: &str)
        requires
            old(self).wf(),
        ensures
            final(self).wf(),
            final(self).spec_get(t) == Some(path@),
            forall|u: WgslType| u != t ==> #[trigger] final(self).spec_get(u) == old(self).spec_get(u),
    {
        self.set(t, Some(path.to_owned()));
    }

    /// The host type path mapped to `t`, if any.
    pub fn get(&self, t: WgslType) -> (r: Option<&String>)
        requires
            self.wf(),
        ensures
            r matches Some(s) ==> self.spec_get(t) == Some(s@),
            r is None ==> self.spec_get(t) is None,
    {
        let i = t.index();
        match &self.entries[i] {
            Some(s) => Some(s),
            None => None,
        }
    }
}

} // verus!

verus! {

/// Builds the map from catalog entries to host types for a serialization
/// strategy. The host types of one entry may differ between maps in size and
/// alignment.
pub trait WgslTypeMapBuild {
    /// The host type path that the built map gives `t`, if any.
    spec fn spec_mapped(&self, strategy: WgslTypeSerializeStrategy, t: WgslType) -> Option<Seq<char>>;

    /// Builds the map for the given serialization strategy.
    fn build(&self, strategy: WgslTypeSerializeStrategy) -> (r: WgslTypeMap)
        ensures
            r.wf(),
            forall|t: WgslType| #[trigger] r.spec_get(t) == self.spec_mapped(strategy, t),
    ;
}

/// Plain arrays such as `[f32; 4]` or `[[f32; 4]; 4]` for every type.
#[derive(Debug, Clone, Copy)]
pub struct WgslRustTypeMap;

impl WgslTypeMapBuild for WgslRustTypeMap {
    open spec fn spec_mapped(&self, strategy: WgslTypeSerializeStrategy, t: WgslType) -> Option<Seq<char>> {
        None
    }

    fn build(&self, strategy: WgslTypeSerializeStrategy) -> (r: WgslTypeMap) {
        WgslTypeMap::new()
    }
}

/// The `glam` type of `t`, if any. The integer, unsigned and two-component
/// types, and the 2x2 matrix, are mapped only under the element-wise encoding
/// strategy; the others take their plain-array form.
pub open spec fn glam_type(t: WgslType, is_encase: bool) -> Option<Seq<char>> {
    match t {
        WgslType::Vec2i if is_encase => Some("glam::IVec2"@),
        WgslType::Vec3i if is_encase => Some("glam::IVec3"@),
        WgslType::Vec4i if is_encase => Some("glam::IVec4"@),
        WgslType::Vec2u if is_encase => Some("glam::UVec2"@),
        WgslType::Vec3u if is_encase => Some("glam::UVec3"@),
        WgslType::Vec4u if is_encase => Some("glam::UVec4"@),
        WgslType::Vec2f if is_encase => Some("glam::Vec2"@),
        WgslType::Vec3f => Some("glam::Vec3A"@),
        WgslType::Vec4f => Some("glam::Vec4"@),
        WgslType::Mat2x2f if is_encase => Some("glam::Mat2"@),
        WgslType::Mat3x3f => Some("glam::Mat3A"@),
        WgslType::Mat4x4f => Some("glam::Mat4"@),
        _ => None,
    }
}

/// `glam` types such as `glam::Vec4` or `glam::Mat4`; types that `glam`
/// cannot represent, such as `mat2x3<f32>`, take their plain-array form.
#[derive(Debug, Clone, Copy)]
pub struct GlamWgslTypeMap;

impl WgslTypeMapBuild for GlamWgslTypeMap {
    open spec fn spec_mapped(&self, strategy: WgslTypeSerializeStrategy, t: WgslType) -> Option<Seq<char>> {
        glam_type(t, strategy == WgslTypeSerializeStrategy::Encase)
    }

    fn build(&self, strategy: WgslTypeSerializeStrategy) -> (r: WgslTypeMap) {
        let is_encase = strategy.is_encase();
        let mut m = WgslTypeMap::new();
        if is_encase {
            m.insert_path(WgslType::Vec2i, "glam::IVec2");
            m.insert_path(WgslType::Vec3i, "glam::IVec3");
            m.insert_path(WgslType::Vec4i, "glam::IVec4");
            m.insert_path(WgslType::Vec2u, "glam::UVec2");
            m.insert_path(WgslType::Vec3u, "glam::UVec3");
            m.insert_path(WgslType::Vec4u, "glam::UVec4");
            m.insert_path(WgslType::Vec2f, "glam::Vec2");
            m.insert_path(WgslType::Mat2x2f, "glam::Mat2");
        }
        m.insert_path(WgslType::Vec3f, "glam::Vec3A");
        m.insert_path(WgslType::Vec4f, "glam::Vec4");
        m.insert_path(WgslType::Mat3x3f, "glam::Mat3A");
        m.insert_path(WgslType::Mat4x4f, "glam::Mat4");
        m
    }
}

/// The `nalgebra` type of `t`, if any: every integer, unsigned and
/// single-precision vector and every single-precision matrix. A matrix of
/// `C` columns and `R` rows is `SMatrix<f32, R, C>`.
pub open spec fn nalgebra_type(t: WgslType) -> Option<Seq<char>> {
    match t {
        WgslType::Vec2i => Some("nalgebra::SVector<i32, 2>"@),
        WgslType::Vec3i => Some("nalgebra::SVector<i32, 3>"@),
        WgslType::Vec4i => Some("nalgebra::SVector<i32, 4>"@),
        WgslType::Vec2u => Some("nalgebra::SVector<u32, 2>"@),
        WgslType::Vec3u => Some("nalgebra::SVector<u32, 3>"@),
        WgslType::Vec4u => Some("nalgebra::SVector<u32, 4>"@),
        WgslType::Vec2f => Some("nalgebra::SVector<f32, 2>"@),
        WgslType::Vec3f => Some("nalgebra::SVector<f32, 3>"@),
        WgslType::Vec4f => Some("nalgebra::SVector<f32, 4>"@),
        WgslType::Mat2x2f => Some("nalgebra::SMatrix<f32, 2, 2>"@),
        WgslType::Mat2x3f => Some("nalgebra::SMatrix<f32, 3, 2>"@),
        WgslType::Mat2x4f => Some("nalgebra::SMatrix<f32, 4, 2>"@),
        WgslType::Mat3x2f => Some("nalgebra::SMatrix<f32, 2, 3>"@),
        WgslType::Mat3x3f => Some("nalgebra::SMatrix<f32, 3, 3>"@),
        WgslType::Mat3x4f => Some("nalgebra::SMatrix<f32, 4, 3>"@),
        WgslType::Mat4x2f => Some("nalgebra::SMatrix<f32, 2, 4>"@),
        WgslType::Mat4x3f => Some("nalgebra::SMatrix<f32, 3, 4>"@),
        WgslType::Mat4x4f => Some("nalgebra::SMatrix<f32, 4, 4>"@),
        _ => None,
    }
}

/// `nalgebra` types such as `nalgebra::SVector<f32, 4>` or
/// `nalgebra::SMatrix<f32, 2, 3>`, whatever the strategy.
#[derive(Debug, Clone, Copy)]
pub struct NalgebraWgslTypeMap;

impl WgslTypeMapBuild for NalgebraWgslTypeMap {
    open spec fn spec_mapped(&self, strategy: WgslTypeSerializeStrategy, t: WgslType) -> Option<Seq<char>> {
        nalgebra_type(t)
    }

    fn build(&self, strategy: WgslTypeSerializeStrategy) -> (r: WgslTypeMap) {
        let mut m = WgslTypeMap::new();
        m.insert_path(WgslType::Vec2i, "nalgebra::SVector<i32, 2>");
        m.insert_path(WgslType::Vec3i, "nalgebra::SVector<i32, 3>");
        m.insert_path(WgslType::Vec4i, "nalgebra::SVector<i32, 4>");
        m.insert_path(WgslType::Vec2u, "nalgebra::SVector<u32, 2>");
        m.insert_path(WgslType::Vec3u, "nalgebra::SVector<u32, 3>");
        m.insert_path(WgslType::Vec4u, "nalgebra::SVector<u32, 4>");
        m.insert_path(WgslType::Vec2f, "nalgebra::SVector<f32, 2>");
        m.insert_path(WgslType::Vec3f, "nalgebra::SVector<f32, 3>");
        m.insert_path(WgslType::Vec4f, "nalgebra::SVector<f32, 4>");
        m.insert_path(WgslType::Mat2x2f, "nalgebra::SMatrix<f32, 2, 2>");
        m.insert_path(WgslType::Mat2x3f, "nalgebra::SMatrix<f32, 3, 2>");
        m.insert_path(WgslType::Mat2x4f, "nalgebra::SMatrix<f32, 4, 2>");
        m.insert_path(WgslType::Mat3x2f, "nalgebra::SMatrix<f32, 2, 3>");
        m.insert_path(WgslType::Mat3x3f, "nalgebra::SMatrix<f32, 3, 3>");
        m.insert_path(WgslType::Mat3x4f, "nalgebra::SMatrix<f32, 4, 3>");
        m.insert_path(WgslType::Mat4x2f, "nalgebra::SMatrix<f32, 2, 4>");
        m.insert_path(WgslType::Mat4x3f, "nalgebra::SMatrix<f32, 3, 4>");
        m.insert_path(WgslType::Mat4x4f, "nalgebra::SMatrix<f32, 4, 4>");
        m
    }
}

} // verus!

verus! {

pub open spec fn is_power_of_two(n: nat) -> bool
    decreases n,
{
    if n <= 1 {
        n == 1
    } else {
        n % 2 == 0 && is_power_of_two(n / 2)
    }
}

/// Every catalog entry has a power-of-two alignment and a positive size made
/// of whole components; a matrix's size is a whole number of its alignment.
/// Every entry is a vector or a matrix, and none is both.
#[verifier::nonlinear]
pub proof fn lemma_catalog_entry(t: WgslType)
    ensures
        is_power_of_two(t.spec_alignment()),
        0 < t.spec_size() <= 64,
        4 <= t.spec_alignment() <= 16,
        t.spec_size() % t.spec_scalar().spec_width() == 0,
        t.spec_is_matrix() ==> t.spec_size() % t.spec_alignment() == 0,
        t.spec_is_vector() || t.spec_is_matrix(),
        !(t.spec_is_vector() && t.spec_is_matrix()),
{
    reveal_with_fuel(is_power_of_two, 5);
}

impl WgslTypeMap {
    /// The mapped host type of `t` with the catalog's size and alignment, or
    /// `None` where the map has no entry for `t`.
    pub fn get_rust_type_info(&self, t: WgslType) -> (r: Option<RustTypeInfo>)
        requires
            self.wf(),
        ensures
            self.spec_get(t) is None <==> r is None,
            r matches Some(info) ==> {
                &&& info.ty matches RustType::Path(p) && Some(p@) == self.spec_get(t)
                &&& info.size == Some(t.spec_size() as u32)
                &&& info.alignment == t.spec_alignment()
                &&& info.wf()
            },
    {
        let (alignment, size) = t.alignment_and_size();
        match self.get(t) {
            Some(p) => Some(RustTypeInfo { ty: RustType::Path(p.clone()), size: Some(size as u32), alignment: alignment as u32 }),
            None => None,
        }
    }
}

} // verus!
