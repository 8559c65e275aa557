use wgsl_bindgen::options::WgslTypeSerializeStrategy;
use wgsl_bindgen::rust_type::RustType;
use wgsl_bindgen::wgsl_type::{
    GlamWgslTypeMap, NalgebraWgslTypeMap, WgslRustTypeMap, WgslScalar, WgslType, WgslTypeMapBuild,
};

const ALL: [WgslType; 30] = [
    WgslType::Vec2i,
    WgslType::Vec3i,
    WgslType::Vec4i,
    WgslType::Vec2u,
    WgslType::Vec3u,
    WgslType::Vec4u,
    WgslType::Vec2f,
    WgslType::Vec3f,
    WgslType::Vec4f,
    WgslType::Vec2h,
    WgslType::Vec3h,
    WgslType::Vec4h,
    WgslType::Mat2x2f,
    WgslType::Mat2x3f,
    WgslType::Mat2x4f,
    WgslType::Mat3x2f,
    WgslType::Mat3x3f,
    WgslType::Mat3x4f,
    WgslType::Mat4x2f,
    WgslType::Mat4x3f,
    WgslType::Mat4x4f,
    WgslType::Mat2x2h,
    WgslType::Mat2x3h,
    WgslType::Mat2x4h,
    WgslType::Mat3x2h,
    WgslType::Mat3x3h,
    WgslType::Mat3x4h,
    WgslType::Mat4x2h,
    WgslType::Mat4x3h,
    WgslType::Mat4x4h,
];

#[test]
fn catalog_alignment_is_power_of_two_and_size_positive() {
    for t in ALL {
        let (align, size) = t.alignment_and_size();
        assert!(align.is_power_of_two(), "{:?}", t);
        assert!(size > 0, "{:?}", t);
        let width = t.scalar().width() as usize;
        assert_eq!(size % width, 0, "{:?}", t);
        if t.is_matrix() {
            assert_eq!(size % align as usize, 0, "{:?}", t);
        }
    }
}

#[test]
fn catalog_vector_and_matrix_partition() {
    let vectors = ALL.iter().filter(|t| t.is_vector()).count();
    let matrices = ALL.iter().filter(|t| t.is_matrix()).count();
    assert_eq!(vectors, 12);
    assert_eq!(matrices, 18);
    for t in ALL {
        assert_ne!(t.is_vector(), t.is_matrix(), "{:?}", t);
    }
}

#[test]
fn catalog_published_values() {
    assert_eq!(WgslType::Vec2f.alignment_and_size(), (8, 8));
    assert_eq!(WgslType::Vec3f.alignment_and_size(), (16, 12));
    assert_eq!(WgslType::Vec4u.alignment_and_size(), (16, 16));
    assert_eq!(WgslType::Vec2h.alignment_and_size(), (4, 4));
    assert_eq!(WgslType::Vec3h.alignment_and_size(), (8, 6));
    assert_eq!(WgslType::Vec4h.alignment_and_size(), (8, 8));
    assert_eq!(WgslType::Mat2x2f.alignment_and_size(), (8, 16));
    assert_eq!(WgslType::Mat2x3f.alignment_and_size(), (16, 32));
    assert_eq!(WgslType::Mat3x3f.alignment_and_size(), (16, 48));
    assert_eq!(WgslType::Mat4x3h.alignment_and_size(), (8, 32));
    assert_eq!(WgslType::Mat4x4f.alignment_and_size(), (16, 64));
    assert_eq!(WgslType::Mat3x2h.alignment_and_size(), (4, 12));
}

#[test]
fn catalog_indices_are_distinct() {
    for (i, t) in ALL.iter().enumerate() {
        assert_eq!(t.index(), i);
    }
}

#[test]
fn fallback_types_are_plain_arrays() {
    let v = WgslType::Vec3f.fallback_rust_type_info();
    assert!(matches!(&v.ty, RustType::Array(e, 3) if matches!(**e, RustType::Scalar(WgslScalar::F32))));
    assert_eq!(v.size, Some(12));
    assert_eq!(v.alignment, 4);
    assert_eq!(v.size_after_alignment(), Some(12));

    let m = WgslType::Mat3x3f.fallback_rust_type_info();
    match &m.ty {
        RustType::Array(col, 3) => match &**col {
            RustType::Array(e, 4) => assert!(matches!(**e, RustType::Scalar(WgslScalar::F32))),
            other => panic!("unexpected column {:?}", other),
        },
        other => panic!("unexpected {:?}", other),
    }
    assert_eq!(m.size, Some(48));

    let h = WgslType::Vec3h.fallback_rust_type_info();
    assert_eq!(h.alignment, 2);
    assert_eq!(h.size, Some(6));
}

#[test]
fn plain_map_maps_nothing() {
    for strategy in [WgslTypeSerializeStrategy::Encase, WgslTypeSerializeStrategy::Bytemuck] {
        let m = WgslRustTypeMap.build(strategy);
        for t in ALL {
            assert!(m.get(t).is_none());
            assert!(m.get_rust_type_info(t).is_none());
        }
    }
}

#[test]
fn glam_map_depends_on_strategy() {
    let encase = GlamWgslTypeMap.build(WgslTypeSerializeStrategy::Encase);
    let bytemuck = GlamWgslTypeMap.build(WgslTypeSerializeStrategy::Bytemuck);
    assert_eq!(encase.get(WgslType::Vec3i).map(|s| s.as_str()), Some("glam::IVec3"));
    assert_eq!(bytemuck.get(WgslType::Vec3i), None);
    assert_eq!(encase.get(WgslType::Mat2x2f).map(|s| s.as_str()), Some("glam::Mat2"));
    assert_eq!(bytemuck.get(WgslType::Mat2x2f), None);
    for m in [&encase, &bytemuck] {
        assert_eq!(m.get(WgslType::Vec3f).map(|s| s.as_str()), Some("glam::Vec3A"));
        assert_eq!(m.get(WgslType::Vec4f).map(|s| s.as_str()), Some("glam::Vec4"));
        assert_eq!(m.get(WgslType::Mat3x3f).map(|s| s.as_str()), Some("glam::Mat3A"));
        assert_eq!(m.get(WgslType::Mat4x4f).map(|s| s.as_str()), Some("glam::Mat4"));
        assert_eq!(m.get(WgslType::Vec3h), None);
        assert_eq!(m.get(WgslType::Mat2x3f), None);
    }
    let info = bytemuck.get_rust_type_info(WgslType::Vec3f).unwrap();
    assert!(matches!(&info.ty, RustType::Path(p) if p == "glam::Vec3A"));
    assert_eq!(info.size, Some(12));
    assert_eq!(info.alignment, 16);
    assert_eq!(info.size_after_alignment(), Some(16));
}

#[test]
fn nalgebra_map_is_column_major_and_strategy_free() {
    for strategy in [WgslTypeSerializeStrategy::Encase, WgslTypeSerializeStrategy::Bytemuck] {
        let m = NalgebraWgslTypeMap.build(strategy);
        assert_eq!(m.get(WgslType::Vec3u).map(|s| s.as_str()), Some("nalgebra::SVector<u32, 3>"));
        assert_eq!(m.get(WgslType::Mat2x3f).map(|s| s.as_str()), Some("nalgebra::SMatrix<f32, 3, 2>"));
        assert_eq!(m.get(WgslType::Mat4x2f).map(|s| s.as_str()), Some("nalgebra::SMatrix<f32, 2, 4>"));
        assert_eq!(m.get(WgslType::Vec2h), None);
        assert_eq!(m.get(WgslType::Mat4x4h), None);
        let mapped = ALL.iter().filter(|t| m.get(**t).is_some()).count();
        assert_eq!(mapped, 18);
    }
}
