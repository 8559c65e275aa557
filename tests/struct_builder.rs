use wgsl_bindgen::options::{WgslBindgenOption, WgslTypeSerializeStrategy};
use wgsl_bindgen::rust_struct_builder::{
    Derive, FieldInit, FieldType, MemberType, ReprPolicy, RustStructBuilder, RustStructMemberEntry,
    ShaderStructMember, StructBuildError, TypeLayout,
};
use wgsl_bindgen::rust_type::{RustType, RustTypeInfo};
use wgsl_bindgen::wgsl_type::{GlamWgslTypeMap, WgslRustTypeMap, WgslScalar, WgslType, WgslTypeMapBuild};

fn options(strategy: WgslTypeSerializeStrategy, derive_serde: bool) -> WgslBindgenOption {
    WgslBindgenOption { serialization_strategy: strategy, derive_serde, type_map: WgslRustTypeMap.build(strategy) }
}

fn glam_options(strategy: WgslTypeSerializeStrategy) -> WgslBindgenOption {
    WgslBindgenOption { serialization_strategy: strategy, derive_serde: false, type_map: GlamWgslTypeMap.build(strategy) }
}

fn member(name: &str, offset: u32, ty: MemberType, size: u32, wgsl: &str) -> ShaderStructMember {
    ShaderStructMember {
        name: Some(name.to_string()),
        offset,
        ty,
        wgsl_size: size,
        wgsl_type_name: wgsl.to_string(),
    }
}

fn f32_type() -> MemberType {
    MemberType::Resolved(RustTypeInfo { ty: RustType::Scalar(WgslScalar::F32), size: Some(4), alignment: 4 })
}

fn runtime_array() -> MemberType {
    MemberType::Resolved(RustTypeInfo {
        ty: RustType::RuntimeArray(Box::new(RustType::Scalar(WgslScalar::U32))),
        size: None,
        alignment: 4,
    })
}

fn vec3_then_f32() -> Vec<ShaderStructMember> {
    vec![
        member("a", 0, MemberType::Builtin(WgslType::Vec3f), 12, "vec3<f32>"),
        member("b", 16, f32_type(), 4, "f32"),
    ]
}

fn bytes_of(ty: &RustType) -> usize {
    match ty {
        RustType::Scalar(WgslScalar::F16) => 2,
        RustType::Scalar(_) => 4,
        RustType::Array(e, n) => bytes_of(e) * *n as usize,
        other => panic!("no size for {:?}", other),
    }
}

#[test]
fn vec3_then_scalar_gets_padding_after_each_member() {
    let opts = options(WgslTypeSerializeStrategy::Bytemuck, false);
    let layout = TypeLayout { size: 32, alignment: 16 };
    let b = RustStructBuilder::from_naga(Some("Uniforms".to_string()), &vec3_then_f32(), &opts, layout, true, true, false)
        .unwrap();
    let a = &b.members[0];
    assert_eq!(a.rust_type.size_after_alignment(), Some(12));
    let pad_a = a.padding.as_ref().unwrap();
    assert_eq!(pad_a.pad_name, "_pad_a");
    assert_eq!(pad_a.pad_size, 16);
    assert_eq!(pad_a.pad_size as usize - bytes_of(&pad_a.size_of_type), 4);
    assert_eq!(bytes_of(&pad_a.size_of_type), std::mem::size_of::<[f32; 3]>());
    let pad_b = b.members[1].padding.as_ref().unwrap();
    assert_eq!(pad_b.pad_name, "_pad_b");
    assert_eq!(pad_b.pad_size, 16);
    assert_eq!(pad_b.pad_size as usize - bytes_of(&pad_b.size_of_type), 12);

    let d = b.build();
    let names: Vec<&str> = d.fields.iter().map(|f| f.name.as_str()).collect();
    assert_eq!(names, vec!["a", "_pad_a", "b", "_pad_b"]);
    let total: usize = d
        .fields
        .iter()
        .map(|f| match &f.ty {
            FieldType::Member(t) => bytes_of(t),
            FieldType::Padding { pad_size, size_of_type } => *pad_size as usize - bytes_of(size_of_type),
        })
        .sum();
    assert_eq!(total, 32);
    assert_eq!(d.repr, ReprPolicy::CAligned(16));
    let asserts = d.assert_layout.as_ref().unwrap();
    assert_eq!(asserts.size, 32);
    assert!(!asserts.count_instance);
    let offsets: Vec<(&str, u32)> = asserts.member_offsets.iter().map(|m| (m.name.as_str(), m.offset)).collect();
    assert_eq!(offsets, vec![("a", 0), ("b", 16)]);
    let doc = d.fields[0].doc.as_ref().unwrap();
    assert_eq!((doc.size, doc.offset, doc.wgsl_type.as_str()), (12, 0, "vec3<f32>"));
    assert!(d.fields[1].doc.is_none());
    assert!(d.implements_pod);
    assert!(!d.allow_non_camel_case);
}

#[test]
fn only_unbounded_member_is_generic_without_layout_or_padding() {
    let opts = options(WgslTypeSerializeStrategy::Bytemuck, false);
    let members = vec![member("data", 0, runtime_array(), 4, "array<u32>")];
    let layout = TypeLayout { size: 4, alignment: 4 };
    let b = RustStructBuilder::from_naga(Some("Buffer".to_string()), &members, &opts, layout, true, true, true).unwrap();
    assert!(b.members[0].is_rsa);
    assert!(b.members[0].padding.is_none());
    assert!(!b.uses_padding());
    let d = b.build();
    assert!(d.name.count_param);
    assert_eq!(d.repr, ReprPolicy::Unspecified);
    assert_eq!(d.fields.len(), 1);
    assert!(!d.fields[0].runtime_sized);
    assert!(d.fields.iter().all(|f| matches!(f.ty, FieldType::Member(_))));
    assert!(d.init_struct.is_none());
    assert!(d.assert_layout.as_ref().unwrap().count_instance);
    assert_eq!(d.derives, vec![Derive::Debug, Derive::PartialEq, Derive::Clone, Derive::Copy]);
    assert_eq!(d.fn_new.params.len(), 1);
}

#[test]
fn unbounded_member_before_last_is_refused() {
    let opts = options(WgslTypeSerializeStrategy::Bytemuck, false);
    let members = vec![member("data", 0, runtime_array(), 4, "array<u32>"), member("b", 16, f32_type(), 4, "f32")];
    let layout = TypeLayout { size: 32, alignment: 16 };
    let r = RustStructBuilder::from_naga(Some("Bad".to_string()), &members, &opts, layout, true, true, true);
    assert_eq!(r.unwrap_err(), StructBuildError::RuntimeArrayNotLast { index: 0 });
    let r = RustStructMemberEntry::from_naga(&members, &opts, 32, true);
    assert_eq!(r.unwrap_err(), StructBuildError::RuntimeArrayNotLast { index: 0 });
}

#[test]
fn unnamed_member_is_refused() {
    let opts = options(WgslTypeSerializeStrategy::Bytemuck, false);
    let mut members = vec3_then_f32();
    members[1].name = None;
    let layout = TypeLayout { size: 32, alignment: 16 };
    let r = RustStructBuilder::from_naga(Some("S".to_string()), &members, &opts, layout, true, true, false);
    assert_eq!(r.unwrap_err(), StructBuildError::MissingMemberName { index: 1 });
}

#[test]
fn unnamed_struct_is_refused() {
    let opts = options(WgslTypeSerializeStrategy::Bytemuck, false);
    let layout = TypeLayout { size: 32, alignment: 16 };
    let r = RustStructBuilder::from_naga(None, &vec3_then_f32(), &opts, layout, true, true, false);
    assert_eq!(r.unwrap_err(), StructBuildError::MissingStructName);
}

#[test]
fn constructor_zeroes_padding_and_takes_members() {
    let opts = options(WgslTypeSerializeStrategy::Bytemuck, false);
    let layout = TypeLayout { size: 32, alignment: 16 };
    let b = RustStructBuilder::from_naga(Some("Uniforms".to_string()), &vec3_then_f32(), &opts, layout, true, true, false)
        .unwrap();
    let f = b.build_fn_new();
    let params: Vec<&str> = f.params.iter().map(|p| p.name.as_str()).collect();
    assert_eq!(params, vec!["a", "b"]);
    let inits: Vec<String> = f
        .fields
        .iter()
        .map(|i| match i {
            FieldInit::Copy { name } => format!("copy {}", name),
            FieldInit::Zeroed { name, pad_size, .. } => format!("zero {} {}", name, pad_size),
        })
        .collect();
    assert_eq!(inits, vec!["copy a", "zero _pad_a 16", "copy b", "zero _pad_b 16"]);
}

#[test]
fn init_struct_mirrors_constructor() {
    let opts = options(WgslTypeSerializeStrategy::Bytemuck, false);
    let layout = TypeLayout { size: 32, alignment: 16 };
    let b = RustStructBuilder::from_naga(Some("Uniforms".to_string()), &vec3_then_f32(), &opts, layout, true, true, false)
        .unwrap();
    let init = b.build_init_struct().unwrap();
    assert_eq!(init.name.ident, "UniformsInit");
    assert!(!init.name.count_param);
    let f = b.build_fn_new();
    let a: Vec<&str> = init.fields.iter().map(|p| p.name.as_str()).collect();
    let c: Vec<&str> = f.params.iter().map(|p| p.name.as_str()).collect();
    assert_eq!(a, c);
    let conv: Vec<bool> = init.conversion.iter().map(|i| matches!(i, FieldInit::Zeroed { .. })).collect();
    assert_eq!(conv, vec![false, true, false, true]);
}

#[test]
fn exact_fit_needs_no_padding_nor_init_struct() {
    let opts = glam_options(WgslTypeSerializeStrategy::Bytemuck);
    let members = vec![
        member("a", 0, MemberType::Builtin(WgslType::Vec3f), 12, "vec3<f32>"),
        member("b", 16, MemberType::Builtin(WgslType::Vec4f), 16, "vec4<f32>"),
    ];
    let layout = TypeLayout { size: 32, alignment: 16 };
    let b = RustStructBuilder::from_naga(Some("Exact".to_string()), &members, &opts, layout, true, true, false).unwrap();
    assert!(matches!(&b.members[0].rust_type.ty, RustType::Path(p) if p == "glam::Vec3A"));
    assert!(b.members.iter().all(|m| m.padding.is_none()));
    let d = b.build();
    assert_eq!(d.fields.len(), 2);
    assert!(d.init_struct.is_none());
    assert_eq!(d.repr, ReprPolicy::CAligned(16));
}

#[test]
fn not_directly_shareable_gets_no_padding() {
    let opts = options(WgslTypeSerializeStrategy::Bytemuck, false);
    let layout = TypeLayout { size: 32, alignment: 16 };
    let b = RustStructBuilder::from_naga(Some("Vertex".to_string()), &vec3_then_f32(), &opts, layout, false, false, false)
        .unwrap();
    assert!(b.members.iter().all(|m| m.padding.is_none()));
    let d = b.build();
    assert_eq!(d.repr, ReprPolicy::C);
    assert!(d.assert_layout.is_none());
    assert!(!d.implements_pod);
    assert!(d.fields.iter().all(|f| f.doc.is_none()));
}

#[test]
fn encase_strategy_capabilities() {
    let opts = options(WgslTypeSerializeStrategy::Encase, true);
    let members = vec![
        member("count", 0, f32_type(), 4, "f32"),
        member("data", 4, runtime_array(), 4, "array<u32>"),
    ];
    let layout = TypeLayout { size: 8, alignment: 4 };
    let b = RustStructBuilder::from_naga(Some("Storage".to_string()), &members, &opts, layout, false, true, true).unwrap();
    let d = b.build();
    assert_eq!(
        d.derives,
        vec![Derive::Debug, Derive::PartialEq, Derive::Clone, Derive::ShaderType, Derive::Serialize, Derive::Deserialize]
    );
    assert!(!d.name.count_param);
    assert!(d.fields[1].runtime_sized);
    assert!(!d.fields[0].runtime_sized);
    assert!(!d.implements_pod);
    assert!(d.assert_layout.is_none());
    assert_eq!(d.repr, ReprPolicy::Unspecified);

    let sized = RustStructBuilder::from_naga(Some("Sized".to_string()), &vec3_then_f32(), &opts, TypeLayout { size: 32, alignment: 16 }, false, true, false)
        .unwrap()
        .build_derives();
    assert_eq!(
        sized,
        vec![Derive::Debug, Derive::PartialEq, Derive::Clone, Derive::Copy, Derive::ShaderType, Derive::Serialize, Derive::Deserialize]
    );
}

#[test]
fn lowercase_name_allows_non_camel_case() {
    let opts = options(WgslTypeSerializeStrategy::Bytemuck, false);
    let layout = TypeLayout { size: 32, alignment: 16 };
    let b = RustStructBuilder::from_naga(Some("uniforms".to_string()), &vec3_then_f32(), &opts, layout, true, true, false)
        .unwrap();
    assert!(b.starts_lowercase());
    assert!(b.build().allow_non_camel_case);
}
