use vstd::prelude::*;
use vstd::string::StrSliceExecFns;

use crate::options::{WgslBindgenOption, WgslTypeSerializeStrategy};
use crate::rust_type::{spec_fallback_type, RustType, RustTypeInfo};
use crate::wgsl_type::{lemma_catalog_entry, round_up, WgslType, WgslTypeMap};

verus! {

/// The type of a shader struct member.
#[derive(Debug)]
pub enum MemberType {
    /// A catalog vector or matrix: its host type comes from the run's type map.
    Builtin(WgslType),
    /// Any other type, whose host type is already resolved; its size is
    /// `None` for an unbounded array.
    Resolved(RustTypeInfo),
}

/// One member of a shader struct, in declaration order.
#[derive(Debug)]
pub struct ShaderStructMember {
    pub name: Option<String>,
    /// Byte offset within the struct.
    pub offset: u32,
    pub ty: MemberType,
    /// The member type's size on the device, for the field's documentation.
    pub wgsl_size: u32,
    /// The member type as the shader writes it, for the field's documentation.
    pub wgsl_type_name: String,
}

/// Size and alignment of a whole shader struct on the device.
#[derive(Debug, Clone, Copy, PartialEq, Eq, Structural)]
pub struct TypeLayout {
    pub size: u32,
    pub alignment: u32,
}

/// Why a shader struct has no host mirror.
#[derive(Debug, Clone, Copy, PartialEq, Eq, Structural)]
pub enum StructBuildError {
    /// The struct type has no name.
    MissingStructName,
    /// The member at this position has no name.
    MissingMemberName { index: usize },
    /// The member at this position is sized at run time but is not the last.
    RuntimeArrayNotLast { index: usize },
}

/// `t`'s host type under `map`: the mapped library type with the catalog's
/// size and alignment, or else its plain-array form.
pub open spec fn resolves_to(map: WgslTypeMap, ty: MemberType, info: RustTypeInfo) -> bool {
    match ty {
        MemberType::Builtin(t) => match map.spec_get(t) {
            Some(p) => {
                &&& info.ty matches RustType::Path(q) && q@ == p
                &&& info.size == Some(t.spec_size() as u32)
                &&& info.alignment == t.spec_alignment()
            },
            None => {
                &&& info.ty == spec_fallback_type(t)
                &&& info.size == Some(t.spec_size() as u32)
                &&& info.alignment == t.spec_scalar().spec_width()
            },
        },
        MemberType::Resolved(i) => info == i,
    }
}

/// The size that a member's host type takes up after alignment; `None` for
/// a type sized at run time.
pub open spec fn natural_size(map: WgslTypeMap, ty: MemberType) -> Option<nat> {
    match ty {
        MemberType::Builtin(t) => match map.spec_get(t) {
            Some(_) => Some(round_up(t.spec_size(), t.spec_alignment())),
            None => Some(round_up(t.spec_size(), t.spec_scalar().spec_width())),
        },
        MemberType::Resolved(i) => i.spec_size_after_alignment(),
    }
}

pub open spec fn member_type_wf(ty: MemberType) -> bool {
    match ty {
        MemberType::Builtin(_) => true,
        MemberType::Resolved(i) => i.wf(),
    }
}

/// Members as the module analyzer hands them over: offsets never decrease,
/// and none lies past the struct's end.
pub open spec fn members_wf(members: Seq<ShaderStructMember>, layout_size: u32) -> bool {
    &&& forall|i: int| 0 <= i < members.len() - 1 ==> #[trigger] members[i].offset <= members[i + 1].offset
    &&& members.len() > 0 ==> members.last().offset <= layout_size
    &&& forall|i: int| 0 <= i < members.len() ==> member_type_wf(#[trigger] members[i].ty)
}

/// Where the span of member `i` ends: the next member's offset, or the
/// struct's end for the last member.
pub open spec fn span_end(members: Seq<ShaderStructMember>, layout_size: u32, i: int) -> int {
    if i + 1 < members.len() {
        members[i + 1].offset as int
    } else {
        layout_size as int
    }
}

/// The bytes from member `i`'s offset to where its span ends.
pub open spec fn span(members: Seq<ShaderStructMember>, layout_size: u32, i: int) -> int {
    span_end(members, layout_size, i) - members[i].offset
}

/// What stops member `i` from being mirrored, if anything.
pub open spec fn member_fault(map: WgslTypeMap, members: Seq<ShaderStructMember>, i: int) -> Option<StructBuildError> {
    if members[i].name is None {
        Some(StructBuildError::MissingMemberName { index: i as usize })
    } else if natural_size(map, members[i].ty) is None && i != members.len() - 1 {
        Some(StructBuildError::RuntimeArrayNotLast { index: i as usize })
    } else {
        None
    }
}

pub open spec fn no_fault(map: WgslTypeMap, members: Seq<ShaderStructMember>) -> bool {
    forall|i: int| 0 <= i < members.len() ==> (#[trigger] member_fault(map, members, i)) is None
}

/// Whether member `i` gets padding: it is sized, its struct is directly
/// shareable, and its host type does not fill its span exactly.
pub open spec fn needs_padding(
    map: WgslTypeMap,
    members: Seq<ShaderStructMember>,
    layout_size: u32,
    is_directly_sharable: bool,
    i: int,
) -> bool {
    &&& is_directly_sharable
    &&& natural_size(map, members[i].ty) matches Some(n) && n != span(members, layout_size, i)
}

pub open spec fn pad_name_of(name: Seq<char>) -> Seq<char> {
    "_pad_"@ + name
}

/// `e` is the host field entry of member `i`.
pub open spec fn entry_of(
    map: WgslTypeMap,
    members: Seq<ShaderStructMember>,
    layout_size: u32,
    is_directly_sharable: bool,
    i: int,
    e: RustStructMemberEntry,
) -> bool {
    let m = members[i];
    &&& m.name matches Some(n) && e.name_ident@ == n@
    &&& e.offset == m.offset
    &&& e.wgsl_size == m.wgsl_size
    &&& e.wgsl_type_name@ == m.wgsl_type_name@
    &&& resolves_to(map, m.ty, e.rust_type)
    &&& e.rust_type.wf()
    &&& e.rust_type.spec_size_after_alignment() == natural_size(map, m.ty)
    &&& e.is_rsa == natural_size(map, m.ty) is None
    &&& if needs_padding(map, members, layout_size, is_directly_sharable, i) {
        e.padding matches Some(p) && {
            &&& p.pad_name@ == pad_name_of(e.name_ident@)
            &&& p.pad_size == span(members, layout_size, i)
            &&& p.size_of_type == e.rust_type.ty
        }
    } else {
        e.padding is None
    }
}

/// A synthetic byte-array field that fills the gap after a member. Its size
/// is `pad_size` minus the size of `size_of_type`, left for the target
/// compiler to evaluate.
#[derive(Debug)]
pub struct RustStructMemberEntryPadding {
    pub pad_name: String,
    /// The member's span, from its offset to the next member or the end.
    pub pad_size: u32,
    /// The member's host type, whose size the span is reduced by.
    pub size_of_type: RustType,
}

/// The host field of one shader struct member.
#[derive(Debug)]
pub struct RustStructMemberEntry {
    pub name_ident: String,
    /// The member's offset on the device.
    pub offset: u32,
    pub wgsl_size: u32,
    pub wgsl_type_name: String,
    pub rust_type: RustTypeInfo,
    pub padding: Option<RustStructMemberEntryPadding>,
    /// The member is an array sized at run time.
    pub is_rsa: bool,
}

/// Concatenation of two strings.
///
/// Relies on `<[&str]>::concat`: the characters of `a` followed by those of `b`.
#[verifier::external_body]
fn concat_str(a: &str, b: &str) -> (r: String)
    ensures
        r@ == a@ + b@,
{
    [a, b].concat()
}

/// The host type of a member type under `map`.
pub fn resolve_rust_type(map: &WgslTypeMap, ty: &MemberType) -> (r: RustTypeInfo)
    requires
        map.wf(),
        member_type_wf(*ty),
    ensures
        resolves_to(*map, *ty, r),
        r.wf(),
        r.spec_size_after_alignment() == natural_size(*map, *ty),
{
    match ty {
        MemberType::Builtin(t) => {
            proof {
                lemma_catalog_entry(*t);
            }
            match map.get_rust_type_info(*t) {
                Some(info) => info,
                None => t.fallback_rust_type_info(),
            }
        },
        MemberType::Resolved(info) => info.duplicate(),
    }
}

/// The entries derived so far while walking a struct's members in order.
pub struct MemberEntryState {
    pub index: usize,
    pub members: Vec<RustStructMemberEntry>,
}

impl MemberEntryState {
    pub open spec fn matches(
        &self,
        map: WgslTypeMap,
        members: Seq<ShaderStructMember>,
        layout_size: u32,
        is_directly_sharable: bool,
    ) -> bool {
        &&& self.index <= members.len()
        &&& self.members@.len() == self.index
        &&& forall|j: int| 0 <= j < self.index ==> (#[trigger] member_fault(map, members, j)) is None
        &&& forall|j: int|
            0 <= j < self.index ==> entry_of(map, members, layout_size, is_directly_sharable, j, #[trigger] self.members@[j])
    }

    /// Derives the entry of the next member, with its padding, or the fault
    /// that stops it.
    pub fn fold_member(
        self,
        members: &Vec<ShaderStructMember>,
        options: &WgslBindgenOption,
        layout_size: u32,
        is_directly_sharable: bool,
    ) -> (r: Result<MemberEntryState, StructBuildError>)
        requires
            options.wf(),
            members_wf(members@, layout_size),
            self.matches(options.type_map, members@, layout_size, is_directly_sharable),
            self.index < members@.len(),
        ensures
            r is Ok <==> member_fault(options.type_map, members@, self.index as int) is None,
            r matches Err(e) ==> member_fault(options.type_map, members@, self.index as int) == Some(e),
            r matches Ok(s) ==> s.index == self.index + 1 && s.matches(
                options.type_map,
                members@,
                layout_size,
                is_directly_sharable,
            ),
    {
        let mut state = self;
        let n = members.len();
        let i = state.index;
        let member = &members[i];
        let name = match &member.name {
            Some(n) => n,
            None => {
                return Err(StructBuildError::MissingMemberName { index: i });
            },
        };
        let rust_type = resolve_rust_type(&options.type_map, &member.ty);
        let size = rust_type.size_after_alignment();
        let is_rsa = size.is_none();
        if is_rsa && i != n - 1 {
            return Err(StructBuildError::RuntimeArrayNotLast { index: i });
        }
        let padding = if is_rsa || !is_directly_sharable {
            None
        } else {
            let current_offset = member.offset;
            let next_offset = if i + 1 < n {
                members[i + 1].offset
            } else {
                layout_size
            };
            let required_member_size = next_offset - current_offset;
            match size {
                Some(s) if s == required_member_size as u64 => None,
                _ => Some(
                    RustStructMemberEntryPadding {
                        pad_name: concat_str("_pad_", name.as_str()),
                        pad_size: required_member_size,
                        size_of_type: rust_type.ty.duplicate(),
                    },
                ),
            }
        };
        let entry = RustStructMemberEntry {
            name_ident: name.clone(),
            offset: member.offset,
            wgsl_size: member.wgsl_size,
            wgsl_type_name: member.wgsl_type_name.clone(),
            rust_type,
            padding,
            is_rsa,
        };
        state.index = i + 1;
        state.members.push(entry);
        proof {
            assert forall|j: int| 0 <= j < state.index implies #[trigger] member_fault(
                options.type_map,
                members@,
                j,
            ) is None by {
                if j < i {
                    assert(member_fault(options.type_map, members@, j) is None);
                }
            }
            assert forall|j: int|
                0 <= j < state.index implies entry_of(
                options.type_map,
                members@,
                layout_size,
                is_directly_sharable,
                j,
                #[trigger] state.members@[j],
            ) by {
                if j < i {
                    assert(state.members@[j] == self.members@[j]);
                }
            }
        }
        Ok(state)
    }
}

impl RustStructMemberEntry {
    /// The host field entries of a struct's members, in order, or the
    /// fault of the first member that cannot be mirrored.
    pub fn from_naga(
        members: &Vec<ShaderStructMember>,
        options: &WgslBindgenOption,
        layout_size: u32,
        is_directly_sharable: bool,
    ) -> (r: Result<Vec<RustStructMemberEntry>, StructBuildError>)
        requires
            options.wf(),
            members_wf(members@, layout_size),
        ensures
            r is Ok <==> no_fault(options.type_map, members@),
            r matches Err(e) ==> exists|i: int|
                0 <= i < members@.len() && member_fault(options.type_map, members@, i) == Some(e)
                    && forall|j: int| 0 <= j < i ==> (#[trigger] member_fault(options.type_map, members@, j)) is None,
            r matches Ok(v) ==> v@.len() == members@.len() && forall|i: int|
                0 <= i < members@.len() ==> entry_of(
                    options.type_map,
                    members@,
                    layout_size,
                    is_directly_sharable,
                    i,
                    #[trigger] v@[i],
                ),
    {
        let mut state = MemberEntryState { index: 0, members: Vec::new() };
        while state.index < members.len()
            invariant
                options.wf(),
                members_wf(members@, layout_size),
                state.matches(options.type_map, members@, layout_size, is_directly_sharable),
            decreases members@.len() - state.index,
        {
            let i = state.index;
            match state.fold_member(members, options, layout_size, is_directly_sharable) {
                Ok(s) => {
                    state = s;
                },
                Err(e) => {
                    assert(member_fault(options.type_map, members@, i as int) == Some(e));
                    return Err(e);
                },
            }
        }
        Ok(state.members)
    }
}

} // verus!

verus! {

/// A trait that the host struct derives.
#[derive(Debug, Clone, Copy, PartialEq, Eq, Structural)]
pub enum Derive {
    Debug,
    PartialEq,
    Clone,
    Copy,
    /// The adapter library's element-wise encoding.
    ShaderType,
    Serialize,
    Deserialize,
}

/// The layout representation attribute of the host struct.
#[derive(Debug, Clone, Copy, PartialEq, Eq, Structural)]
pub enum ReprPolicy {
    /// No layout attribute: the struct ends in an array sized at run time.
    Unspecified,
    /// C layout.
    C,
    /// C layout with an explicit alignment in bytes.
    CAligned(u32),
}

/// A struct's name, with whether it takes the element count of its trailing
/// array as a compile-time parameter.
#[derive(Debug)]
pub struct StructName {
    pub ident: String,
    pub count_param: bool,
}

/// The type of a host field.
#[derive(Debug)]
pub enum FieldType {
    /// The member's host type.
    Member(RustType),
    /// Bytes: `pad_size` minus the size of `size_of_type`.
    Padding { pad_size: u32, size_of_type: RustType },
}

/// Where a member lies on the device, for the field's documentation.
#[derive(Debug)]
pub struct FieldDoc {
    pub size: u32,
    pub offset: u32,
    pub wgsl_type: String,
}

/// One field of the host struct.
#[derive(Debug)]
pub struct FieldDefinition {
    pub name: String,
    pub ty: FieldType,
    pub doc: Option<FieldDoc>,
    /// The field is marked as sized at run time for the adapter library.
    pub runtime_sized: bool,
}

/// A named value of a host type: a constructor parameter, or a field of the
/// alternate `Init` struct.
#[derive(Debug)]
pub struct FnParam {
    pub name: String,
    pub ty: RustType,
}

/// How one field of a new instance is filled.
#[derive(Debug)]
pub enum FieldInit {
    /// From the value of the same name: a parameter, or the source struct's
    /// field.
    Copy { name: String },
    /// With zero bytes.
    Zeroed { name: String, pad_size: u32, size_of_type: RustType },
}

/// The constructor: one parameter per member, in order, and how each field
/// of the instance is filled.
#[derive(Debug)]
pub struct FnNew {
    pub params: Vec<FnParam>,
    pub fields: Vec<FieldInit>,
}

/// The alternate form of a padded struct: the members without padding, and
/// the conversion into the primary struct.
#[derive(Debug)]
pub struct InitStruct {
    pub name: StructName,
    pub fields: Vec<FnParam>,
    pub conversion: Vec<FieldInit>,
}

/// One member's expected offset.
#[derive(Debug)]
pub struct MemberOffset {
    pub name: String,
    pub offset: u32,
}

/// Build-time checks that the host layout is the device layout. Where the
/// struct takes an element count, it is checked with one element.
#[derive(Debug)]
pub struct LayoutAssertions {
    pub count_instance: bool,
    pub member_offsets: Vec<MemberOffset>,
    pub size: u32,
}

/// Everything that the code-emission backend renders for one struct.
#[derive(Debug)]
pub struct StructDescription {
    pub name: StructName,
    /// The name starts with a lower-case letter.
    pub allow_non_camel_case: bool,
    pub repr: ReprPolicy,
    pub derives: Vec<Derive>,
    pub fields: Vec<FieldDefinition>,
    pub fn_new: FnNew,
    /// The raw-bytes capability pair is implemented.
    pub implements_pod: bool,
    pub assert_layout: Option<LayoutAssertions>,
    pub init_struct: Option<InitStruct>,
}

/// How a field is filled, as a value.
pub ghost enum FieldInitView {
    Copy(Seq<char>),
    Zero(Seq<char>),
}

impl FieldInit {
    pub open spec fn spec_view(&self) -> FieldInitView {
        match self {
            FieldInit::Copy { name } => FieldInitView::Copy(name@),
            FieldInit::Zeroed { name, .. } => FieldInitView::Zero(name@),
        }
    }
}

pub open spec fn inits_view(v: Seq<FieldInit>) -> Seq<FieldInitView> {
    v.map_values(|f: FieldInit| f.spec_view())
}

/// A parameter as a value: its name and host type.
pub open spec fn params_view(v: Seq<FnParam>) -> Seq<(Seq<char>, RustType)> {
    v.map_values(|p: FnParam| (p.name@, p.ty))
}

/// A field definition as a value.
pub ghost struct FieldView {
    pub name: Seq<char>,
    pub ty: FieldType,
    /// Size, offset and shader type text.
    pub doc: Option<(u32, u32, Seq<char>)>,
    pub runtime_sized: bool,
}

impl FieldDefinition {
    pub open spec fn spec_view(&self) -> FieldView {
        FieldView {
            name: self.name@,
            ty: self.ty,
            doc: match self.doc {
                Some(d) => Some((d.size, d.offset, d.wgsl_type@)),
                None => None,
            },
            runtime_sized: self.runtime_sized,
        }
    }
}

pub open spec fn fields_view(v: Seq<FieldDefinition>) -> Seq<FieldView> {
    v.map_values(|f: FieldDefinition| f.spec_view())
}

/// The concatenation of `f` over `es`, in order.
pub open spec fn flat_map<T>(es: Seq<RustStructMemberEntry>, f: spec_fn(RustStructMemberEntry) -> Seq<T>) -> Seq<T>
    decreases es.len(),
{
    if es.len() == 0 {
        Seq::empty()
    } else {
        flat_map(es.drop_last(), f) + f(es.last())
    }
}

pub proof fn lemma_flat_map_take<T>(es: Seq<RustStructMemberEntry>, f: spec_fn(RustStructMemberEntry) -> Seq<T>, i: int)
    requires
        0 <= i < es.len(),
    ensures
        flat_map(es.take(i + 1), f) == flat_map(es.take(i), f) + f(es[i]),
{
    assert(es.take(i + 1).drop_last() =~= es.take(i));
}

/// The fields that fill entry `e` in a new instance: the member from the
/// value of its name, then its padding with zeros.
pub open spec fn entry_inits(e: RustStructMemberEntry) -> Seq<FieldInitView> {
    match e.padding {
        Some(p) => seq![FieldInitView::Copy(e.name_ident@), FieldInitView::Zero(p.pad_name@)],
        None => seq![FieldInitView::Copy(e.name_ident@)],
    }
}

/// The fields that fill a new instance, in field order.
pub open spec fn struct_inits(es: Seq<RustStructMemberEntry>) -> Seq<FieldInitView> {
    flat_map(es, |e: RustStructMemberEntry| entry_inits(e))
}

pub proof fn lemma_struct_inits_take(es: Seq<RustStructMemberEntry>, i: int)
    requires
        0 <= i < es.len(),
    ensures
        struct_inits(es.take(i + 1)) == struct_inits(es.take(i)) + entry_inits(es[i]),
{
    lemma_flat_map_take(es, |e: RustStructMemberEntry| entry_inits(e), i);
}

/// The field definitions of entry `e`: the member's field, then its padding.
pub open spec fn entry_fields(e: RustStructMemberEntry, documented: bool, runtime_attr: bool) -> Seq<FieldView> {
    let f = FieldView {
        name: e.name_ident@,
        ty: FieldType::Member(e.rust_type.ty),
        doc: if documented {
            Some((e.wgsl_size, e.offset, e.wgsl_type_name@))
        } else {
            None
        },
        runtime_sized: e.is_rsa && runtime_attr,
    };
    match e.padding {
        Some(p) => seq![
            f,
            FieldView {
                name: p.pad_name@,
                ty: FieldType::Padding { pad_size: p.pad_size, size_of_type: p.size_of_type },
                doc: None,
                runtime_sized: false,
            },
        ],
        None => seq![f],
    }
}

pub open spec fn entry_param(e: RustStructMemberEntry) -> (Seq<char>, RustType) {
    (e.name_ident@, e.rust_type.ty)
}

fn entry_init_into(e: &RustStructMemberEntry, out: &mut Vec<FieldInit>)
    ensures
        inits_view(final(out)@) == inits_view(old(out)@) + entry_inits(*e),
{
    out.push(FieldInit::Copy { name: e.name_ident.clone() });
    match &e.padding {
        Some(p) => {
            out.push(
                FieldInit::Zeroed {
                    name: p.pad_name.clone(),
                    pad_size: p.pad_size,
                    size_of_type: p.size_of_type.duplicate(),
                },
            );
        },
        None => {},
    }
    assert(inits_view(out@) =~= inits_view(old(out)@) + entry_inits(*e));
}

/// The field initialisers of a new instance, in field order.
fn build_inits(members: &Vec<RustStructMemberEntry>) -> (r: Vec<FieldInit>)
    ensures
        inits_view(r@) == struct_inits(members@),
{
    let mut out: Vec<FieldInit> = Vec::new();
    let mut i: usize = 0;
    while i < members.len()
        invariant
            i <= members@.len(),
            inits_view(out@) == struct_inits(members@.take(i as int)),
        decreases members@.len() - i,
    {
        proof {
            lemma_struct_inits_take(members@, i as int);
        }
        entry_init_into(&members[i], &mut out);
        i = i + 1;
    }
    assert(members@.take(members@.len() as int) =~= members@);
    out
}

/// One parameter per member, named and typed as the member.
fn build_params(members: &Vec<RustStructMemberEntry>) -> (r: Vec<FnParam>)
    ensures
        params_view(r@).len() == members@.len(),
        forall|k: int| 0 <= k < members@.len() ==> #[trigger] params_view(r@)[k] == entry_param(members@[k]),
{
    let mut out: Vec<FnParam> = Vec::new();
    let mut i: usize = 0;
    while i < members.len()
        invariant
            i <= members@.len(),
            params_view(out@).len() == i,
            forall|k: int| 0 <= k < i ==> #[trigger] params_view(out@)[k] == entry_param(members@[k]),
        decreases members@.len() - i,
    {
        let e = &members[i];
        let ghost prev = out@;
        out.push(FnParam { name: e.name_ident.clone(), ty: e.rust_type.ty.duplicate() });
        assert(params_view(out@) =~= params_view(prev).push(entry_param(members@[i as int])));
        i = i + 1;
    }
    out
}

} // verus!

verus! {

/// The field definitions of a struct, in order.
pub open spec fn struct_fields(es: Seq<RustStructMemberEntry>, documented: bool, runtime_attr: bool) -> Seq<FieldView> {
    flat_map(es, |e: RustStructMemberEntry| entry_fields(e, documented, runtime_attr))
}

pub proof fn lemma_struct_fields_take(es: Seq<RustStructMemberEntry>, documented: bool, runtime_attr: bool, i: int)
    requires
        0 <= i < es.len(),
    ensures
        struct_fields(es.take(i + 1), documented, runtime_attr) == struct_fields(es.take(i), documented, runtime_attr)
            + entry_fields(es[i], documented, runtime_attr),
{
    lemma_flat_map_take(es, |e: RustStructMemberEntry| entry_fields(e, documented, runtime_attr), i);
}

/// Whether a character is lower case.
pub uninterp spec fn is_lowercase_char(c: char) -> bool;

/// Relies on `char::is_lowercase`: whether `c` has the Unicode
/// `Lowercase` property, which depends on `c` alone.
#[verifier::external_body]
fn char_is_lowercase(c: char) -> (r: bool)
    ensures
        r == is_lowercase_char(c),
{
    c.is_lowercase()
}

fn field_definitions_into(e: &RustStructMemberEntry, documented: bool, runtime_attr: bool, out: &mut Vec<FieldDefinition>)
    ensures
        fields_view(final(out)@) == fields_view(old(out)@) + entry_fields(*e, documented, runtime_attr),
{
    let doc = if documented {
        Some(FieldDoc { size: e.wgsl_size, offset: e.offset, wgsl_type: e.wgsl_type_name.clone() })
    } else {
        None
    };
    out.push(
        FieldDefinition {
            name: e.name_ident.clone(),
            ty: FieldType::Member(e.rust_type.ty.duplicate()),
            doc,
            runtime_sized: e.is_rsa && runtime_attr,
        },
    );
    match &e.padding {
        Some(p) => {
            out.push(
                FieldDefinition {
                    name: p.pad_name.clone(),
                    ty: FieldType::Padding { pad_size: p.pad_size, size_of_type: p.size_of_type.duplicate() },
                    doc: None,
                    runtime_sized: false,
                },
            );
        },
        None => {},
    }
    assert(fields_view(out@) =~= fields_view(old(out)@) + entry_fields(*e, documented, runtime_attr));
}

/// Builds the description of the host struct that mirrors one shader
/// struct.
#[derive(Debug)]
pub struct RustStructBuilder {
    pub name: String,
    pub members: Vec<RustStructMemberEntry>,
    pub is_host_sharable: bool,
    pub has_rts_array: bool,
    pub layout: TypeLayout,
    pub serialization_strategy: WgslTypeSerializeStrategy,
    pub derive_serde: bool,
}

impl RustStructBuilder {
    pub open spec fn spec_is_directly_shareable(&self) -> bool {
        self.serialization_strategy == WgslTypeSerializeStrategy::Bytemuck && self.is_host_sharable
    }

    pub open spec fn spec_uses_generics_for_rts(&self) -> bool {
        self.has_rts_array && self.serialization_strategy == WgslTypeSerializeStrategy::Bytemuck
    }

    pub open spec fn spec_uses_padding(&self) -> bool {
        exists|i: int| 0 <= i < self.members@.len() && (#[trigger] self.members@[i]).padding is Some
    }

    /// Debug, equality and clone always; copy unless the adapter library
    /// holds a trailing array sized at run time; the adapter's encoding
    /// under its strategy; (de)serialization when asked for.
    pub open spec fn spec_derives(&self) -> Seq<Derive> {
        let base = seq![Derive::Debug, Derive::PartialEq, Derive::Clone];
        let strategy = match self.serialization_strategy {
            WgslTypeSerializeStrategy::Bytemuck => seq![Derive::Copy],
            WgslTypeSerializeStrategy::Encase => if self.has_rts_array {
                seq![Derive::ShaderType]
            } else {
                seq![Derive::Copy, Derive::ShaderType]
            },
        };
        let serde = if self.derive_serde {
            seq![Derive::Serialize, Derive::Deserialize]
        } else {
            Seq::empty()
        };
        base + strategy + serde
    }

    pub open spec fn spec_repr(&self) -> ReprPolicy {
        if self.has_rts_array {
            ReprPolicy::Unspecified
        } else if self.is_host_sharable && self.serialization_strategy == WgslTypeSerializeStrategy::Bytemuck {
            ReprPolicy::CAligned(self.layout.alignment)
        } else {
            ReprPolicy::C
        }
    }

    pub open spec fn spec_fields(&self) -> Seq<FieldView> {
        struct_fields(
            self.members@,
            self.spec_is_directly_shareable(),
            self.serialization_strategy == WgslTypeSerializeStrategy::Encase,
        )
    }

    /// The parameters are the members' names and host types, in order.
    pub open spec fn params_match(&self, params: Seq<FnParam>) -> bool {
        &&& params_view(params).len() == self.members@.len()
        &&& forall|k: int| 0 <= k < self.members@.len() ==> #[trigger] params_view(params)[k] == entry_param(self.members@[k])
    }

    pub open spec fn fn_new_matches(&self, f: FnNew) -> bool {
        &&& self.params_match(f.params@)
        &&& inits_view(f.fields@) == struct_inits(self.members@)
    }

    pub open spec fn init_struct_matches(&self, r: Option<InitStruct>) -> bool {
        &&& r is Some <==> self.spec_is_directly_shareable() && self.spec_uses_padding()
        &&& r matches Some(init) ==> {
            &&& init.name.ident@ == self.name@ + "Init"@
            &&& init.name.count_param == self.spec_uses_generics_for_rts()
            &&& self.params_match(init.fields@)
            &&& inits_view(init.conversion@) == struct_inits(self.members@)
        }
    }

    pub open spec fn assert_layout_matches(&self, r: Option<LayoutAssertions>) -> bool {
        &&& r is Some <==> self.spec_is_directly_shareable()
        &&& r matches Some(a) ==> {
            &&& a.count_instance == self.spec_uses_generics_for_rts()
            &&& a.size == self.layout.size
            &&& a.member_offsets@.len() == self.members@.len()
            &&& forall|k: int| 0 <= k < self.members@.len() ==>
                (#[trigger] a.member_offsets@[k]).name@ == self.members@[k].name_ident@
                && a.member_offsets@[k].offset == self.members@[k].offset
        }
    }

    /// The struct's name.
    pub fn name_ident(&self) -> (r: String)
        ensures
            r@ == self.name@,
    {
        self.name.clone()
    }

    /// Whether the struct is copied to the device as raw bytes.
    pub fn is_directly_shareable(&self) -> (r: bool)
        ensures
            r == self.spec_is_directly_shareable(),
    {
        self.serialization_strategy.is_bytemuck() && self.is_host_sharable
    }

    /// Whether the struct takes the element count of its trailing array as
    /// a compile-time parameter.
    pub fn uses_generics_for_rts(&self) -> (r: bool)
        ensures
            r == self.spec_uses_generics_for_rts(),
    {
        self.has_rts_array && self.serialization_strategy.is_bytemuck()
    }

    /// Whether any member has padding.
    pub fn uses_padding(&self) -> (r: bool)
        ensures
            r == self.spec_uses_padding(),
    {
        let mut i: usize = 0;
        while i < self.members.len()
            invariant
                i <= self.members@.len(),
                forall|j: int| 0 <= j < i ==> (#[trigger] self.members@[j]).padding is None,
            decreases self.members@.len() - i,
        {
            if self.members[i].padding.is_some() {
                return true;
            }
            i = i + 1;
        }
        false
    }

    /// The struct's name as the generated code uses it.
    pub fn struct_name_fragment(&self) -> (r: StructName)
        ensures
            r.ident@ == self.name@,
            r.count_param == self.spec_uses_generics_for_rts(),
    {
        StructName { ident: self.name_ident(), count_param: self.uses_generics_for_rts() }
    }

    /// The name of the alternate `Init` struct.
    pub fn init_struct_name_fragment(&self) -> (r: StructName)
        ensures
            r.ident@ == self.name@ + "Init"@,
            r.count_param == self.spec_uses_generics_for_rts(),
    {
        StructName { ident: concat_str(self.name.as_str(), "Init"), count_param: self.uses_generics_for_rts() }
    }

    /// The field definitions: each member's field, then its padding.
    pub fn build_fields(&self) -> (r: Vec<FieldDefinition>)
        ensures
            fields_view(r@) == self.spec_fields(),
    {
        let documented = self.is_directly_shareable();
        let runtime_attr = self.serialization_strategy.is_encase();
        let mut out: Vec<FieldDefinition> = Vec::new();
        let mut i: usize = 0;
        while i < self.members.len()
            invariant
                i <= self.members@.len(),
                documented == self.spec_is_directly_shareable(),
                runtime_attr == (self.serialization_strategy == WgslTypeSerializeStrategy::Encase),
                fields_view(out@) == struct_fields(self.members@.take(i as int), documented, runtime_attr),
            decreases self.members@.len() - i,
        {
            proof {
                lemma_struct_fields_take(self.members@, documented, runtime_attr, i as int);
            }
            field_definitions_into(&self.members[i], documented, runtime_attr, &mut out);
            i = i + 1;
        }
        assert(self.members@.take(self.members@.len() as int) =~= self.members@);
        out
    }

    /// The traits the struct derives.
    pub fn build_derives(&self) -> (r: Vec<Derive>)
        ensures
            r@ == self.spec_derives(),
    {
        let mut derives: Vec<Derive> = Vec::new();
        derives.push(Derive::Debug);
        derives.push(Derive::PartialEq);
        derives.push(Derive::Clone);
        match self.serialization_strategy {
            WgslTypeSerializeStrategy::Bytemuck => {
                derives.push(Derive::Copy);
            },
            WgslTypeSerializeStrategy::Encase => {
                if !self.has_rts_array {
                    derives.push(Derive::Copy);
                }
                derives.push(Derive::ShaderType);
            },
        }
        if self.derive_serde {
            derives.push(Derive::Serialize);
            derives.push(Derive::Deserialize);
        }
        assert(derives@ =~= self.spec_derives());
        derives
    }

    /// The layout representation: none with a trailing array sized at run
    /// time, C layout aligned as on the device when the struct is host
    /// shareable and copied as raw bytes, else plain C layout.
    pub fn build_repr(&self) -> (r: ReprPolicy)
        ensures
            r == self.spec_repr(),
    {
        if self.has_rts_array {
            ReprPolicy::Unspecified
        } else if self.is_host_sharable && self.serialization_strategy.is_bytemuck() {
            ReprPolicy::CAligned(self.layout.alignment)
        } else {
            ReprPolicy::C
        }
    }

    /// The constructor: a parameter per member, and each field of the new
    /// instance filled from the parameter of its name, or with zeros for
    /// padding.
    pub fn build_fn_new(&self) -> (r: FnNew)
        ensures
            self.fn_new_matches(r),
    {
        FnNew { params: build_params(&self.members), fields: build_inits(&self.members) }
    }

    /// The alternate `Init` struct, for a directly shareable struct with
    /// padding: the same members, and a conversion into this struct that
    /// copies each member and zeroes each padding.
    pub fn build_init_struct(&self) -> (r: Option<InitStruct>)
        ensures
            self.init_struct_matches(r),
    {
        if !self.is_directly_shareable() || !self.uses_padding() {
            return None;
        }
        Some(
            InitStruct {
                name: self.init_struct_name_fragment(),
                fields: build_params(&self.members),
                conversion: build_inits(&self.members),
            },
        )
    }

    /// For a directly shareable struct, a check of each member's offset and
    /// of the total size.
    pub fn build_assert_layout(&self) -> (r: Option<LayoutAssertions>)
        ensures
            self.assert_layout_matches(r),
    {
        if !self.is_directly_shareable() {
            return None;
        }
        let mut member_offsets: Vec<MemberOffset> = Vec::new();
        let mut i: usize = 0;
        while i < self.members.len()
            invariant
                i <= self.members@.len(),
                member_offsets@.len() == i,
                forall|k: int| 0 <= k < i ==>
                    (#[trigger] member_offsets@[k]).name@ == self.members@[k].name_ident@
                    && member_offsets@[k].offset == self.members@[k].offset,
            decreases self.members@.len() - i,
        {
            let e = &self.members[i];
            member_offsets.push(MemberOffset { name: e.name_ident.clone(), offset: e.offset });
            i = i + 1;
        }
        Some(
            LayoutAssertions {
                count_instance: self.uses_generics_for_rts(),
                member_offsets,
                size: self.layout.size,
            },
        )
    }

    /// Whether the name starts with a lower-case letter.
    pub fn starts_lowercase(&self) -> (r: bool)
        ensures
            r == (self.name@.len() > 0 && is_lowercase_char(self.name@[0])),
    {
        let s = self.name.as_str();
        if s.unicode_len() == 0 {
            false
        } else {
            char_is_lowercase(s.get_char(0))
        }
    }

    /// The whole description of the host struct.
    pub fn build(&self) -> (r: StructDescription)
        ensures
            r.name.ident@ == self.name@,
            r.name.count_param == self.spec_uses_generics_for_rts(),
            r.allow_non_camel_case == (self.name@.len() > 0 && is_lowercase_char(self.name@[0])),
            r.repr == self.spec_repr(),
            r.derives@ == self.spec_derives(),
            fields_view(r.fields@) == self.spec_fields(),
            self.fn_new_matches(r.fn_new),
            r.implements_pod == self.spec_is_directly_shareable(),
            self.assert_layout_matches(r.assert_layout),
            self.init_struct_matches(r.init_struct),
    {
        StructDescription {
            name: self.struct_name_fragment(),
            allow_non_camel_case: self.starts_lowercase(),
            repr: self.build_repr(),
            derives: self.build_derives(),
            fields: self.build_fields(),
            fn_new: self.build_fn_new(),
            implements_pod: self.is_directly_shareable(),
            assert_layout: self.build_assert_layout(),
            init_struct: self.build_init_struct(),
        }
    }

    /// The builder of a shader struct's host mirror: its member entries
    /// derived under `options`, or the fault of the first member that cannot
    /// be mirrored, or a missing name.
    pub fn from_naga(
        name: Option<String>,
        members: &Vec<ShaderStructMember>,
        options: &WgslBindgenOption,
        layout: TypeLayout,
        is_directly_sharable: bool,
        is_host_sharable: bool,
        has_rts_array: bool,
    ) -> (r: Result<RustStructBuilder, StructBuildError>)
        requires
            options.wf(),
            members_wf(members@, layout.size),
        ensures
            r is Ok <==> no_fault(options.type_map, members@) && name is Some,
            r matches Err(e) ==> if no_fault(options.type_map, members@) {
                e == StructBuildError::MissingStructName
            } else {
                exists|i: int|
                    0 <= i < members@.len() && member_fault(options.type_map, members@, i) == Some(e)
                        && forall|j: int| 0 <= j < i ==> (#[trigger] member_fault(options.type_map, members@, j)) is None
            },
            r matches Ok(b) ==> {
                &&& name matches Some(n) && b.name@ == n@
                &&& b.members@.len() == members@.len()
                &&& forall|i: int| 0 <= i < members@.len() ==> entry_of(
                    options.type_map,
                    members@,
                    layout.size,
                    is_directly_sharable,
                    i,
                    #[trigger] b.members@[i],
                )
                &&& b.is_host_sharable == is_host_sharable
                &&& b.has_rts_array == has_rts_array
                &&& b.layout == layout
                &&& b.serialization_strategy == options.serialization_strategy
                &&& b.derive_serde == options.derive_serde
            },
    {
        let entries = match RustStructMemberEntry::from_naga(members, options, layout.size, is_directly_sharable) {
            Ok(v) => v,
            Err(e) => {
                return Err(e);
            },
        };
        let name = match name {
            Some(n) => n,
            None => {
                return Err(StructBuildError::MissingStructName);
            },
        };
        Ok(
            RustStructBuilder {
                name,
                members: entries,
                is_host_sharable,
                has_rts_array,
                layout,
                serialization_strategy: options.serialization_strategy,
                derive_serde: options.derive_serde,
            },
        )
    }
}

} // verus!
