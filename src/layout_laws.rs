use vstd::prelude::*;

use crate::rust_struct_builder::{
    entry_fields, entry_inits, entry_of, member_fault, members_wf, natural_size, no_fault, params_view, span,
    struct_fields, struct_inits, FieldInitView, FnNew, InitStruct, RustStructBuilder, RustStructMemberEntry,
    ShaderStructMember,
};
use crate::wgsl_type::WgslTypeMap;

verus! {

/// The size of an entry's member field after alignment.
pub open spec fn member_bytes(e: RustStructMemberEntry) -> int {
    match e.rust_type.spec_size_after_alignment() {
        Some(n) => n as int,
        None => 0,
    }
}

/// The size of an entry's padding field: its span less the member's size.
pub open spec fn padding_bytes(e: RustStructMemberEntry) -> int {
    match e.padding {
        Some(p) => p.pad_size - member_bytes(e),
        None => 0,
    }
}

/// The bytes taken by the fields of the first `i` entries.
pub open spec fn fields_extent(es: Seq<RustStructMemberEntry>, i: int) -> int
    decreases i,
{
    if i <= 0 {
        0
    } else {
        fields_extent(es, i - 1) + member_bytes(es[i - 1]) + padding_bytes(es[i - 1])
    }
}

/// In a directly shareable struct with no unbounded member whose first
/// member is at offset zero, each member's field starts, after the fields
/// before it, at the member's device offset, and all the fields together,
/// padding included, take the struct's whole size.
pub proof fn lemma_fields_fill_layout(
    map: WgslTypeMap,
    members: Seq<ShaderStructMember>,
    layout_size: u32,
    entries: Seq<RustStructMemberEntry>,
)
    requires
        members_wf(members, layout_size),
        members.len() > 0,
        members[0].offset == 0,
        forall|i: int| 0 <= i < members.len() ==> natural_size(map, #[trigger] members[i].ty) is Some,
        entries.len() == members.len(),
        forall|i: int| 0 <= i < members.len() ==> entry_of(map, members, layout_size, true, i, #[trigger] entries[i]),
    ensures
        forall|i: int| 0 <= i < members.len() ==> #[trigger] fields_extent(entries, i) == members[i].offset,
        fields_extent(entries, members.len() as int) == layout_size,
{
    assert forall|i: int| 0 <= i <= members.len() implies fields_extent(entries, i) == if i < members.len() {
        members[i].offset as int
    } else {
        layout_size as int
    } by {
        lemma_extent_step(map, members, layout_size, entries, i);
    }
    assert forall|i: int| 0 <= i < members.len() implies #[trigger] fields_extent(entries, i) == members[i].offset by {
        lemma_extent_step(map, members, layout_size, entries, i);
    }
}

proof fn lemma_extent_step(
    map: WgslTypeMap,
    members: Seq<ShaderStructMember>,
    layout_size: u32,
    entries: Seq<RustStructMemberEntry>,
    i: int,
)
    requires
        members_wf(members, layout_size),
        members.len() > 0,
        members[0].offset == 0,
        forall|i: int| 0 <= i < members.len() ==> natural_size(map, #[trigger] members[i].ty) is Some,
        entries.len() == members.len(),
        forall|i: int| 0 <= i < members.len() ==> entry_of(map, members, layout_size, true, i, #[trigger] entries[i]),
        0 <= i <= members.len(),
    ensures
        fields_extent(entries, i) == if i < members.len() {
            members[i].offset as int
        } else {
            layout_size as int
        },
    decreases i,
{
    if i > 0 {
        lemma_extent_step(map, members, layout_size, entries, i - 1);
        let k = i - 1;
        assert(entry_of(map, members, layout_size, true, k, entries[k]));
        assert(natural_size(map, members[k].ty) is Some);
        assert(member_bytes(entries[k]) + padding_bytes(entries[k]) == span(members, layout_size, k));
    }
}

/// A member gets padding exactly when its struct is directly shareable, it
/// is sized, and its host type's size after alignment differs from the gap
/// to the next member or the struct's end. The padding then takes the gap
/// less that size, which is positive where the host type fits the gap.
pub proof fn lemma_padding_exact(
    map: WgslTypeMap,
    members: Seq<ShaderStructMember>,
    layout_size: u32,
    is_directly_sharable: bool,
    i: int,
    e: RustStructMemberEntry,
)
    requires
        members_wf(members, layout_size),
        0 <= i < members.len(),
        entry_of(map, members, layout_size, is_directly_sharable, i, e),
    ensures
        e.padding is Some <==> is_directly_sharable && (natural_size(map, members[i].ty) matches Some(n) && n
            != span(members, layout_size, i)),
        e.padding is Some ==> padding_bytes(e) == span(members, layout_size, i) - member_bytes(e),
        e.padding is Some && member_bytes(e) <= span(members, layout_size, i) ==> padding_bytes(e) > 0,
{
}

/// A member sized at run time anywhere but last stops the struct: no entry
/// list is derived for it.
pub proof fn lemma_unbounded_member_not_last(map: WgslTypeMap, members: Seq<ShaderStructMember>, i: int)
    requires
        0 <= i < members.len() - 1,
        natural_size(map, members[i].ty) is None,
    ensures
        !no_fault(map, members),
        member_fault(map, members, i) is Some,
{
    assert(member_fault(map, members, i) is Some);
}

} // verus!

verus! {

/// The field values of an instance filled by `inits`, in field order: each
/// copied field takes the next of `args`, each zeroed field takes `zero`.
pub open spec fn construct<V>(inits: Seq<FieldInitView>, args: Seq<V>, zero: V) -> Seq<V>
    decreases inits.len(),
{
    if inits.len() == 0 {
        Seq::empty()
    } else {
        match inits.last() {
            FieldInitView::Copy(_) => construct(inits.drop_last(), args.drop_last(), zero).push(args.last()),
            FieldInitView::Zero(_) => construct(inits.drop_last(), args, zero).push(zero),
        }
    }
}

/// Where entry `i`'s member field stands among the struct's fields.
pub open spec fn field_position(es: Seq<RustStructMemberEntry>, i: int) -> int {
    struct_inits(es.take(i)).len() as int
}

proof fn lemma_construct_entries<V>(es: Seq<RustStructMemberEntry>, args: Seq<V>, zero: V)
    requires
        args.len() == es.len(),
    ensures
        construct(struct_inits(es), args, zero).len() == struct_inits(es).len(),
        forall|i: int| 0 <= i < es.len() ==> #[trigger] field_position(es, i) < struct_inits(es).len() && construct(
            struct_inits(es),
            args,
            zero,
        )[field_position(es, i)] == args[i] && struct_inits(es)[field_position(es, i)]
            == FieldInitView::Copy(es[i].name_ident@),
        forall|k: int|
            0 <= k < struct_inits(es).len() && struct_inits(es)[k] is Zero ==> #[trigger] construct(
                struct_inits(es),
                args,
                zero,
            )[k] == zero,
    decreases es.len(),
{
    if es.len() > 0 {
        let n = es.len() - 1;
        let prev = es.drop_last();
        let pargs = args.drop_last();
        lemma_construct_entries(prev, pargs, zero);
        let s = struct_inits(prev);
        let e = es.last();
        assert(struct_inits(es) == s + entry_inits(e));
        let sc = s.push(FieldInitView::Copy(e.name_ident@));
        assert(sc.drop_last() =~= s);
        let cs = construct(s, pargs, zero);
        assert(construct(sc, args, zero) == cs.push(args.last()));
        match e.padding {
            Some(p) => {
                let full = sc.push(FieldInitView::Zero(p.pad_name@));
                assert(full.drop_last() =~= sc);
                assert(struct_inits(es) =~= full);
                assert(construct(struct_inits(es), args, zero) == cs.push(args.last()).push(zero));
            },
            None => {
                assert(struct_inits(es) =~= sc);
            },
        }
        let c = construct(struct_inits(es), args, zero);
        assert forall|i: int| 0 <= i < es.len() implies #[trigger] field_position(es, i) < struct_inits(es).len() && c[field_position(es, i)] == args[i]
            && struct_inits(es)[field_position(es, i)] == FieldInitView::Copy(es[i].name_ident@) by {
            if i < n {
                assert(es.take(i) =~= prev.take(i));
                assert(field_position(es, i) == field_position(prev, i));
                assert(c[field_position(es, i)] == cs[field_position(prev, i)]);
                assert(construct(struct_inits(prev), pargs, zero)[field_position(prev, i)] == pargs[i]);
                assert(struct_inits(prev)[field_position(prev, i)] == FieldInitView::Copy(prev[i].name_ident@));
            } else {
                assert(es.take(i) =~= prev);
            }
        }
        assert forall|k: int|
            0 <= k < struct_inits(es).len() && struct_inits(es)[k] is Zero implies #[trigger] c[k] == zero by {
            if k < s.len() {
                assert(struct_inits(es)[k] == s[k]);
            }
        }
    }
}

proof fn lemma_fields_follow_inits(es: Seq<RustStructMemberEntry>, documented: bool, runtime_attr: bool)
    ensures
        struct_fields(es, documented, runtime_attr).len() == struct_inits(es).len(),
        forall|k: int|
            0 <= k < struct_inits(es).len() ==> (#[trigger] struct_fields(es, documented, runtime_attr)[k].ty is Padding
                <==> struct_inits(es)[k] is Zero),
        forall|k: int|
            0 <= k < struct_inits(es).len() ==> #[trigger] struct_fields(es, documented, runtime_attr)[k].name == match struct_inits(es)[k] {
                FieldInitView::Copy(n) => n,
                FieldInitView::Zero(n) => n,
            },
    decreases es.len(),
{
    if es.len() > 0 {
        lemma_fields_follow_inits(es.drop_last(), documented, runtime_attr);
        let e = es.last();
        assert(struct_inits(es) == struct_inits(es.drop_last()) + entry_inits(e));
        assert(struct_fields(es, documented, runtime_attr) == struct_fields(es.drop_last(), documented, runtime_attr)
            + entry_fields(e, documented, runtime_attr));
    }
}

/// The constructor, called with one value per member, gives an instance
/// whose member fields read back those values in order and whose padding
/// fields are all zero.
pub proof fn lemma_constructor_round_trip<V>(b: RustStructBuilder, f: FnNew, args: Seq<V>, zero: V)
    requires
        b.fn_new_matches(f),
        args.len() == params_view(f.params@).len(),
    ensures
        construct(inits_view_of(f), args, zero).len() == b.spec_fields().len(),
        forall|i: int| 0 <= i < args.len() ==> {
            &&& 0 <= #[trigger] field_position(b.members@, i) < b.spec_fields().len()
            &&& b.spec_fields()[field_position(b.members@, i)].name == params_view(f.params@)[i].0
            &&& b.spec_fields()[field_position(b.members@, i)].ty is Member
            &&& construct(inits_view_of(f), args, zero)[field_position(b.members@, i)] == args[i]
        },
        forall|k: int|
            0 <= k < b.spec_fields().len() && (#[trigger] b.spec_fields()[k]).ty is Padding ==> construct(
                inits_view_of(f),
                args,
                zero,
            )[k] == zero,
{
    let es = b.members@;
    lemma_construct_entries(es, args, zero);
    lemma_fields_follow_inits(
        es,
        b.spec_is_directly_shareable(),
        b.serialization_strategy == crate::options::WgslTypeSerializeStrategy::Encase,
    );
    assert forall|i: int| 0 <= i < args.len() implies {
        &&& 0 <= #[trigger] field_position(b.members@, i) < b.spec_fields().len()
        &&& b.spec_fields()[field_position(b.members@, i)].name == params_view(f.params@)[i].0
        &&& b.spec_fields()[field_position(b.members@, i)].ty is Member
        &&& construct(inits_view_of(f), args, zero)[field_position(b.members@, i)] == args[i]
    } by {
        let k = field_position(b.members@, i);
        assert(struct_inits(es)[k] == FieldInitView::Copy(es[i].name_ident@));
        assert(params_view(f.params@)[i] == crate::rust_struct_builder::entry_param(es[i]));
        assert(b.spec_fields()[k].ty is Padding <==> struct_inits(es)[k] is Zero);
    }
}

pub open spec fn inits_view_of(f: FnNew) -> Seq<FieldInitView> {
    crate::rust_struct_builder::inits_view(f.fields@)
}

/// Converting an alternate `Init` instance gives the same primary instance
/// as the constructor called with the same member values: the `Init` form
/// has the constructor's parameters as fields, and fills the primary struct
/// the same way.
pub proof fn lemma_init_conversion_matches_constructor<V>(
    b: RustStructBuilder,
    f: FnNew,
    init: InitStruct,
    args: Seq<V>,
    zero: V,
)
    requires
        b.fn_new_matches(f),
        b.init_struct_matches(Some(init)),
    ensures
        params_view(init.fields@) == params_view(f.params@),
        construct(crate::rust_struct_builder::inits_view(init.conversion@), args, zero) == construct(
            inits_view_of(f),
            args,
            zero,
        ),
{
    assert(params_view(init.fields@) =~= params_view(f.params@));
}

} // verus!
