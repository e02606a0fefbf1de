use vstd::prelude::*;

verus! {

use crate::code::Backend;
use crate::decode::{
    dec_entity, dec_enum_code, dec_enum_name, dec_field, dec_fields, lemma_slot_lookup_step,
    slot_lookup, variant_by_name, variant_by_wire_name,
};
use crate::encode::{default_slot, enc_entity, enc_field, enc_fields};
use crate::errors::MapErrorView;
use crate::nested_type::canon;
use crate::proto_enum::{proto_variant_name_spec, EnumView};
use crate::proto_map::ProtoMapView;
use crate::proto_struct::{StructFieldView, StructView};
use crate::ty::Ty;
use crate::type_scanner::scan_spec;
use crate::value::{
    default_of, find_spec, is_float_kind, lemma_values_height, node_height, value_height,
    values_height, EntityDataView, EntityNodeView, ValueView, WireFieldView, WireSlotView,
    WireValueView,
};

/// Whether the named entity is registered as a plain enumeration.
pub open spec fn is_enum_entity(reg: Seq<ProtoMapView>, name: Seq<char>) -> bool {
    find_spec(reg, name) matches Some(ProtoMapView::Enum(en)) && en.attrs.is_enumeration()
}

/// Whether a field carries the enumeration marker.
pub open spec fn enum_marked(f: StructFieldView) -> bool {
    f.attrs matches Some(a) && a.enumeration
}

/// What the evaluated round trip relies on of one field: no override pair
/// (user-supplied conversions are not evaluated here), the scalar marker only
/// on scalar descriptors, the enumeration marker only on registered
/// enumeration targets, no float kinds, and composite targets registered.
pub open spec fn field_wf(reg: Seq<ProtoMapView>, f: StructFieldView) -> bool {
    &&& match f.attrs {
        Some(a) => {
            &&& a.with is None
            &&& (a.scalar ==> f.ty.is_scalar_spec())
            &&& (a.enumeration ==> (f.ty matches Ty::Other { .. } && is_enum_entity(
                reg,
                f.type_spelling,
            )))
        },
        None => true,
    }
    &&& match f.ty {
        Ty::Scalar { ty, .. } => !is_float_kind(ty),
        Ty::Other { .. } => find_spec(reg, f.type_spelling) is Some,
    }
}

/// What the evaluated round trip relies on of one record entity: every field
/// well-formed, and the fields' wire names pairwise distinct.
pub open spec fn struct_wf(reg: Seq<ProtoMapView>, s: StructView) -> bool {
    &&& forall|i: int| 0 <= i < s.fields.len() ==> field_wf(reg, #[trigger] s.fields[i])
    &&& forall|i: int, j: int|
        0 <= i < j < s.fields.len() ==> (#[trigger] s.fields[i].wire_name())
            != (#[trigger] s.fields[j].wire_name())
}

/// What the evaluated round trip relies on of one sum-type entity: a
/// recognized renaming convention, a variant count within the numeric code
/// range, pairwise distinct wire-side names for an enumeration, and — for a
/// oneof — the tag field, every payload, and pairwise distinct variant names.
pub open spec fn enum_wf(en: EnumView) -> bool {
    &&& en.rename_ok()
    &&& en.variants.len() <= 0x7fff_ffff
    &&& if en.attrs.is_enumeration() {
        forall|i: int, j: int|
            0 <= i < j < en.variants.len() ==> proto_variant_name_spec(
                en.attrs,
                #[trigger] en.variants[i].name,
            ) != proto_variant_name_spec(en.attrs, #[trigger] en.variants[j].name)
    } else {
        &&& en.attrs.one_of is Some
        &&& forall|i: int|
            0 <= i < en.variants.len() ==> (#[trigger] en.variants[i].field_name) is Some
        &&& forall|i: int, j: int|
            0 <= i < j < en.variants.len() ==> (#[trigger] en.variants[i].name)
                != (#[trigger] en.variants[j].name)
    }
}

/// What one registered entity's round trip relies on.
pub open spec fn entity_wf(reg: Seq<ProtoMapView>, m: ProtoMapView) -> bool {
    match m {
        ProtoMapView::Struct(s) => struct_wf(reg, s),
        ProtoMapView::Enum(en) => enum_wf(en),
    }
}

/// Whether a whole registry is fit for the evaluated round trip, under either
/// backend convention.
pub open spec fn reg_wf(reg: Seq<ProtoMapView>) -> bool {
    forall|k: int| 0 <= k < reg.len() ==> entity_wf(reg, #[trigger] reg[k])
}

/// Whether one entity value conforms to its registered entity, without
/// ambiguous defaults: record fields conform index-wise; an enumeration
/// choice is within the table; a oneof payload carries exactly its variant's
/// payload entity.
pub open spec fn entity_ok(reg: Seq<ProtoMapView>, e: EntityNodeView, b: Backend) -> bool
    decreases node_height(e), 2int, 0int,
{
    match find_spec(reg, e.entity) {
        Some(ProtoMapView::Struct(s)) => match e.data {
            EntityDataView::Record(vals) => vals.len() == s.fields.len() && fields_ok(
                reg,
                s.fields,
                vals,
                b,
            ),
            _ => false,
        },
        Some(ProtoMapView::Enum(en)) => if en.attrs.is_enumeration() {
            e.data matches EntityDataView::Choice(i) && 0 <= i < en.variants.len()
        } else {
            match e.data {
                EntityDataView::Tag(i, p) => 0 <= i < en.variants.len() && match en.variants[i].field_name {
                    Some(path) => (*p).entity == canon(scan_spec(path)) && entity_ok(reg, *p, b),
                    None => false,
                },
                _ => false,
            }
        },
        None => false,
    }
}

pub open spec fn fields_ok(
    reg: Seq<ProtoMapView>,
    fs: Seq<StructFieldView>,
    vals: Seq<ValueView>,
    b: Backend,
) -> bool
    decreases values_height(vals), 1int, fs.len(),
{
    if fs.len() == 0 || vals.len() != fs.len() {
        fs.len() == 0 && vals.len() == 0
    } else {
        fields_ok(reg, fs.drop_last(), vals.drop_last(), b) && value_ok(
            reg,
            fs.last(),
            vals.last(),
            b,
        )
    }
}

/// Whether one field value conforms to its field, without ambiguous defaults:
/// a skipped field holds its default (anything else is lost), a present
/// optional scalar is non-default, and — under the field convention, where an
/// enumeration member is a plain code with no presence of its own — a present
/// optional enumeration value is not the zero-coded variant (either would
/// decode to absent, the documented lossy collapse; the accessor convention
/// carries presence in the wire accessor and loses nothing).
pub open spec fn value_ok(reg: Seq<ProtoMapView>, f: StructFieldView, v: ValueView, b: Backend) -> bool
    decreases value_height(v), 1int, 0int,
{
    if f.skipped() {
        crate::decode::default_field_value(reg, f, crate::decode::default_fuel(reg)) == Some(v)
    } else {
        match f.ty {
        Ty::Scalar { ty: kind, optional: false } => v matches ValueView::Scalar(sv) && sv.kind()
            == kind,
        Ty::Scalar { ty: kind, optional: true } => match v {
            ValueView::OptScalar(o) => match o {
                Some(sv) => sv.kind() == kind && sv.has_value(),
                None => true,
            },
            _ => false,
        },
        Ty::Other { optional: false } => match v {
            ValueView::Entity(n) => n.entity == f.type_spelling && entity_ok(reg, n, b),
            _ => false,
        },
        Ty::Other { optional: true } => match v {
            ValueView::OptEntity(o) => match o {
                Some(n) => n.entity == f.type_spelling && entity_ok(reg, n, b) && ((enum_marked(f)
                    && b == Backend::Prost) ==> (n.data matches EntityDataView::Choice(ci) && ci
                    != 0)),
                None => true,
            },
            _ => false,
        },
        }
    }
}

proof fn lemma_find_is_element(reg: Seq<ProtoMapView>, name: Seq<char>)
    requires
        find_spec(reg, name) is Some,
    ensures
        exists|k: int| 0 <= k < reg.len() && reg[k] == find_spec(reg, name)->0,
    decreases reg.len(),
{
    if reg.len() > 0 && reg[0].name() != name {
        lemma_find_is_element(reg.skip(1), name);
        let k0 = choose|k: int|
            0 <= k < reg.skip(1).len() && reg.skip(1)[k] == find_spec(reg.skip(1), name)->0;
        assert(reg[k0 + 1] == reg.skip(1)[k0]);
    }
}

/// A found entity of a fit registry is itself fit.
pub proof fn lemma_find_wf(reg: Seq<ProtoMapView>, name: Seq<char>)
    requires
        reg_wf(reg),
        find_spec(reg, name) is Some,
    ensures
        entity_wf(reg, find_spec(reg, name)->0),
{
    lemma_find_is_element(reg, name);
}

/// A non-float kind's default value reads as absent.
proof fn lemma_default_no_value(k: crate::ty::ScalarType)
    requires
        !is_float_kind(k),
    ensures
        !default_of(k).has_value(),
{
}

proof fn lemma_by_wire_name_found(en: EnumView, i: int, k: int)
    requires
        0 <= k <= i < en.variants.len(),
        forall|j: int, l: int|
            0 <= j < l < en.variants.len() ==> proto_variant_name_spec(
                en.attrs,
                #[trigger] en.variants[j].name,
            ) != proto_variant_name_spec(en.attrs, #[trigger] en.variants[l].name),
    ensures
        variant_by_wire_name(en, proto_variant_name_spec(en.attrs, en.variants[i].name), k)
            == Some(i),
    decreases en.variants.len() - k,
{
    if k < i {
        lemma_by_wire_name_found(en, i, k + 1);
    }
}

proof fn lemma_by_name_found(en: EnumView, i: int, k: int)
    requires
        0 <= k <= i < en.variants.len(),
        forall|j: int, l: int|
            0 <= j < l < en.variants.len() ==> (#[trigger] en.variants[j].name)
                != (#[trigger] en.variants[l].name),
    ensures
        variant_by_name(en, en.variants[i].name, k) == Some(i),
    decreases en.variants.len() - k,
{
    if k < i {
        lemma_by_name_found(en, i, k + 1);
    }
}

proof fn lemma_enc_fields_index(
    reg: Seq<ProtoMapView>,
    fs: Seq<StructFieldView>,
    vals: Seq<ValueView>,
    b: Backend,
)
    requires
        vals.len() == fs.len(),
    ensures
        enc_fields(reg, fs, vals, b).len() == fs.len(),
        forall|i: int|
            0 <= i < fs.len() ==> enc_fields(reg, fs, vals, b)[i] == (WireFieldView {
                name: (#[trigger] fs[i]).wire_name(),
                slot: enc_field(reg, fs[i], vals[i], b),
            }),
    decreases fs.len(),
{
    if fs.len() > 0 {
        lemma_enc_fields_index(reg, fs.drop_last(), vals.drop_last(), b);
        assert forall|i: int| 0 <= i < fs.len() implies enc_fields(reg, fs, vals, b)[i]
            == (WireFieldView {
            name: (#[trigger] fs[i]).wire_name(),
            slot: enc_field(reg, fs[i], vals[i], b),
        }) by {
            if i < fs.len() - 1 {
                assert(fs.drop_last()[i] == fs[i]);
                assert(vals.drop_last()[i] == vals[i]);
            }
        }
    }
}

proof fn lemma_fields_ok_index(
    reg: Seq<ProtoMapView>,
    fs: Seq<StructFieldView>,
    vals: Seq<ValueView>,
    b: Backend,
    i: int,
)
    requires
        fields_ok(reg, fs, vals, b),
        vals.len() == fs.len(),
        0 <= i < fs.len(),
    ensures
        value_ok(reg, fs[i], vals[i], b),
    decreases fs.len(),
{
    if i < fs.len() - 1 {
        lemma_fields_ok_index(reg, fs.drop_last(), vals.drop_last(), b, i);
    }
}

/// Looking one field's wire name up in the encoded message finds exactly that
/// field's slot, the wire names being pairwise distinct.
proof fn lemma_lookup_enc(
    reg: Seq<ProtoMapView>,
    fs: Seq<StructFieldView>,
    vals: Seq<ValueView>,
    b: Backend,
    i: int,
)
    requires
        vals.len() == fs.len(),
        0 <= i < fs.len(),
        forall|j: int, l: int|
            0 <= j < l < fs.len() ==> (#[trigger] fs[j].wire_name()) != (#[trigger] fs[l].wire_name()),
    ensures
        slot_lookup(enc_fields(reg, fs, vals, b), fs[i].wire_name()) == Some(
            enc_field(reg, fs[i], vals[i], b),
        ),
{
    lemma_enc_fields_index(reg, fs, vals, b);
    let wires = enc_fields(reg, fs, vals, b);
    assert forall|j: int| 0 <= j < i implies wires[j].name != fs[i].wire_name() by {
        assert(wires[j].name == fs[j].wire_name());
        assert(fs[j].wire_name() != fs[i].wire_name());
    }
    lemma_slot_lookup_step(wires, fs[i].wire_name(), i);
}

/// The round-trip law for one conforming field value: reading the slot the
/// writing direction produced yields the value back.
proof fn lemma_field_round_trip(
    reg: Seq<ProtoMapView>,
    f: StructFieldView,
    v: ValueView,
    b: Backend,
)
    requires
        reg_wf(reg),
        field_wf(reg, f),
        value_ok(reg, f, v, b),
    ensures
        dec_field(reg, f, Some(enc_field(reg, f, v, b)), b) == Ok::<ValueView, MapErrorView>(v),
    decreases value_height(v), 1int, 0int,
{
    let sl = enc_field(reg, f, v, b);
    if f.skipped() {
        return ;
    }
    match f.ty {
        Ty::Scalar { ty: kind, optional } => {
            if !optional {
                assert(sl == WireSlotView::Scalar(v->Scalar_0));
            } else {
                match v->OptScalar_0 {
                    Some(sv) => {
                        assert(sl == WireSlotView::Scalar(sv));
                    },
                    None => {
                        assert(sl == default_slot(reg, f, b));
                        lemma_default_no_value(kind);
                    },
                }
            }
        },
        Ty::Other { optional } => {
            let target = find_spec(reg, f.type_spelling);
            lemma_find_wf(reg, f.type_spelling);
            let n_opt: Option<EntityNodeView> = if optional {
                v->OptEntity_0
            } else {
                Some(v->Entity_0)
            };
            match n_opt {
                Some(n) => {
                    assert(n.entity == f.type_spelling);
                    assert(entity_ok(reg, n, b));
                    assert(value_height(v) == 1 + node_height(n));
                    match target->0 {
                        ProtoMapView::Enum(en) => {
                            if en.attrs.is_enumeration() {
                                let i = n.data->Choice_0;
                                assert(0 <= i < en.variants.len());
                                assert(i <= 0x7fff_ffff);
                                if b == Backend::Protobuf {
                                    assert(enc_entity(reg, n, b)
                                        == (WireValueView::Enumeration {
                                        name: proto_variant_name_spec(
                                            en.attrs,
                                            en.variants[i].name,
                                        ),
                                        code: i as i32,
                                    }));
                                    lemma_by_wire_name_found(en, i, 0);
                                    assert(dec_enum_name(
                                        reg,
                                        f.type_spelling,
                                        proto_variant_name_spec(en.attrs, en.variants[i].name),
                                    ) == Ok::<EntityNodeView, MapErrorView>(n));
                                } else {
                                    assert(enc_entity(reg, n, b) == WireValueView::Scalar(
                                        crate::value::ScalarValueView::I32(i as i32),
                                    ));
                                    assert(dec_enum_code(reg, f.type_spelling, i as i32) == Ok::<
                                        EntityNodeView,
                                        MapErrorView,
                                    >(n));
                                    if enum_marked(f) {
                                        if optional {
                                            assert(i != 0);
                                        }
                                    } else {
                                        // carried as a present composite member
                                        lemma_entity_round_trip(reg, n, b);
                                    }
                                }
                            } else {
                                lemma_entity_round_trip(reg, n, b);
                                assert(enc_entity(reg, n, b) matches WireValueView::OneOf { .. }
                                    || enc_entity(reg, n, b) matches WireValueView::Message(_));
                            }
                        },
                        ProtoMapView::Struct(_) => {
                            lemma_entity_round_trip(reg, n, b);
                            assert(enc_entity(reg, n, b) matches WireValueView::Message(_));
                        },
                    }
                },
                None => {
                    assert(sl == default_slot(reg, f, b));
                },
            }
        },
    }
}

/// The round-trip law for a prefix of a record's fields.
proof fn lemma_fields_round_trip(
    reg: Seq<ProtoMapView>,
    fs: Seq<StructFieldView>,
    vals: Seq<ValueView>,
    b: Backend,
    k: int,
)
    requires
        reg_wf(reg),
        vals.len() == fs.len(),
        fields_ok(reg, fs, vals, b),
        forall|i: int| 0 <= i < fs.len() ==> field_wf(reg, #[trigger] fs[i]),
        forall|j: int, l: int|
            0 <= j < l < fs.len() ==> (#[trigger] fs[j].wire_name()) != (#[trigger] fs[l].wire_name()),
        0 <= k <= fs.len(),
    ensures
        dec_fields(reg, fs.take(k), enc_fields(reg, fs, vals, b), b) == Ok::<
            Seq<ValueView>,
            MapErrorView,
        >(vals.take(k)),
    decreases values_height(vals), 2int, k,
{
    if k == 0 {
        assert(fs.take(0) =~= Seq::<StructFieldView>::empty());
        assert(vals.take(0) =~= Seq::<ValueView>::empty());
    } else {
        lemma_fields_round_trip(reg, fs, vals, b, k - 1);
        assert(fs.take(k).drop_last() =~= fs.take(k - 1));
        assert(fs.take(k).last() == fs[k - 1]);
        lemma_fields_ok_index(reg, fs, vals, b, k - 1);
        lemma_values_height(vals, k - 1);
        lemma_field_round_trip(reg, fs[k - 1], vals[k - 1], b);
        lemma_lookup_enc(reg, fs, vals, b, k - 1);
        assert(vals.take(k) =~= vals.take(k - 1).push(vals[k - 1]));
    }
}

/// The round-trip law: decoding what a conforming entity value encodes to
/// yields the value back, under either backend convention. Conformance rules
/// out present-but-default optional scalars, and — under the field convention
/// only — zero-coded optional enumeration values, both of which that
/// convention collapses to absent; skipped fields must hold their defaults,
/// since nothing else survives the skip; and override markers are excluded,
/// since user-supplied conversion pairs are not evaluated here.
pub proof fn lemma_entity_round_trip(reg: Seq<ProtoMapView>, e: EntityNodeView, b: Backend)
    requires
        reg_wf(reg),
        entity_ok(reg, e, b),
    ensures
        dec_entity(reg, e.entity, enc_entity(reg, e, b), b) == Ok::<EntityNodeView, MapErrorView>(
            e,
        ),
    decreases node_height(e), 3int, 0int,
{
    lemma_find_wf(reg, e.entity);
    match find_spec(reg, e.entity)->0 {
        ProtoMapView::Struct(s) => {
            let vals = e.data->Record_0;
            assert(node_height(e) == 1 + values_height(vals));
            lemma_fields_round_trip(reg, s.fields, vals, b, s.fields.len() as int);
            assert(s.fields.take(s.fields.len() as int) =~= s.fields);
            assert(vals.take(vals.len() as int) =~= vals);
        },
        ProtoMapView::Enum(en) => {
            if en.attrs.is_enumeration() {
                let i = e.data->Choice_0;
                if b == Backend::Protobuf {
                    lemma_by_wire_name_found(en, i, 0);
                }
            } else {
                let i = e.data->Tag_0;
                let p = e.data->Tag_1;
                assert(node_height(e) == 1 + node_height(*p));
                lemma_entity_round_trip(reg, *p, b);
                lemma_by_name_found(en, i, 0);
            }
        },
    }
}

/// Enumeration exhaustiveness, the encoding half: encoding any variant of a
/// registered enumeration and decoding the result yields the variant back,
/// under either convention. Beyond a recognized renaming convention and a
/// table within the numeric code range (a machine limit), only the accessor
/// convention, which matches by name, needs the renamed wire names pairwise
/// distinct — two variants renamed alike decode to the first of them, in the
/// generated match table as much as here.
pub proof fn lemma_enumeration_exhaustive(
    reg: Seq<ProtoMapView>,
    name: Seq<char>,
    i: int,
    b: Backend,
)
    requires
        is_enum_entity(reg, name),
        ({
            let en = find_spec(reg, name)->0->Enum_0;
            &&& 0 <= i < en.variants.len()
            &&& en.rename_ok()
            &&& en.variants.len() <= 0x7fff_ffff
            &&& (b == Backend::Protobuf ==> forall|j: int, l: int|
                0 <= j < l < en.variants.len() ==> proto_variant_name_spec(
                    en.attrs,
                    #[trigger] en.variants[j].name,
                ) != proto_variant_name_spec(en.attrs, #[trigger] en.variants[l].name))
        }),
    ensures
        ({
            let e = EntityNodeView { entity: name, data: EntityDataView::Choice(i) };
            dec_entity(reg, name, enc_entity(reg, e, b), b) == Ok::<EntityNodeView, MapErrorView>(
                e,
            )
        }),
{
    let en = find_spec(reg, name)->0->Enum_0;
    if b == Backend::Protobuf {
        lemma_by_wire_name_found(en, i, 0);
    }
}

/// Enumeration exhaustiveness, the decoding half: a wire value outside the
/// table comes back as the named conversion failure, never as a variant.
pub proof fn lemma_enumeration_unknown_code(
    reg: Seq<ProtoMapView>,
    name: Seq<char>,
    code: i32,
)
    requires
        is_enum_entity(reg, name),
        !(0 <= code < find_spec(reg, name)->0->Enum_0.variants.len()),
    ensures
        dec_enum_code(reg, name, code) == Err::<EntityNodeView, MapErrorView>(
            MapErrorView::UnknownEnumValue { entity: name },
        ),
{
}

proof fn lemma_by_wire_name_none(en: EnumView, wn: Seq<char>, k: int)
    requires
        0 <= k <= en.variants.len(),
        forall|j: int|
            0 <= j < en.variants.len() ==> proto_variant_name_spec(
                en.attrs,
                #[trigger] en.variants[j].name,
            ) != wn,
    ensures
        variant_by_wire_name(en, wn, k) is None,
    decreases en.variants.len() - k,
{
    if k < en.variants.len() {
        lemma_by_wire_name_none(en, wn, k + 1);
    }
}

/// Enumeration exhaustiveness for the accessor convention: a wire name that
/// no variant renames to decodes to the named conversion failure.
pub proof fn lemma_enumeration_unknown_name(reg: Seq<ProtoMapView>, name: Seq<char>, wn: Seq<char>)
    requires
        is_enum_entity(reg, name),
        forall|j: int|
            0 <= j < find_spec(reg, name)->0->Enum_0.variants.len() ==> proto_variant_name_spec(
                find_spec(reg, name)->0->Enum_0.attrs,
                #[trigger] find_spec(reg, name)->0->Enum_0.variants[j].name,
            ) != wn,
    ensures
        dec_enum_name(reg, name, wn) == Err::<EntityNodeView, MapErrorView>(
            MapErrorView::UnknownEnumValue { entity: name },
        ),
{
    lemma_by_wire_name_none(find_spec(reg, name)->0->Enum_0, wn, 0);
}

/// Oneof totality, the encoding half: encoding any conforming oneof value
/// sets exactly one wire tag — the tagged union's single tag is present and
/// names the encoded variant.
pub proof fn lemma_one_of_sets_tag(reg: Seq<ProtoMapView>, e: EntityNodeView, b: Backend)
    requires
        reg_wf(reg),
        find_spec(reg, e.entity) matches Some(ProtoMapView::Enum(en)) && !en.attrs.is_enumeration(),
        entity_ok(reg, e, b),
    ensures
        enc_entity(reg, e, b) matches WireValueView::OneOf { tag, .. } && tag matches Some(t)
            && t.variant == find_spec(reg, e.entity)->0->Enum_0.variants[e.data->Tag_0].name,
{
    lemma_find_wf(reg, e.entity);
}

/// Oneof totality, the decoding half: a tagged-union wire value with no tag
/// set decodes to the named conversion failure.
pub proof fn lemma_one_of_no_tag(
    reg: Seq<ProtoMapView>,
    name: Seq<char>,
    field: Seq<char>,
    b: Backend,
)
    requires
        find_spec(reg, name) matches Some(ProtoMapView::Enum(en)) && !en.attrs.is_enumeration(),
    ensures
        dec_entity(reg, name, WireValueView::OneOf { field, tag: None }, b) == Err::<
            EntityNodeView,
            MapErrorView,
        >(MapErrorView::NoOneOfValue { entity: name }),
{
}

} // verus!

verus! {

use crate::value::{wire_fields_height, wire_height, wire_slot_height, ScalarValueView};

/// Whether a wire value conforms to the named entity, in the canonical shape
/// the writing direction produces: a message with one slot per field under
/// the field's wire name; an enumeration value whose name and code agree with
/// the match table; a tagged union whose single tag is set to a known variant
/// with a conforming payload.
pub open spec fn entity_wire_ok(
    reg: Seq<ProtoMapView>,
    name: Seq<char>,
    w: WireValueView,
    b: Backend,
) -> bool
    decreases wire_height(w), 2int, 0int,
{
    match find_spec(reg, name) {
        Some(ProtoMapView::Struct(s)) => match w {
            WireValueView::Message(wires) => wires.len() == s.fields.len() && wire_fields_ok(
                reg,
                s.fields,
                wires,
                b,
            ),
            _ => false,
        },
        Some(ProtoMapView::Enum(en)) => if en.attrs.is_enumeration() {
            match b {
                Backend::Protobuf => match w {
                    WireValueView::Enumeration { name: wn, code } => 0 <= code
                        < en.variants.len() && wn == proto_variant_name_spec(
                        en.attrs,
                        en.variants[code as int].name,
                    ),
                    _ => false,
                },
                Backend::Prost => match w {
                    WireValueView::Scalar(ScalarValueView::I32(code)) => 0 <= code
                        < en.variants.len(),
                    _ => false,
                },
            }
        } else {
            match w {
                WireValueView::OneOf { field, tag } => {
                    &&& field == en.attrs.one_of->0
                    &&& match tag {
                        Some(t) => match variant_by_name(en, t.variant, 0) {
                            Some(i) => match en.variants[i].field_name {
                                Some(p) => entity_wire_ok(
                                    reg,
                                    canon(scan_spec(p)),
                                    *t.value,
                                    b,
                                ),
                                None => false,
                            },
                            None => false,
                        },
                        None => false,
                    }
                },
                _ => false,
            }
        },
        None => false,
    }
}

pub open spec fn wire_fields_ok(
    reg: Seq<ProtoMapView>,
    fs: Seq<StructFieldView>,
    wires: Seq<WireFieldView>,
    b: Backend,
) -> bool
    decreases wire_fields_height(wires), 1int, fs.len(),
{
    if fs.len() == 0 || wires.len() != fs.len() {
        fs.len() == 0 && wires.len() == 0
    } else {
        wire_fields_ok(reg, fs.drop_last(), wires.drop_last(), b) && wires.last().name
            == fs.last().wire_name() && slot_ok(reg, fs.last(), wires.last().slot, b)
    }
}

/// Whether one wire slot conforms to its field: a skipped field's untouched
/// default; a scalar of the field's kind;
/// for an enumeration target, a wire enumeration value (accessor convention)
/// or a plain code (field convention, enumeration marker) agreeing with the
/// match table; for a composite target, a present conforming member, or the
/// unset member where the field is optional.
pub open spec fn slot_ok(
    reg: Seq<ProtoMapView>,
    f: StructFieldView,
    sl: WireSlotView,
    b: Backend,
) -> bool
    decreases wire_slot_height(sl), 1int, 0int,
{
    if f.skipped() {
        // a skipped member is never written, so only its untouched default
        // round-trips, and the field's domain default must exist
        &&& sl == default_slot(reg, f, b)
        &&& crate::decode::default_field_value(reg, f, crate::decode::default_fuel(reg)) is Some
    } else {
        match f.ty {
        Ty::Scalar { ty: kind, .. } => sl matches WireSlotView::Scalar(sv) && sv.kind() == kind,
        Ty::Other { optional } => {
            if is_enum_entity(reg, f.type_spelling) && b == Backend::Protobuf {
                match sl {
                    WireSlotView::Enum(Some(we)) => {
                        let en = find_spec(reg, f.type_spelling)->0->Enum_0;
                        0 <= we.code < en.variants.len() && we.name == proto_variant_name_spec(
                            en.attrs,
                            en.variants[we.code as int].name,
                        )
                    },
                    WireSlotView::Enum(None) => optional,
                    _ => false,
                }
            } else if is_enum_entity(reg, f.type_spelling) && enum_marked(f) {
                match sl {
                    WireSlotView::Scalar(ScalarValueView::I32(code)) => {
                        let en = find_spec(reg, f.type_spelling)->0->Enum_0;
                        0 <= code < en.variants.len()
                    },
                    _ => false,
                }
            } else {
                match sl {
                    WireSlotView::Message(Some(w)) => entity_wire_ok(
                        reg,
                        f.type_spelling,
                        *w,
                        b,
                    ),
                    WireSlotView::Message(None) => optional,
                    _ => false,
                }
            }
        },
        }
    }
}

/// A scalar that reads as absent is its kind's default.
proof fn lemma_absent_scalar_is_default(sv: ScalarValueView)
    requires
        !sv.has_value(),
    ensures
        sv == default_of(sv.kind()),
{
    match sv {
        ScalarValueView::Text(s) => {
            assert(s =~= Seq::<char>::empty());
        },
        ScalarValueView::Bytes(bs) => {
            assert(bs =~= Seq::<u8>::empty());
        },
        _ => {},
    }
}

proof fn lemma_by_name_sound(en: EnumView, vn: Seq<char>, k: int)
    requires
        0 <= k,
        variant_by_name(en, vn, k) is Some,
    ensures
        ({
            let i = variant_by_name(en, vn, k)->0;
            k <= i < en.variants.len() && en.variants[i].name == vn
        }),
    decreases en.variants.len() - k,
{
    if k < en.variants.len() && en.variants[k].name != vn {
        lemma_by_name_sound(en, vn, k + 1);
    }
}

proof fn lemma_wire_fields_ok_index(
    reg: Seq<ProtoMapView>,
    fs: Seq<StructFieldView>,
    wires: Seq<WireFieldView>,
    b: Backend,
    i: int,
)
    requires
        wire_fields_ok(reg, fs, wires, b),
        wires.len() == fs.len(),
        0 <= i < fs.len(),
    ensures
        wires[i].name == fs[i].wire_name(),
        slot_ok(reg, fs[i], wires[i].slot, b),
    decreases fs.len(),
{
    if i < fs.len() - 1 {
        lemma_wire_fields_ok_index(reg, fs.drop_last(), wires.drop_last(), b, i);
    }
}

proof fn lemma_lookup_wires(
    fs: Seq<StructFieldView>,
    wires: Seq<WireFieldView>,
    i: int,
)
    requires
        wires.len() == fs.len(),
        0 <= i < fs.len(),
        forall|j: int| 0 <= j < fs.len() ==> (#[trigger] wires[j].name) == fs[j].wire_name(),
        forall|j: int, l: int|
            0 <= j < l < fs.len() ==> (#[trigger] fs[j].wire_name()) != (#[trigger] fs[l].wire_name()),
    ensures
        slot_lookup(wires, fs[i].wire_name()) == Some(wires[i].slot),
{
    assert forall|j: int| 0 <= j < i implies wires[j].name != fs[i].wire_name() by {
        assert(wires[j].name == fs[j].wire_name());
    }
    lemma_slot_lookup_step(wires, fs[i].wire_name(), i);
}

/// The wire round-trip law for one conforming slot: the slot decodes, and
/// writing the decoded value back reproduces the slot.
proof fn lemma_wire_field_round_trip(
    reg: Seq<ProtoMapView>,
    f: StructFieldView,
    sl: WireSlotView,
    b: Backend,
)
    requires
        reg_wf(reg),
        field_wf(reg, f),
        slot_ok(reg, f, sl, b),
    ensures
        dec_field(reg, f, Some(sl), b) matches Ok(v) && enc_field(reg, f, v, b) == sl,
    decreases 4 * wire_slot_height(sl) + 3, 0int,
{
    if f.skipped() {
        return ;
    }
    match f.ty {
        Ty::Scalar { ty: kind, optional } => {
            let sv = sl->Scalar_0;
            if optional && !sv.has_value() {
                lemma_absent_scalar_is_default(sv);
            }
        },
        Ty::Other { optional } => {
            lemma_find_wf(reg, f.type_spelling);
            let en = find_spec(reg, f.type_spelling)->0->Enum_0;
            if is_enum_entity(reg, f.type_spelling) && b == Backend::Protobuf {
                assert(enum_wf(en));
                match sl {
                    WireSlotView::Enum(Some(we)) => {
                        lemma_by_wire_name_found(en, we.code as int, 0);
                    },
                    _ => {},
                }
            } else if is_enum_entity(reg, f.type_spelling) && enum_marked(f) {
                let code = sl->Scalar_0->I32_0;
                assert(0 <= code < en.variants.len());
            } else {
                match sl {
                    WireSlotView::Message(Some(w)) => {
                        lemma_wire_round_trip(reg, f.type_spelling, *w, b);
                        let e = crate::decode::dec_entity(reg, f.type_spelling, *w, b)->Ok_0;
                        match find_spec(reg, f.type_spelling)->0 {
                            ProtoMapView::Struct(_) => {
                                assert(enc_entity(reg, e, b) matches WireValueView::Message(_));
                            },
                            ProtoMapView::Enum(t) => {
                                if t.attrs.is_enumeration() {
                                    assert(b == Backend::Prost && !enum_marked(f));
                                    assert(enc_entity(reg, e, b) matches WireValueView::Scalar(_));
                                } else {
                                    assert(enc_entity(reg, e, b) matches WireValueView::OneOf {
                                        ..
                                    });
                                }
                            },
                        }
                    },
                    _ => {},
                }
            }
        },
    }
}

proof fn lemma_wire_fields_round_trip(
    reg: Seq<ProtoMapView>,
    fs: Seq<StructFieldView>,
    wires: Seq<WireFieldView>,
    b: Backend,
    k: int,
)
    requires
        reg_wf(reg),
        wires.len() == fs.len(),
        wire_fields_ok(reg, fs, wires, b),
        forall|i: int| 0 <= i < fs.len() ==> field_wf(reg, #[trigger] fs[i]),
        forall|j: int, l: int|
            0 <= j < l < fs.len() ==> (#[trigger] fs[j].wire_name()) != (#[trigger] fs[l].wire_name()),
        0 <= k <= fs.len(),
    ensures
        dec_fields(reg, fs.take(k), wires, b) matches Ok(vals) && vals.len() == k && forall|i: int|
            0 <= i < k ==> enc_field(reg, fs[i], #[trigger] vals[i], b) == wires[i].slot,
    decreases 4 * wire_fields_height(wires) + 5, k,
{
    if k == 0 {
        assert(fs.take(0) =~= Seq::<StructFieldView>::empty());
    } else {
        lemma_wire_fields_round_trip(reg, fs, wires, b, k - 1);
        assert(fs.take(k).drop_last() =~= fs.take(k - 1));
        assert(fs.take(k).last() == fs[k - 1]);
        lemma_wire_fields_ok_index(reg, fs, wires, b, k - 1);
        assert forall|j: int| 0 <= j < fs.len() implies (#[trigger] wires[j].name)
            == fs[j].wire_name() by {
            lemma_wire_fields_ok_index(reg, fs, wires, b, j);
        }
        lemma_lookup_wires(fs, wires, k - 1);
        crate::decode::lemma_slot_lookup_height(wires, fs[k - 1].wire_name());
        lemma_wire_field_round_trip(reg, fs[k - 1], wires[k - 1].slot, b);
    }
}

/// The wire round-trip law: a wire value in the canonical shape the writing
/// direction produces decodes, and re-encoding the decoded entity yields the
/// wire value back, byte for byte of the model. Wire values that a round trip
/// cannot reproduce — an absent required composite member, a message with
/// extra or reordered members — fall outside the conformance condition, as
/// does the documented collapse of default-valued optional scalars, which
/// this law's shapes carry losslessly (a default-valued optional scalar
/// member decodes to absent and is written back as the same default).
pub proof fn lemma_wire_round_trip(
    reg: Seq<ProtoMapView>,
    name: Seq<char>,
    w: WireValueView,
    b: Backend,
)
    requires
        reg_wf(reg),
        entity_wire_ok(reg, name, w, b),
    ensures
        dec_entity(reg, name, w, b) matches Ok(e) && e.entity == name && enc_entity(reg, e, b)
            == w,
    decreases 4 * wire_height(w) + 2, 0int,
{
    lemma_find_wf(reg, name);
    match find_spec(reg, name)->0 {
        ProtoMapView::Struct(s) => {
            let wires = w->Message_0;
            assert(wire_height(w) == 1 + wire_fields_height(wires));
            lemma_wire_fields_round_trip(reg, s.fields, wires, b, s.fields.len() as int);
            assert(s.fields.take(s.fields.len() as int) =~= s.fields);
            let vals = dec_fields(reg, s.fields, wires, b)->Ok_0;
            lemma_enc_fields_index(reg, s.fields, vals, b);
            assert forall|j: int| 0 <= j < s.fields.len() implies (#[trigger] wires[j].name)
                == s.fields[j].wire_name() by {
                lemma_wire_fields_ok_index(reg, s.fields, wires, b, j);
            }
            assert forall|j: int| 0 <= j < s.fields.len() implies enc_fields(
                reg,
                s.fields,
                vals,
                b,
            )[j] == wires[j] by {
                assert(enc_field(reg, s.fields[j], vals[j], b) == wires[j].slot);
                assert(enc_fields(reg, s.fields, vals, b)[j] =~= wires[j]);
            }
            assert(enc_fields(reg, s.fields, vals, b) =~= wires);
        },
        ProtoMapView::Enum(en) => {
            if en.attrs.is_enumeration() {
                if b == Backend::Protobuf {
                    let code = w->Enumeration_code;
                    lemma_by_wire_name_found(en, code as int, 0);
                }
            } else {
                let t = w->OneOf_tag->0;
                lemma_by_name_sound(en, t.variant, 0);
                let i = variant_by_name(en, t.variant, 0)->0;
                assert(wire_height(w) == 1 + wire_height(*t.value));
                match en.variants[i].field_name {
                    Some(p) => {
                        lemma_wire_round_trip(reg, canon(scan_spec(p)), *t.value, b);
                    },
                    None => {
                        assert(false);
                    },
                }
            }
        },
    }
}

} // verus!
