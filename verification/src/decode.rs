use vstd::prelude::*;

verus! {

use crate::code::{Backend, ConvMethodView};
use crate::errors::MapErrorView;
use crate::nested_type::canon;
use crate::proto_enum::{proto_variant_name_spec, EnumView};
use crate::proto_map::ProtoMapView;
use crate::proto_struct::{has_check_spec, StructFieldView};
use crate::strategy::method_spec;
use crate::ty::Ty;
use crate::type_scanner::scan_spec;
use crate::value::{
    default_of, find_spec, is_float_kind, wire_fields_height, wire_height, wire_slot_height,
    EntityDataView, EntityNodeView, ScalarValueView, ValueView, WireFieldView, WireSlotView,
    WireValueView,
};
use crate::code::HasValueCheckView;

/// The height of a possibly absent slot, for termination measures.
pub open spec fn oslot_height(o: Option<WireSlotView>) -> nat {
    match o {
        Some(s) => wire_slot_height(s),
        None => 1,
    }
}

/// The slot of the first wire field of the given name, if any.
pub open spec fn slot_lookup(wires: Seq<WireFieldView>, name: Seq<char>) -> Option<WireSlotView>
    decreases wires.len(),
{
    if wires.len() == 0 {
        None
    } else if wires[0].name == name {
        Some(wires[0].slot)
    } else {
        slot_lookup(wires.skip(1), name)
    }
}

proof fn lemma_wfh_skip(wires: Seq<WireFieldView>)
    requires
        wires.len() > 0,
    ensures
        wire_fields_height(wires.skip(1)) <= wire_fields_height(wires),
    decreases wires.len(),
{
    if wires.len() == 1 {
        assert(wires.skip(1) =~= Seq::<WireFieldView>::empty());
        crate::value::lemma_wire_fields_height(wires, 0);
        assert(wire_fields_height(wires) >= wire_fields_height(wires.drop_last()));
    } else {
        assert(wires.skip(1).drop_last() =~= wires.drop_last().skip(1));
        assert(wires.skip(1).last() == wires.last());
        lemma_wfh_skip(wires.drop_last());
        assert(wire_fields_height(wires) >= wire_fields_height(wires.drop_last()));
        assert(wire_fields_height(wires) >= wire_slot_height(wires.last().slot));
    }
}

pub proof fn lemma_slot_lookup_height(wires: Seq<WireFieldView>, name: Seq<char>)
    ensures
        oslot_height(slot_lookup(wires, name)) <= wire_fields_height(wires),
    decreases wires.len(),
{
    if wires.len() == 0 {
    } else if wires[0].name == name {
        crate::value::lemma_wire_fields_height(wires, 0);
    } else {
        lemma_slot_lookup_height(wires.skip(1), name);
        lemma_wfh_skip(wires);
    }
}

/// The fuel every default-value construction starts from: one more than the
/// registry holds entities, enough for any chain of required composite
/// defaults that does not revisit an entity.
pub open spec fn default_fuel(reg: Seq<ProtoMapView>) -> nat {
    if reg.len() < usize::MAX {
        reg.len() + 1
    } else {
        usize::MAX as nat
    }
}

/// The default value of one record field: `None` for optional fields, the
/// kind's default for scalars, and the default entity for composites. A float
/// kind, an unregistered composite, or an exhausted fuel yields nothing.
pub open spec fn default_field_value(
    reg: Seq<ProtoMapView>,
    f: StructFieldView,
    fuel: nat,
) -> Option<ValueView>
    decreases fuel, 0int, 0int,
{
    if f.ty.is_optional_spec() {
        match f.ty {
            Ty::Scalar { .. } => Some(ValueView::OptScalar(None)),
            Ty::Other { .. } => Some(ValueView::OptEntity(None)),
        }
    } else {
        match f.ty {
            Ty::Scalar { ty, .. } => if is_float_kind(ty) {
                None
            } else {
                Some(ValueView::Scalar(default_of(ty)))
            },
            Ty::Other { .. } => if fuel == 0 {
                None
            } else {
                match default_entity(reg, f.type_spelling, (fuel - 1) as nat) {
                    Some(n) => Some(ValueView::Entity(n)),
                    None => None,
                }
            },
        }
    }
}

/// The default values of a record's fields, in declaration order.
pub open spec fn default_fields(
    reg: Seq<ProtoMapView>,
    fs: Seq<StructFieldView>,
    fuel: nat,
) -> Option<Seq<ValueView>>
    decreases fuel, 0int, fs.len(),
{
    if fs.len() == 0 {
        Some(Seq::empty())
    } else {
        match default_fields(reg, fs.drop_last(), fuel) {
            Some(vs) => match default_field_value(reg, fs.last(), fuel) {
                Some(v) => Some(vs.push(v)),
                None => None,
            },
            None => None,
        }
    }
}

/// The default value of an entity: every field default for a record, the
/// first variant for an enumeration, and the first variant with a default
/// payload for a oneof.
pub open spec fn default_entity(
    reg: Seq<ProtoMapView>,
    name: Seq<char>,
    fuel: nat,
) -> Option<EntityNodeView>
    decreases fuel, 1int, 0int,
{
    match find_spec(reg, name) {
        Some(ProtoMapView::Struct(s)) => match default_fields(reg, s.fields, fuel) {
            Some(vs) => Some(EntityNodeView { entity: name, data: EntityDataView::Record(vs) }),
            None => None,
        },
        Some(ProtoMapView::Enum(en)) => if en.variants.len() == 0 {
            None
        } else if en.attrs.is_enumeration() {
            Some(EntityNodeView { entity: name, data: EntityDataView::Choice(0) })
        } else {
            match en.variants[0].field_name {
                Some(p) => if fuel == 0 {
                    None
                } else {
                    match default_entity(reg, canon(scan_spec(p)), (fuel - 1) as nat) {
                        Some(payload) => Some(
                            EntityNodeView {
                                entity: name,
                                data: EntityDataView::Tag(0, Box::new(payload)),
                            },
                        ),
                        None => None,
                    }
                },
                None => None,
            }
        },
        None => None,
    }
}

/// The absent value of an optional field: `None` of the fitting shape.
pub open spec fn none_value(f: StructFieldView) -> ValueView {
    match f.ty {
        Ty::Scalar { .. } => ValueView::OptScalar(None),
        Ty::Other { .. } => ValueView::OptEntity(None),
    }
}

/// A decoded required value rewrapped as a present optional one.
pub open spec fn wrap_opt(v: ValueView) -> ValueView {
    match v {
        ValueView::Scalar(sv) => ValueView::OptScalar(Some(sv)),
        ValueView::Entity(n) => ValueView::OptEntity(Some(n)),
        _ => v,
    }
}

/// Whether the presence predicate holds of the read wire slot: the has-value
/// check on a scalar member, the wire accessor's presence on an enumeration
/// or composite member.
pub open spec fn check_holds(c: HasValueCheckView, sl: WireSlotView) -> bool {
    match c {
        HasValueCheckView::ScalarHasValue => match sl {
            WireSlotView::Scalar(sv) => sv.has_value(),
            _ => false,
        },
        HasValueCheckView::HasField(_) => match sl {
            WireSlotView::Message(o) => o is Some,
            WireSlotView::Enum(o) => o is Some,
            _ => false,
        },
    }
}

/// The index of the first variant whose wire-side name is the given one.
pub open spec fn variant_by_wire_name(en: EnumView, wn: Seq<char>, i: int) -> Option<int>
    decreases en.variants.len() - i,
{
    if i < 0 || i >= en.variants.len() {
        None
    } else if proto_variant_name_spec(en.attrs, en.variants[i].name) == wn {
        Some(i)
    } else {
        variant_by_wire_name(en, wn, i + 1)
    }
}

/// The index of the first variant of the given domain name.
pub open spec fn variant_by_name(en: EnumView, vn: Seq<char>, i: int) -> Option<int>
    decreases en.variants.len() - i,
{
    if i < 0 || i >= en.variants.len() {
        None
    } else if en.variants[i].name == vn {
        Some(i)
    } else {
        variant_by_name(en, vn, i + 1)
    }
}

/// What reading an unset wire enumeration member yields: the accessor hands
/// back the wire enumeration's default (first) value, and the match table's
/// first arm takes it — the first variant; an empty table is the named
/// conversion failure.
pub open spec fn dec_enum_default(reg: Seq<ProtoMapView>, name: Seq<char>) -> Result<
    EntityNodeView,
    MapErrorView,
> {
    match find_spec(reg, name) {
        Some(ProtoMapView::Enum(en)) => if en.attrs.is_enumeration() {
            if en.variants.len() > 0 {
                Ok(EntityNodeView { entity: name, data: EntityDataView::Choice(0) })
            } else {
                Err(MapErrorView::UnknownEnumValue { entity: name })
            }
        } else {
            Err(MapErrorView::WireShapeMismatch { entity: name })
        },
        Some(ProtoMapView::Struct(_)) => Err(MapErrorView::WireShapeMismatch { entity: name }),
        None => Err(MapErrorView::MissingEntity { entity: name }),
    }
}

/// What decoding a wire enumeration code yields: the variant of that index,
/// or the named conversion failure on a code outside the table.
pub open spec fn dec_enum_code(reg: Seq<ProtoMapView>, name: Seq<char>, code: i32) -> Result<
    EntityNodeView,
    MapErrorView,
> {
    match find_spec(reg, name) {
        Some(ProtoMapView::Enum(en)) => if en.attrs.is_enumeration() {
            if 0 <= code < en.variants.len() {
                Ok(EntityNodeView { entity: name, data: EntityDataView::Choice(code as int) })
            } else {
                Err(MapErrorView::UnknownEnumValue { entity: name })
            }
        } else {
            Err(MapErrorView::WireShapeMismatch { entity: name })
        },
        Some(ProtoMapView::Struct(_)) => Err(MapErrorView::WireShapeMismatch { entity: name }),
        None => Err(MapErrorView::MissingEntity { entity: name }),
    }
}

/// What decoding a wire enumeration name yields: the first variant renaming
/// to it, or the named conversion failure on a name outside the table.
pub open spec fn dec_enum_name(reg: Seq<ProtoMapView>, name: Seq<char>, wn: Seq<char>) -> Result<
    EntityNodeView,
    MapErrorView,
> {
    match find_spec(reg, name) {
        Some(ProtoMapView::Enum(en)) => if en.attrs.is_enumeration() {
            match variant_by_wire_name(en, wn, 0) {
                Some(i) => Ok(EntityNodeView { entity: name, data: EntityDataView::Choice(i) }),
                None => Err(MapErrorView::UnknownEnumValue { entity: name }),
            }
        } else {
            Err(MapErrorView::WireShapeMismatch { entity: name })
        },
        Some(ProtoMapView::Struct(_)) => Err(MapErrorView::WireShapeMismatch { entity: name }),
        None => Err(MapErrorView::MissingEntity { entity: name }),
    }
}

/// What the selected conversion reads out of one unwrapped wire slot: the
/// scalar itself, the enumeration variant behind a plain code or a wire
/// enumeration member, or the recursively decoded composite; an absent
/// required composite member falls back to the entity's default. The override
/// conversions are not evaluated here.
pub open spec fn dec_conv(
    reg: Seq<ProtoMapView>,
    f: StructFieldView,
    m: ConvMethodView,
    sl: WireSlotView,
    b: Backend,
) -> Result<ValueView, MapErrorView>
    decreases 4 * wire_slot_height(sl) + 1, 0int,
{
    match m {
        ConvMethodView::BuiltinScalar => if f.attrs matches Some(a) && a.enumeration {
            match sl {
                WireSlotView::Scalar(ScalarValueView::I32(code)) => match dec_enum_code(
                    reg,
                    f.type_spelling,
                    code,
                ) {
                    Ok(n) => Ok(ValueView::Entity(n)),
                    Err(e) => Err(e),
                },
                _ => Err(MapErrorView::WireShapeMismatch { entity: f.type_spelling }),
            }
        } else {
            match sl {
                WireSlotView::Scalar(sv) => Ok(ValueView::Scalar(sv)),
                _ => Err(MapErrorView::WireShapeMismatch { entity: f.type_spelling }),
            }
        },
        ConvMethodView::BuiltinProto => match sl {
            WireSlotView::Enum(Some(we)) => match dec_enum_name(reg, f.type_spelling, we.name) {
                Ok(n) => Ok(ValueView::Entity(n)),
                Err(e) => Err(e),
            },
            WireSlotView::Enum(None) => match dec_enum_default(reg, f.type_spelling) {
                Ok(n) => Ok(ValueView::Entity(n)),
                Err(e) => Err(e),
            },
            WireSlotView::Message(Some(w)) => match dec_entity(reg, f.type_spelling, *w, b) {
                Ok(n) => Ok(ValueView::Entity(n)),
                Err(e) => Err(e),
            },
            WireSlotView::Message(None) => match default_entity(
                reg,
                f.type_spelling,
                default_fuel(reg),
            ) {
                Some(n) => Ok(ValueView::Entity(n)),
                None => Err(MapErrorView::DepthLimit { entity: f.type_spelling }),
            },
            _ => Err(MapErrorView::WireShapeMismatch { entity: f.type_spelling }),
        },
        _ => Err(MapErrorView::WireShapeMismatch { entity: f.type_spelling }),
    }
}

/// What the reading statement of one field yields from the field's wire slot
/// (absent slots read as the slot's default): the domain default for a
/// skipped field; under the accessor convention the conversion, behind the
/// presence predicate when optional; under the field convention the four-way
/// member shape, where a default-valued optional scalar decodes to `None`.
pub open spec fn dec_field(
    reg: Seq<ProtoMapView>,
    f: StructFieldView,
    slot: Option<WireSlotView>,
    b: Backend,
) -> Result<ValueView, MapErrorView>
    decreases 4 * oslot_height(slot) + 3, 0int,
{
    if f.skipped() {
        match default_field_value(reg, f, default_fuel(reg)) {
            Some(v) => Ok(v),
            None => Err(MapErrorView::DepthLimit { entity: f.type_spelling }),
        }
    } else {
        let m = method_spec(f.ty, f.attrs, b);
        let sl = match slot {
            Some(s) => s,
            None => crate::encode::default_slot(reg, f, b),
        };
        match b {
            Backend::Protobuf => if f.ty.is_optional_spec() {
                let c = has_check_spec(f, f.wire_name());
                if check_holds(c, sl) {
                    match dec_conv(reg, f, m, sl, b) {
                        Ok(v) => Ok(wrap_opt(v)),
                        Err(e) => Err(e),
                    }
                } else {
                    Ok(none_value(f))
                }
            } else {
                dec_conv(reg, f, m, sl, b)
            },
            Backend::Prost => if f.scalar_like() {
                if f.ty.is_optional_spec() {
                    match sl {
                        WireSlotView::Scalar(sv) => if sv.has_value() {
                            match dec_conv(reg, f, m, sl, b) {
                                Ok(v) => Ok(wrap_opt(v)),
                                Err(e) => Err(e),
                            }
                        } else {
                            Ok(none_value(f))
                        },
                        _ => Err(MapErrorView::WireShapeMismatch { entity: f.type_spelling }),
                    }
                } else {
                    dec_conv(reg, f, m, sl, b)
                }
            } else {
                if f.ty.is_optional_spec() {
                    match sl {
                        WireSlotView::Message(Some(w)) => match dec_entity(
                            reg,
                            f.type_spelling,
                            *w,
                            b,
                        ) {
                            Ok(n) => Ok(ValueView::OptEntity(Some(n))),
                            Err(e) => Err(e),
                        },
                        WireSlotView::Message(None) => Ok(ValueView::OptEntity(None)),
                        _ => Err(MapErrorView::WireShapeMismatch { entity: f.type_spelling }),
                    }
                } else {
                    match sl {
                        WireSlotView::Message(Some(w)) => match dec_entity(
                            reg,
                            f.type_spelling,
                            *w,
                            b,
                        ) {
                            Ok(n) => Ok(ValueView::Entity(n)),
                            Err(e) => Err(e),
                        },
                        WireSlotView::Message(None) => match default_entity(
                            reg,
                            f.type_spelling,
                            default_fuel(reg),
                        ) {
                            Some(n) => Ok(ValueView::Entity(n)),
                            None => Err(MapErrorView::DepthLimit { entity: f.type_spelling }),
                        },
                        _ => Err(MapErrorView::WireShapeMismatch { entity: f.type_spelling }),
                    }
                }
            },
        }
    }
}

/// What the reading direction of a record yields: one value per schema field,
/// each from the wire field of the field's wire name, or the first field's
/// failure.
pub open spec fn dec_fields(
    reg: Seq<ProtoMapView>,
    fs: Seq<StructFieldView>,
    wires: Seq<WireFieldView>,
    b: Backend,
) -> Result<Seq<ValueView>, MapErrorView>
    decreases 4 * wire_fields_height(wires) + 5, fs.len(),
    via dec_fields_decreases
{
    if fs.len() == 0 {
        Ok(Seq::empty())
    } else {
        match dec_fields(reg, fs.drop_last(), wires, b) {
            Ok(vs) => match dec_field(
                reg,
                fs.last(),
                slot_lookup(wires, fs.last().wire_name()),
                b,
            ) {
                Ok(v) => Ok(vs.push(v)),
                Err(e) => Err(e),
            },
            Err(e) => Err(e),
        }
    }
}

#[via_fn]
proof fn dec_fields_decreases(
    reg: Seq<ProtoMapView>,
    fs: Seq<StructFieldView>,
    wires: Seq<WireFieldView>,
    b: Backend,
) {
    if fs.len() > 0 {
        lemma_slot_lookup_height(wires, fs.last().wire_name());
    }
}

/// What decoding one wire value as the named entity yields: the record with
/// every field read back; the enumeration variant found in the match table,
/// with a named failure outside it; the oneof variant of the set tag with its
/// recursively decoded payload, with a named failure when no tag is set or no
/// arm recognizes it. Nested failures propagate unchanged.
pub open spec fn dec_entity(
    reg: Seq<ProtoMapView>,
    name: Seq<char>,
    w: WireValueView,
    b: Backend,
) -> Result<EntityNodeView, MapErrorView>
    decreases 4 * wire_height(w) + 2, 0int,
{
    match find_spec(reg, name) {
        None => Err(MapErrorView::MissingEntity { entity: name }),
        Some(ProtoMapView::Struct(s)) => match w {
            WireValueView::Message(wires) => match dec_fields(reg, s.fields, wires, b) {
                Ok(vs) => Ok(EntityNodeView { entity: name, data: EntityDataView::Record(vs) }),
                Err(e) => Err(e),
            },
            _ => Err(MapErrorView::WireShapeMismatch { entity: name }),
        },
        Some(ProtoMapView::Enum(en)) => if en.attrs.is_enumeration() {
            match b {
                Backend::Protobuf => match w {
                    WireValueView::Enumeration { name: wn, .. } => dec_enum_name(reg, name, wn),
                    _ => Err(MapErrorView::WireShapeMismatch { entity: name }),
                },
                Backend::Prost => match w {
                    WireValueView::Scalar(ScalarValueView::I32(code)) => dec_enum_code(
                        reg,
                        name,
                        code,
                    ),
                    _ => Err(MapErrorView::WireShapeMismatch { entity: name }),
                },
            }
        } else {
            match w {
                WireValueView::OneOf { tag, .. } => match tag {
                    Some(t) => match variant_by_name(en, t.variant, 0) {
                        Some(i) => match en.variants[i].field_name {
                            Some(p) => match dec_entity(reg, canon(scan_spec(p)), *t.value, b) {
                                Ok(payload) => Ok(
                                    EntityNodeView {
                                        entity: name,
                                        data: EntityDataView::Tag(i, Box::new(payload)),
                                    },
                                ),
                                Err(e) => Err(e),
                            },
                            None => Err(MapErrorView::NoOneOfValue { entity: name }),
                        },
                        None => Err(MapErrorView::NoOneOfValue { entity: name }),
                    },
                    None => Err(MapErrorView::NoOneOfValue { entity: name }),
                },
                _ => Err(MapErrorView::WireShapeMismatch { entity: name }),
            }
        },
    }
}

} // verus!
// exec part appended below

verus! {

use crate::attributes::StructAttrs;
use crate::code::{ConvMethod, HasValueCheck, MemberShape, ReadStmt};
use crate::errors::MapError;
use crate::input::str_eq;
use crate::proto_enum::Enum;
use crate::proto_map::ProtoMap;
use crate::proto_struct::StructField;
use crate::rename::{to_shouty_snake_case, to_snake_case};
use crate::type_scanner::scan;
use crate::value::{
    find_entity, lemma_wire_fields_view, reg_view, wire_fields_view, EntityData, EntityNode,
    ScalarValue, Value, WireField, WireSlot, WireValue,
};

pub(crate) proof fn lemma_slot_lookup_step(wires: Seq<WireFieldView>, name: Seq<char>, i: int)
    requires
        0 <= i < wires.len(),
        forall|j: int| 0 <= j < i ==> wires[j].name != name,
    ensures
        wires[i].name == name ==> slot_lookup(wires, name) == Some(wires[i].slot),
        wires[i].name != name ==> slot_lookup(wires, name) == slot_lookup(
            wires.skip(i + 1),
            name,
        ),
    decreases i,
{
    if i == 0 {
        assert(wires.skip(1) =~= wires.skip(0int + 1));
    } else {
        assert(wires.skip(1)[i - 1] == wires[i]);
        assert(forall|j: int| 0 <= j < i - 1 ==> wires.skip(1)[j] == wires[j + 1]);
        lemma_slot_lookup_step(wires.skip(1), name, i - 1);
        assert(wires.skip(1).skip(i) =~= wires.skip(i + 1));
    }
}

proof fn lemma_slot_lookup_none(wires: Seq<WireFieldView>, name: Seq<char>)
    requires
        forall|j: int| 0 <= j < wires.len() ==> wires[j].name != name,
    ensures
        slot_lookup(wires, name) is None,
    decreases wires.len(),
{
    if wires.len() > 0 {
        assert(forall|j: int| 0 <= j < wires.skip(1).len() ==> wires.skip(1)[j] == wires[j + 1]);
        lemma_slot_lookup_none(wires.skip(1), name);
    }
}

/// The first wire field of the given name, if any.
fn lookup_slot<'a>(fields: &'a Vec<WireField>, name: &str) -> (r: Option<&'a WireSlot>)
    ensures
        (match r {
            Some(s) => slot_lookup(wire_fields_view(fields@), name@) == Some(s@),
            None => slot_lookup(wire_fields_view(fields@), name@) is None,
        }),
{
    let ghost wv = wire_fields_view(fields@);
    proof {
        lemma_wire_fields_view(fields@);
    }
    let mut i: usize = 0;
    while i < fields.len()
        invariant
            i <= fields@.len(),
            wv == wire_fields_view(fields@),
            wv.len() == fields@.len(),
            forall|j: int| 0 <= j < fields@.len() ==> wv[j] == (WireFieldView {
                name: fields@[j].name@,
                slot: crate::value::wire_slot_view(fields@[j].slot),
            }),
            forall|j: int| 0 <= j < i ==> wv[j].name != name@,
        decreases fields@.len() - i,
    {
        if str_eq(fields[i].name.as_str(), name) {
            proof {
                lemma_slot_lookup_step(wv, name@, i as int);
            }
            return Some(&fields[i].slot);
        }
        proof {
            lemma_slot_lookup_step(wv, name@, i as int);
        }
        i += 1;
    }
    proof {
        lemma_slot_lookup_none(wv, name@);
    }
    None
}

/// The fuel every default-value construction starts from, as a count.
fn default_fuel_exec(reg: &Vec<ProtoMap>) -> (r: usize)
    ensures
        r as nat == default_fuel(reg_view(reg@)),
{
    if reg.len() < usize::MAX {
        reg.len() + 1
    } else {
        usize::MAX
    }
}

proof fn lemma_default_fields_none(
    reg: Seq<ProtoMapView>,
    fs: Seq<StructFieldView>,
    fuel: nat,
    k: int,
)
    requires
        0 <= k <= fs.len(),
        default_fields(reg, fs.take(k), fuel) is None,
    ensures
        default_fields(reg, fs, fuel) is None,
    decreases fs.len(),
{
    if fs.len() > k {
        assert(fs.drop_last().take(k) =~= fs.take(k));
        lemma_default_fields_none(reg, fs.drop_last(), fuel, k);
    } else {
        assert(fs.take(k) =~= fs);
    }
}

/// The default value of one record field, as a built value.
fn default_field_value_exec(reg: &Vec<ProtoMap>, f: &StructField, fuel: usize) -> (r: Option<
    Value,
>)
    ensures
        (match r {
            Some(v) => default_field_value(reg_view(reg@), f@, fuel as nat) == Some(v@),
            None => default_field_value(reg_view(reg@), f@, fuel as nat) is None,
        }),
    decreases fuel, 0int, 0int,
{
    if f.is_optional() {
        match &f.ty {
            Ty::Scalar { .. } => Some(Value::OptScalar(None)),
            Ty::Other { .. } => Some(Value::OptEntity(None)),
        }
    } else {
        match &f.ty {
            Ty::Scalar { ty, .. } => match ScalarValue::default_value(*ty) {
                Some(v) => Some(Value::Scalar(v)),
                None => None,
            },
            Ty::Other { .. } => {
                if fuel == 0 {
                    None
                } else {
                    match default_entity_exec(reg, f.type_spelling.as_str(), fuel - 1) {
                        Some(n) => Some(Value::Entity(n)),
                        None => None,
                    }
                }
            },
        }
    }
}

/// The default value of an entity, as a built value.
fn default_entity_exec(reg: &Vec<ProtoMap>, name: &str, fuel: usize) -> (r: Option<EntityNode>)
    ensures
        (match r {
            Some(n) => default_entity(reg_view(reg@), name@, fuel as nat) == Some(n@),
            None => default_entity(reg_view(reg@), name@, fuel as nat) is None,
        }),
    decreases fuel, 1int, 0int,
{
    let found = match find_entity(reg, name) {
        Some(m) => m,
        None => {
            return None;
        },
    };
    match found {
        ProtoMap::Struct(s) => {
            let ghost fsv = s@.fields;
            let mut vals: Vec<Value> = Vec::new();
            let mut i: usize = 0;
            while i < s.fields.len()
                invariant
                    i <= s.fields@.len(),
                    fsv == s@.fields,
                    fsv.len() == s.fields@.len(),
                    vals@.len() == i,
                    find_spec(reg_view(reg@), name@) == Some(ProtoMapView::Struct(s@)),
                    default_fields(reg_view(reg@), fsv.take(i as int), fuel as nat) matches Some(vs)
                        && vs =~= crate::value::values_view(vals@),
                decreases fuel, 0int, s.fields@.len() - i,
            {
                proof {
                    assert(fsv.take(i as int + 1).drop_last() =~= fsv.take(i as int));
                    assert(fsv.take(i as int + 1).last() == fsv[i as int]);
                    assert(fsv[i as int] == s.fields@[i as int]@);
                }
                match default_field_value_exec(reg, &s.fields[i], fuel) {
                    Some(v) => {
                        let ghost prev = vals@;
                        vals.push(v);
                        proof {
                            crate::value::lemma_values_view(prev);
                            crate::value::lemma_values_view(vals@);
                            assert(crate::value::values_view(vals@) =~= crate::value::values_view(
                                prev,
                            ).push(v@));
                        }
                    },
                    None => {
                        proof {
                            assert(default_fields(
                                reg_view(reg@),
                                fsv.take(i as int + 1),
                                fuel as nat,
                            ) is None);
                            lemma_default_fields_none(
                                reg_view(reg@),
                                fsv,
                                fuel as nat,
                                i as int + 1,
                            );
                        }
                        return None;
                    },
                }
                i += 1;
            }
            proof {
                assert(fsv.take(fsv.len() as int) =~= fsv);
            }
            Some(EntityNode { entity: name.to_owned(), data: EntityData::Record(vals) })
        },
        ProtoMap::Enum(en) => {
            if en.variants.len() == 0 {
                return None;
            }
            if en.attrs.is_enumeration() {
                Some(EntityNode { entity: name.to_owned(), data: EntityData::Choice(0) })
            } else {
                proof {
                    assert(en@.variants[0] == en.variants@[0int]@);
                }
                match &en.variants[0].field_name {
                    Some(p) => {
                        if fuel == 0 {
                            return None;
                        }
                        let spelled = scan(p).to_string();
                        match default_entity_exec(reg, spelled.as_str(), fuel - 1) {
                            Some(payload) => Some(
                                EntityNode {
                                    entity: name.to_owned(),
                                    data: EntityData::Tag(0, Box::new(payload)),
                                },
                            ),
                            None => None,
                        }
                    },
                    None => None,
                }
            }
        },
    }
}

/// Decodes a wire enumeration code into its entity's variant.
fn dec_enum_code_exec(reg: &Vec<ProtoMap>, name: &str, code: i32) -> (r: Result<
    EntityNode,
    MapError,
>)
    ensures
        (match r {
            Ok(n) => dec_enum_code(reg_view(reg@), name@, code) == Ok::<
                EntityNodeView,
                MapErrorView,
            >(n@),
            Err(e) => dec_enum_code(reg_view(reg@), name@, code) == Err::<
                EntityNodeView,
                MapErrorView,
            >(e@),
        }),
{
    match find_entity(reg, name) {
        Some(ProtoMap::Enum(en)) => {
            if en.attrs.is_enumeration() {
                if code >= 0 && (code as usize) < en.variants.len() {
                    Ok(EntityNode { entity: name.to_owned(), data: EntityData::Choice(code as usize) })
                } else {
                    Err(MapError::UnknownEnumValue { entity: name.to_owned() })
                }
            } else {
                Err(MapError::WireShapeMismatch { entity: name.to_owned() })
            }
        },
        Some(ProtoMap::Struct(_)) => Err(MapError::WireShapeMismatch { entity: name.to_owned() }),
        None => Err(MapError::MissingEntity { entity: name.to_owned() }),
    }
}

/// Reads an unset wire enumeration member: the wire enumeration's default
/// value, landing on the first variant of the table.
fn dec_enum_default_exec(reg: &Vec<ProtoMap>, name: &str) -> (r: Result<EntityNode, MapError>)
    ensures
        (match r {
            Ok(n) => dec_enum_default(reg_view(reg@), name@) == Ok::<
                EntityNodeView,
                MapErrorView,
            >(n@),
            Err(e) => dec_enum_default(reg_view(reg@), name@) == Err::<
                EntityNodeView,
                MapErrorView,
            >(e@),
        }),
{
    match find_entity(reg, name) {
        Some(ProtoMap::Enum(en)) => {
            if en.attrs.is_enumeration() {
                if en.variants.len() > 0 {
                    Ok(EntityNode { entity: name.to_owned(), data: EntityData::Choice(0) })
                } else {
                    Err(MapError::UnknownEnumValue { entity: name.to_owned() })
                }
            } else {
                Err(MapError::WireShapeMismatch { entity: name.to_owned() })
            }
        },
        Some(ProtoMap::Struct(_)) => Err(MapError::WireShapeMismatch { entity: name.to_owned() }),
        None => Err(MapError::MissingEntity { entity: name.to_owned() }),
    }
}

/// The wire-side name of one variant, computed totally: an unrecognized
/// convention value rewrites like the screaming convention, as the reading
/// table does.
fn wire_variant_name(en: &Enum, i: usize) -> (r: String)
    requires
        i < en.variants@.len(),
    ensures
        r@ == proto_variant_name_spec(en@.attrs, en@.variants[i as int].name),
{
    proof {
        reveal_strlit("snake_case");
        assert(en@.variants[i as int] == en.variants@[i as int]@);
    }
    match &en.attrs.rename_variants {
        None => en.variants[i].name.clone(),
        Some(c) => {
            if str_eq(c.as_str(), "snake_case") {
                to_snake_case(en.variants[i].name.as_str())
            } else {
                to_shouty_snake_case(en.variants[i].name.as_str())
            }
        },
    }
}

/// Decodes a wire enumeration name into its entity's variant.
fn dec_enum_name_exec(reg: &Vec<ProtoMap>, name: &str, wn: &str) -> (r: Result<
    EntityNode,
    MapError,
>)
    ensures
        (match r {
            Ok(n) => dec_enum_name(reg_view(reg@), name@, wn@) == Ok::<
                EntityNodeView,
                MapErrorView,
            >(n@),
            Err(e) => dec_enum_name(reg_view(reg@), name@, wn@) == Err::<
                EntityNodeView,
                MapErrorView,
            >(e@),
        }),
{
    match find_entity(reg, name) {
        Some(ProtoMap::Enum(en)) => {
            if en.attrs.is_enumeration() {
                let mut i: usize = 0;
                while i < en.variants.len()
                    invariant
                        i <= en.variants@.len(),
                        en@.variants.len() == en.variants@.len(),
                        find_spec(reg_view(reg@), name@) == Some(ProtoMapView::Enum(en@)),
                        en@.attrs.is_enumeration(),
                        variant_by_wire_name(en@, wn@, 0) == variant_by_wire_name(
                            en@,
                            wn@,
                            i as int,
                        ),
                    decreases en.variants@.len() - i,
                {
                    let candidate = wire_variant_name(en, i);
                    if str_eq(candidate.as_str(), wn) {
                        return Ok(
                            EntityNode {
                                entity: name.to_owned(),
                                data: EntityData::Choice(i),
                            },
                        );
                    }
                    i += 1;
                }
                Err(MapError::UnknownEnumValue { entity: name.to_owned() })
            } else {
                Err(MapError::WireShapeMismatch { entity: name.to_owned() })
            }
        },
        Some(ProtoMap::Struct(_)) => Err(MapError::WireShapeMismatch { entity: name.to_owned() }),
        None => Err(MapError::MissingEntity { entity: name.to_owned() }),
    }
}

/// Reads one unwrapped wire slot back through the selected conversion.
fn dec_conv_exec(
    reg: &Vec<ProtoMap>,
    f: &StructField,
    method: &ConvMethod,
    sl: &WireSlot,
    b: Backend,
) -> (r: Result<Value, MapError>)
    ensures
        (match r {
            Ok(v) => dec_conv(reg_view(reg@), f@, method@, sl@, b) == Ok::<
                ValueView,
                MapErrorView,
            >(v@),
            Err(e) => dec_conv(reg_view(reg@), f@, method@, sl@, b) == Err::<
                ValueView,
                MapErrorView,
            >(e@),
        }),
    decreases 4 * wire_slot_height(sl@) + 1, 0int,
{
    match method {
        ConvMethod::BuiltinScalar => {
            let enum_marked = match &f.attrs {
                Some(a) => a.enumeration,
                None => false,
            };
            if enum_marked {
                match sl {
                    WireSlot::Scalar(ScalarValue::I32(code)) => {
                        match dec_enum_code_exec(reg, f.type_spelling.as_str(), *code) {
                            Ok(n) => Ok(Value::Entity(n)),
                            Err(e) => Err(e),
                        }
                    },
                    _ => Err(MapError::WireShapeMismatch { entity: f.type_spelling.clone() }),
                }
            } else {
                match sl {
                    WireSlot::Scalar(sv) => Ok(Value::Scalar(sv.duplicate())),
                    _ => Err(MapError::WireShapeMismatch { entity: f.type_spelling.clone() }),
                }
            }
        },
        ConvMethod::BuiltinProto => {
            match sl {
                WireSlot::Enum(Some(we)) => {
                    match dec_enum_name_exec(reg, f.type_spelling.as_str(), we.name.as_str()) {
                        Ok(n) => Ok(Value::Entity(n)),
                        Err(e) => Err(e),
                    }
                },
                WireSlot::Enum(None) => {
                    match dec_enum_default_exec(reg, f.type_spelling.as_str()) {
                        Ok(n) => Ok(Value::Entity(n)),
                        Err(e) => Err(e),
                    }
                },
                WireSlot::Message(Some(w)) => {
                    match from_wire(reg, f.type_spelling.as_str(), w, b) {
                        Ok(n) => Ok(Value::Entity(n)),
                        Err(e) => Err(e),
                    }
                },
                WireSlot::Message(None) => {
                    let fuel = default_fuel_exec(reg);
                    match default_entity_exec(reg, f.type_spelling.as_str(), fuel) {
                        Some(n) => Ok(Value::Entity(n)),
                        None => Err(MapError::DepthLimit { entity: f.type_spelling.clone() }),
                    }
                },
                _ => Err(MapError::WireShapeMismatch { entity: f.type_spelling.clone() }),
            }
        },
        _ => Err(MapError::WireShapeMismatch { entity: f.type_spelling.clone() }),
    }
}

/// Evaluates the presence predicate on the read wire slot.
fn check_holds_exec(c: &HasValueCheck, sl: &WireSlot) -> (r: bool)
    ensures
        r == check_holds(c@, sl@),
{
    match c {
        HasValueCheck::ScalarHasValue => match sl {
            WireSlot::Scalar(sv) => sv.has_value(),
            _ => false,
        },
        HasValueCheck::HasField(_) => match sl {
            WireSlot::Message(o) => o.is_some(),
            WireSlot::Enum(o) => o.is_some(),
            _ => false,
        },
    }
}

/// The absent value of an optional field, as a built value.
fn none_value_exec(f: &StructField) -> (r: Value)
    ensures
        r@ == none_value(f@),
{
    match &f.ty {
        Ty::Scalar { .. } => Value::OptScalar(None),
        Ty::Other { .. } => Value::OptEntity(None),
    }
}

/// A decoded required value rewrapped as a present optional one.
fn wrap_opt_exec(v: Value) -> (r: Value)
    ensures
        r@ == wrap_opt(v@),
{
    match v {
        Value::Scalar(sv) => Value::OptScalar(Some(sv)),
        Value::Entity(n) => Value::OptEntity(Some(Box::new(n))),
        v => v,
    }
}

/// Evaluates the reading statement of one field on the field's wire slot,
/// producing the domain value the statement builds.
fn eval_read(
    reg: &Vec<ProtoMap>,
    f: &StructField,
    struct_attrs: &StructAttrs,
    slot: Option<&WireSlot>,
    b: Backend,
) -> (r: Result<Value, MapError>)
    ensures
        (match r {
            Ok(v) => dec_field(reg_view(reg@), f@, opt_slot_view(slot), b) == Ok::<
                ValueView,
                MapErrorView,
            >(v@),
            Err(e) => dec_field(reg_view(reg@), f@, opt_slot_view(slot), b) == Err::<
                ValueView,
                MapErrorView,
            >(e@),
        }),
    decreases 4 * oslot_height(opt_slot_view(slot)) + 3, 1int,
{
    let stmt = f.implement_setter(struct_attrs, b);
    match &stmt {
        ReadStmt::DefaultValue { .. } => {
            let fuel = default_fuel_exec(reg);
            match default_field_value_exec(reg, f, fuel) {
                Some(v) => Ok(v),
                None => Err(MapError::DepthLimit { entity: f.type_spelling.clone() }),
            }
        },
        ReadStmt::Convert { method, check, .. } => {
            let default_storage: WireSlot;
            let sl: &WireSlot = match slot {
                Some(s) => s,
                None => {
                    default_storage = crate::encode::default_slot_exec(reg, f, b);
                    &default_storage
                },
            };
            match check {
                None => dec_conv_exec(reg, f, method, sl, b),
                Some(c) => {
                    if check_holds_exec(c, sl) {
                        match dec_conv_exec(reg, f, method, sl, b) {
                            Ok(v) => Ok(wrap_opt_exec(v)),
                            Err(e) => Err(e),
                        }
                    } else {
                        Ok(none_value_exec(f))
                    }
                },
            }
        },
        ReadStmt::FromMember { method, shape, .. } => {
            let default_storage: WireSlot;
            let sl: &WireSlot = match slot {
                Some(s) => s,
                None => {
                    default_storage = crate::encode::default_slot_exec(reg, f, b);
                    &default_storage
                },
            };
            match shape {
                MemberShape::ScalarRequired => dec_conv_exec(reg, f, method, sl, b),
                MemberShape::ScalarOptional => match sl {
                    WireSlot::Scalar(sv) => {
                        if sv.has_value() {
                            match dec_conv_exec(reg, f, method, sl, b) {
                                Ok(v) => Ok(wrap_opt_exec(v)),
                                Err(e) => Err(e),
                            }
                        } else {
                            Ok(none_value_exec(f))
                        }
                    },
                    _ => Err(MapError::WireShapeMismatch { entity: f.type_spelling.clone() }),
                },
                MemberShape::MessageOptional => match sl {
                    WireSlot::Message(Some(w)) => {
                        match from_wire(reg, f.type_spelling.as_str(), w, b) {
                            Ok(n) => Ok(Value::OptEntity(Some(Box::new(n)))),
                            Err(e) => Err(e),
                        }
                    },
                    WireSlot::Message(None) => Ok(Value::OptEntity(None)),
                    _ => Err(MapError::WireShapeMismatch { entity: f.type_spelling.clone() }),
                },
                MemberShape::MessageRequired => match sl {
                    WireSlot::Message(Some(w)) => {
                        match from_wire(reg, f.type_spelling.as_str(), w, b) {
                            Ok(n) => Ok(Value::Entity(n)),
                            Err(e) => Err(e),
                        }
                    },
                    WireSlot::Message(None) => {
                        let fuel = default_fuel_exec(reg);
                        match default_entity_exec(reg, f.type_spelling.as_str(), fuel) {
                            Some(n) => Ok(Value::Entity(n)),
                            None => Err(
                                MapError::DepthLimit { entity: f.type_spelling.clone() },
                            ),
                        }
                    },
                    _ => Err(MapError::WireShapeMismatch { entity: f.type_spelling.clone() }),
                },
            }
        },
    }
}

/// The view of a possibly absent borrowed slot.
pub open spec fn opt_slot_view(slot: Option<&WireSlot>) -> Option<WireSlotView> {
    match slot {
        Some(s) => Some(s@),
        None => None,
    }
}

proof fn lemma_dec_fields_err(
    reg: Seq<ProtoMapView>,
    fs: Seq<StructFieldView>,
    wires: Seq<WireFieldView>,
    b: Backend,
    k: int,
)
    requires
        0 <= k <= fs.len(),
        dec_fields(reg, fs.take(k), wires, b) is Err,
    ensures
        dec_fields(reg, fs, wires, b) == dec_fields(reg, fs.take(k), wires, b),
    decreases fs.len(),
{
    if fs.len() > k {
        assert(fs.drop_last().take(k) =~= fs.take(k));
        lemma_dec_fields_err(reg, fs.drop_last(), wires, b, k);
    } else {
        assert(fs.take(k) =~= fs);
    }
}

/// Decodes one wire value back into the named entity's modeled value, by
/// evaluating the statements the compiler synthesizes for the registered
/// entities. Enumeration values outside the match table, unset or unknown
/// oneof tags, and wire values of the wrong shape come back as named
/// conversion failures; nested failures propagate unchanged.
pub fn from_wire(reg: &Vec<ProtoMap>, entity: &str, w: &WireValue, backend: Backend) -> (r: Result<
    EntityNode,
    MapError,
>)
    ensures
        (match r {
            Ok(n) => dec_entity(reg_view(reg@), entity@, w@, backend) == Ok::<
                EntityNodeView,
                MapErrorView,
            >(n@),
            Err(e) => dec_entity(reg_view(reg@), entity@, w@, backend) == Err::<
                EntityNodeView,
                MapErrorView,
            >(e@),
        }),
    decreases 4 * wire_height(w@) + 2, 1int,
{
    let found = match find_entity(reg, entity) {
        Some(m) => m,
        None => {
            return Err(MapError::MissingEntity { entity: entity.to_owned() });
        },
    };
    match found {
        ProtoMap::Struct(s) => {
            let wires = match w {
                WireValue::Message(m) => &m.fields,
                _ => {
                    return Err(MapError::WireShapeMismatch { entity: entity.to_owned() });
                },
            };
            let ghost fsv = s@.fields;
            let ghost wv = wire_fields_view(wires@);
            proof {
                lemma_wire_fields_view(wires@);
                assert(wire_height(w@) == 1 + wire_fields_height(wv));
            }
            let mut vals: Vec<Value> = Vec::new();
            let mut i: usize = 0;
            while i < s.fields.len()
                invariant
                    i <= s.fields@.len(),
                    fsv == s@.fields,
                    fsv.len() == s.fields@.len(),
                    wv == wire_fields_view(wires@),
                    wire_height(w@) == 1 + wire_fields_height(wv),
                    find_spec(reg_view(reg@), entity@) == Some(ProtoMapView::Struct(s@)),
                    (w@ matches WireValueView::Message(ws) && ws == wv),
                    vals@.len() == i,
                    dec_fields(reg_view(reg@), fsv.take(i as int), wv, backend) matches Ok(vs)
                        && vs =~= crate::value::values_view(vals@),
                decreases s.fields@.len() - i,
            {
                proof {
                    assert(fsv.take(i as int + 1).drop_last() =~= fsv.take(i as int));
                    assert(fsv.take(i as int + 1).last() == fsv[i as int]);
                    assert(fsv[i as int] == s.fields@[i as int]@);
                    lemma_slot_lookup_height(wv, fsv[i as int].wire_name());
                }
                let key = s.fields[i].getter_name();
                let slot = lookup_slot(wires, key.as_str());
                proof {
                    assert(opt_slot_view(slot) == slot_lookup(wv, fsv[i as int].wire_name()));
                }
                match eval_read(reg, &s.fields[i], &s.attrs, slot, backend) {
                    Ok(v) => {
                        let ghost prev = vals@;
                        vals.push(v);
                        proof {
                            crate::value::lemma_values_view(prev);
                            crate::value::lemma_values_view(vals@);
                            assert(crate::value::values_view(vals@) =~= crate::value::values_view(
                                prev,
                            ).push(v@));
                        }
                    },
                    Err(e) => {
                        proof {
                            assert(dec_fields(
                                reg_view(reg@),
                                fsv.take(i as int + 1),
                                wv,
                                backend,
                            ) is Err);
                            lemma_dec_fields_err(reg_view(reg@), fsv, wv, backend, i as int + 1);
                        }
                        return Err(e);
                    },
                }
                i += 1;
            }
            proof {
                assert(fsv.take(fsv.len() as int) =~= fsv);
            }
            Ok(EntityNode { entity: entity.to_owned(), data: EntityData::Record(vals) })
        },
        ProtoMap::Enum(en) => {
            if en.attrs.is_enumeration() {
                match backend {
                    Backend::Protobuf => match w {
                        WireValue::Enumeration { name, .. } => dec_enum_name_exec(
                            reg,
                            entity,
                            name.as_str(),
                        ),
                        _ => Err(MapError::WireShapeMismatch { entity: entity.to_owned() }),
                    },
                    Backend::Prost => match w {
                        WireValue::Scalar(ScalarValue::I32(code)) => dec_enum_code_exec(
                            reg,
                            entity,
                            *code,
                        ),
                        _ => Err(MapError::WireShapeMismatch { entity: entity.to_owned() }),
                    },
                }
            } else {
                let t = match w {
                    WireValue::OneOf { tag: Some(t), .. } => t,
                    WireValue::OneOf { tag: None, .. } => {
                        return Err(MapError::NoOneOfValue { entity: entity.to_owned() });
                    },
                    _ => {
                        return Err(MapError::WireShapeMismatch { entity: entity.to_owned() });
                    },
                };
                let mut i: usize = 0;
                while i < en.variants.len()
                    invariant
                        i <= en.variants@.len(),
                        en@.variants.len() == en.variants@.len(),
                        find_spec(reg_view(reg@), entity@) == Some(ProtoMapView::Enum(en@)),
                        !en@.attrs.is_enumeration(),
                        (w@ matches WireValueView::OneOf { tag: Some(tv), .. } && tv.variant
                            == t.variant@ && *tv.value == t.value@),
                        variant_by_name(en@, t.variant@, 0) == variant_by_name(
                            en@,
                            t.variant@,
                            i as int,
                        ),
                    decreases en.variants@.len() - i,
                {
                    proof {
                        assert(en@.variants[i as int] == en.variants@[i as int]@);
                    }
                    if str_eq(en.variants[i].name.as_str(), t.variant.as_str()) {
                        match &en.variants[i].field_name {
                            Some(p) => {
                                let spelled = scan(p).to_string();
                                proof {
                                    assert(wire_height(w@) == 1 + wire_height(t.value@));
                                }
                                match from_wire(reg, spelled.as_str(), &t.value, backend) {
                                    Ok(payload) => {
                                        return Ok(
                                            EntityNode {
                                                entity: entity.to_owned(),
                                                data: EntityData::Tag(i, Box::new(payload)),
                                            },
                                        );
                                    },
                                    Err(e) => {
                                        return Err(e);
                                    },
                                }
                            },
                            None => {
                                return Err(
                                    MapError::NoOneOfValue { entity: entity.to_owned() },
                                );
                            },
                        }
                    }
                    i += 1;
                }
                Err(MapError::NoOneOfValue { entity: entity.to_owned() })
            }
        },
    }
}

} // verus!
