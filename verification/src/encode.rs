use vstd::prelude::*;

verus! {

use crate::attributes::StructAttrs;
use crate::code::{Backend, ConvMethod, ConvMethodView, WriteStmt};
use crate::proto_enum::proto_variant_name_spec;
use crate::proto_map::{ProtoMap, ProtoMapView};
use crate::proto_struct::{StructField, StructFieldView};
use crate::strategy::method_spec;
use crate::ty::Ty;
use crate::value::{
    default_of, find_spec, lemma_values_height, lemma_values_view, node_height, node_view,
    reg_view, value_height, values_height, values_view, EntityData, EntityNode, EntityNodeView,
    EntityDataView, ScalarValue, ScalarValueView, Value, ValueView, WireField, WireFieldView,
    WireMessage, WireSlot, WireSlotView, WireTag, WireTagView, WireValue, WireValueView,
};

/// The wire value an encoding produces on input outside its domain: an empty
/// message. The conformance conditions of the round-trip laws rule such
/// inputs out.
pub open spec fn junk_wire() -> WireValueView {
    WireValueView::Message(Seq::empty())
}

/// The wire slot an encoding produces for a field outside its domain.
pub open spec fn junk_slot() -> WireSlotView {
    WireSlotView::Scalar(ScalarValueView::Bool(false))
}

/// The wire slot a field holds when nothing was written into it: the kind's
/// default for a scalar member, a plain numeric zero for an enumeration code
/// under the field convention, and the unset state for an enumeration or
/// nullable composite member under the accessor convention.
pub open spec fn default_slot(reg: Seq<ProtoMapView>, f: StructFieldView, b: Backend) -> WireSlotView {
    match b {
        Backend::Prost => if f.scalar_like() {
            if f.attrs matches Some(a) && a.enumeration {
                WireSlotView::Scalar(ScalarValueView::I32(0i32))
            } else {
                match f.ty {
                    Ty::Scalar { ty, .. } => WireSlotView::Scalar(default_of(ty)),
                    Ty::Other { .. } => junk_slot(),
                }
            }
        } else {
            WireSlotView::Message(None)
        },
        Backend::Protobuf => match f.ty {
            Ty::Scalar { ty, .. } => WireSlotView::Scalar(default_of(ty)),
            Ty::Other { .. } => match find_spec(reg, f.type_spelling) {
                Some(ProtoMapView::Enum(en)) => if en.attrs.is_enumeration() {
                    WireSlotView::Enum(None)
                } else {
                    WireSlotView::Message(None)
                },
                _ => WireSlotView::Message(None),
            },
        },
    }
}

/// What the built-in scalar codec writes for an unwrapped scalar value.
pub open spec fn enc_scalar_inner(m: ConvMethodView, sv: ScalarValueView) -> WireSlotView {
    match m {
        ConvMethodView::BuiltinScalar => WireSlotView::Scalar(sv),
        _ => junk_slot(),
    }
}

/// What the selected conversion writes for an unwrapped entity value: the
/// entity's own encoding, carried as a plain code (scalar-shaped), a wire
/// enumeration member, or a present composite member.
pub open spec fn enc_entity_inner(
    reg: Seq<ProtoMapView>,
    m: ConvMethodView,
    n: EntityNodeView,
    b: Backend,
) -> WireSlotView
    decreases node_height(n), 3int, 0int,
{
    match m {
        ConvMethodView::BuiltinScalar => match enc_entity(reg, n, b) {
            WireValueView::Scalar(sv) => WireSlotView::Scalar(sv),
            _ => junk_slot(),
        },
        ConvMethodView::BuiltinProto => match enc_entity(reg, n, b) {
            WireValueView::Enumeration { name, code } => WireSlotView::Enum(
                Some(crate::value::WireEnumView { name, code }),
            ),
            w => WireSlotView::Message(Some(Box::new(w))),
        },
        _ => junk_slot(),
    }
}

/// What the writing statement of one field leaves in the field's wire slot:
/// nothing (the default) for a skipped field or an absent optional value, and
/// the converted value otherwise.
pub open spec fn enc_field(
    reg: Seq<ProtoMapView>,
    f: StructFieldView,
    v: ValueView,
    b: Backend,
) -> WireSlotView
    decreases value_height(v), 1int, 0int,
{
    if f.skipped() {
        default_slot(reg, f, b)
    } else {
        let m = method_spec(f.ty, f.attrs, b);
        if f.ty.is_optional_spec() {
            match v {
                ValueView::OptScalar(None) => default_slot(reg, f, b),
                ValueView::OptEntity(None) => default_slot(reg, f, b),
                ValueView::OptScalar(Some(sv)) => enc_scalar_inner(m, sv),
                ValueView::OptEntity(Some(n)) => enc_entity_inner(reg, m, n, b),
                _ => junk_slot(),
            }
        } else {
            match v {
                ValueView::Scalar(sv) => enc_scalar_inner(m, sv),
                ValueView::Entity(n) => enc_entity_inner(reg, m, n, b),
                _ => junk_slot(),
            }
        }
    }
}

/// The wire fields a record's writing direction produces: one slot per field,
/// keyed by the field's wire name, in declaration order.
pub open spec fn enc_fields(
    reg: Seq<ProtoMapView>,
    fs: Seq<StructFieldView>,
    vals: Seq<ValueView>,
    b: Backend,
) -> Seq<WireFieldView>
    decreases values_height(vals), 1int, fs.len(),
{
    if fs.len() == 0 || vals.len() != fs.len() {
        Seq::empty()
    } else {
        enc_fields(reg, fs.drop_last(), vals.drop_last(), b).push(
            WireFieldView {
                name: fs.last().wire_name(),
                slot: enc_field(reg, fs.last(), vals.last(), b),
            },
        )
    }
}

/// What encoding one entity value yields: a message with one slot per field
/// for a record; the renamed wire variant (accessor convention) or its plain
/// numeric code (field convention) for an enumeration; the tagged union with
/// exactly its one tag set for a oneof. A value that does not fit its
/// registered entity yields the junk message.
pub open spec fn enc_entity(reg: Seq<ProtoMapView>, e: EntityNodeView, b: Backend) -> WireValueView
    decreases node_height(e), 2int, 0int,
{
    match find_spec(reg, e.entity) {
        Some(ProtoMapView::Struct(s)) => match e.data {
            EntityDataView::Record(vals) => if vals.len() == s.fields.len() {
                WireValueView::Message(enc_fields(reg, s.fields, vals, b))
            } else {
                junk_wire()
            },
            _ => junk_wire(),
        },
        Some(ProtoMapView::Enum(en)) => if en.attrs.is_enumeration() {
            match e.data {
                EntityDataView::Choice(i) => if en.rename_ok() && 0 <= i < en.variants.len() && i
                    <= 0x7fff_ffff {
                    match b {
                        Backend::Protobuf => WireValueView::Enumeration {
                            name: proto_variant_name_spec(en.attrs, en.variants[i].name),
                            code: i as i32,
                        },
                        Backend::Prost => WireValueView::Scalar(ScalarValueView::I32(i as i32)),
                    }
                } else {
                    junk_wire()
                },
                _ => junk_wire(),
            }
        } else {
            match e.data {
                EntityDataView::Tag(i, p) => if en.attrs.one_of is Some && 0 <= i
                    < en.variants.len() {
                    WireValueView::OneOf {
                        field: en.attrs.one_of->0,
                        tag: Some(
                            WireTagView {
                                variant: en.variants[i].name,
                                value: Box::new(enc_entity(reg, *p, b)),
                            },
                        ),
                    }
                } else {
                    junk_wire()
                },
                _ => junk_wire(),
            }
        },
        None => junk_wire(),
    }
}

proof fn lemma_enc_fields_step(
    reg: Seq<ProtoMapView>,
    fs: Seq<StructFieldView>,
    vals: Seq<ValueView>,
    b: Backend,
    i: int,
)
    requires
        0 <= i < fs.len(),
        vals.len() == fs.len(),
    ensures
        enc_fields(reg, fs.take(i + 1), vals.take(i + 1), b) == enc_fields(
            reg,
            fs.take(i),
            vals.take(i),
            b,
        ).push(
            WireFieldView { name: fs[i].wire_name(), slot: enc_field(reg, fs[i], vals[i], b) },
        ),
{
    assert(fs.take(i + 1).drop_last() =~= fs.take(i));
    assert(vals.take(i + 1).drop_last() =~= vals.take(i));
    assert(fs.take(i + 1).last() == fs[i]);
    assert(vals.take(i + 1).last() == vals[i]);
}

/// The junk wire value, as a built value.
fn junk_wire_exec() -> (r: WireValue)
    ensures
        r@ == junk_wire(),
{
    let r = WireValue::Message(WireMessage { fields: Vec::new() });
    proof {
        assert(crate::value::wire_fields_view(Seq::<WireField>::empty()) =~= Seq::<
            WireFieldView,
        >::empty());
    }
    r
}

/// The default slot of a field, as a built value.
pub(crate) fn default_slot_exec(reg: &Vec<ProtoMap>, f: &StructField, b: Backend) -> (r: WireSlot)
    ensures
        r@ == default_slot(reg_view(reg@), f@, b),
{
    match b {
        Backend::Prost => {
            if f.is_scalar_like() {
                let enum_marked = match &f.attrs {
                    Some(a) => a.enumeration,
                    None => false,
                };
                if enum_marked {
                    WireSlot::Scalar(ScalarValue::I32(0))
                } else {
                    match &f.ty {
                        Ty::Scalar { ty, .. } => match ScalarValue::default_value(*ty) {
                            Some(v) => WireSlot::Scalar(v),
                            None => WireSlot::Scalar(ScalarValue::Bool(false)),
                        },
                        Ty::Other { .. } => WireSlot::Scalar(ScalarValue::Bool(false)),
                    }
                }
            } else {
                WireSlot::Message(None)
            }
        },
        Backend::Protobuf => {
            match &f.ty {
                Ty::Scalar { ty, .. } => match ScalarValue::default_value(*ty) {
                    Some(v) => WireSlot::Scalar(v),
                    None => WireSlot::Scalar(ScalarValue::Bool(false)),
                },
                Ty::Other { .. } => {
                    match crate::value::find_entity(reg, f.type_spelling.as_str()) {
                        Some(ProtoMap::Enum(en)) => {
                            if en.attrs.is_enumeration() {
                                WireSlot::Enum(None)
                            } else {
                                WireSlot::Message(None)
                            }
                        },
                        _ => WireSlot::Message(None),
                    }
                },
            }
        },
    }
}

/// Encodes one unwrapped field value into its wire slot by the selected
/// conversion.
fn eval_inner(reg: &Vec<ProtoMap>, method: &ConvMethod, v: &Value, b: Backend) -> (r: WireSlot)
    ensures
        (match v@ {
            ValueView::Scalar(sv) => r@ == enc_scalar_inner(method@, sv),
            ValueView::OptScalar(Some(sv)) => r@ == enc_scalar_inner(method@, sv),
            ValueView::Entity(n) => r@ == enc_entity_inner(reg_view(reg@), method@, n, b),
            ValueView::OptEntity(Some(n)) => r@ == enc_entity_inner(reg_view(reg@), method@, n, b),
            _ => r@ == junk_slot(),
        }),
    decreases value_height(v@), 2int, 0int,
{
    let node: &EntityNode = match v {
        Value::Scalar(sv) => {
            return match method {
                ConvMethod::BuiltinScalar => WireSlot::Scalar(sv.duplicate()),
                _ => WireSlot::Scalar(ScalarValue::Bool(false)),
            };
        },
        Value::OptScalar(Some(sv)) => {
            return match method {
                ConvMethod::BuiltinScalar => WireSlot::Scalar(sv.duplicate()),
                _ => WireSlot::Scalar(ScalarValue::Bool(false)),
            };
        },
        Value::Entity(n) => n,
        Value::OptEntity(Some(n)) => n,
        _ => {
            return WireSlot::Scalar(ScalarValue::Bool(false));
        },
    };
    proof {
        assert(value_height(v@) == 1 + node_height(node@));
    }
    match method {
        ConvMethod::BuiltinScalar => {
            let w = to_wire(reg, node, b);
            match w {
                WireValue::Scalar(sv) => WireSlot::Scalar(sv),
                _ => WireSlot::Scalar(ScalarValue::Bool(false)),
            }
        },
        ConvMethod::BuiltinProto => {
            let w = to_wire(reg, node, b);
            match w {
                WireValue::Enumeration { name, code } => WireSlot::Enum(
                    Some(crate::value::WireEnum { name, code }),
                ),
                w => WireSlot::Message(Some(Box::new(w))),
            }
        },
        _ => WireSlot::Scalar(ScalarValue::Bool(false)),
    }
}

/// Evaluates the writing statement of one field on the field's domain value,
/// producing the wire slot the statement leaves behind.
fn eval_write(
    reg: &Vec<ProtoMap>,
    f: &StructField,
    struct_attrs: &StructAttrs,
    v: &Value,
    b: Backend,
) -> (r: WireSlot)
    ensures
        r@ == enc_field(reg_view(reg@), f@, v@, b),
    decreases value_height(v@), 3int, 0int,
{
    let stmt = f.implement_getter(struct_attrs, b);
    let (method, guarded) = match &stmt {
        WriteStmt::Empty => {
            return default_slot_exec(reg, f, b);
        },
        WriteStmt::CallSetter { method, guarded, .. } => (method, *guarded),
        WriteStmt::Assign { method, guarded, .. } => (method, *guarded),
    };
    if guarded {
        match v {
            Value::OptScalar(None) => default_slot_exec(reg, f, b),
            Value::OptEntity(None) => default_slot_exec(reg, f, b),
            Value::OptScalar(Some(_)) => eval_inner(reg, method, v, b),
            Value::OptEntity(Some(_)) => eval_inner(reg, method, v, b),
            _ => WireSlot::Scalar(ScalarValue::Bool(false)),
        }
    } else {
        match v {
            Value::Scalar(_) => eval_inner(reg, method, v, b),
            Value::Entity(_) => eval_inner(reg, method, v, b),
            _ => WireSlot::Scalar(ScalarValue::Bool(false)),
        }
    }
}

/// Encodes one modeled entity value to its wire value under the given backend
/// convention, by evaluating the statements the compiler synthesizes for the
/// registered entities. The encoding is total: a value that does not fit its
/// registered entity encodes to the junk message, which the round-trip laws'
/// conformance conditions rule out.
pub fn to_wire(reg: &Vec<ProtoMap>, e: &EntityNode, backend: Backend) -> (r: WireValue)
    ensures
        r@ == enc_entity(reg_view(reg@), e@, backend),
    decreases node_height(e@), 2int, 1int,
{
    let found = crate::value::find_entity(reg, e.entity.as_str());
    let found = match found {
        Some(m) => m,
        None => {
            return junk_wire_exec();
        },
    };
    match found {
        ProtoMap::Struct(s) => {
            let vals = match &e.data {
                EntityData::Record(vals) => vals,
                _ => {
                    return junk_wire_exec();
                },
            };
            proof {
                lemma_values_view(vals@);
            }
            if vals.len() != s.fields.len() {
                return junk_wire_exec();
            }
            proof {
                assert(node_height(e@) == 1 + values_height(values_view(vals@)));
            }
            let ghost fsv: Seq<StructFieldView> = s@.fields;
            let ghost vv: Seq<ValueView> = values_view(vals@);
            let mut out: Vec<WireField> = Vec::new();
            let mut i: usize = 0;
            while i < s.fields.len()
                invariant
                    i <= s.fields@.len(),
                    vals@.len() == s.fields@.len(),
                    fsv == s@.fields,
                    fsv.len() == s.fields@.len(),
                    vv == values_view(vals@),
                    vv.len() == vals@.len(),
                    forall|j: int| 0 <= j < vals@.len() ==> vv[j] == crate::value::value_view(
                        vals@[j],
                    ),
                    node_height(e@) == 1 + values_height(vv),
                    out@.len() == i,
                    crate::value::wire_fields_view(out@) =~= enc_fields(
                        reg_view(reg@),
                        fsv.take(i as int),
                        vv.take(i as int),
                        backend,
                    ),
                decreases s.fields@.len() - i,
            {
                proof {
                    lemma_values_height(vv, i as int);
                }
                let slot = eval_write(reg, &s.fields[i], &s.attrs, &vals[i], backend);
                let name = s.fields[i].getter_name();
                let ghost prev: Seq<WireField> = out@;
                out.push(WireField { name, slot });
                proof {
                    crate::value::lemma_wire_fields_view(prev);
                    crate::value::lemma_wire_fields_view(out@);
                    assert(fsv[i as int] == s.fields@[i as int]@);
                    assert(vv[i as int] == vals@[i as int]@);
                    lemma_enc_fields_step(reg_view(reg@), fsv, vv, backend, i as int);
                    assert(crate::value::wire_fields_view(out@) =~= enc_fields(
                        reg_view(reg@),
                        fsv.take(i as int + 1),
                        vv.take(i as int + 1),
                        backend,
                    ));
                }
                i += 1;
            }
            proof {
                assert(fsv.take(fsv.len() as int) =~= fsv);
                assert(vv.take(vv.len() as int) =~= vv);
            }
            WireValue::Message(WireMessage { fields: out })
        },
        ProtoMap::Enum(en) => {
            if en.attrs.is_enumeration() {
                let i = match &e.data {
                    EntityData::Choice(i) => *i,
                    _ => {
                        return junk_wire_exec();
                    },
                };
                if en.rename_valid() && i < en.variants.len() && i <= 0x7fff_ffff {
                    let code: i32 = i as i32;
                    match backend {
                        Backend::Protobuf => {
                            let name = en.get_proto_variant_name(&en.variants[i]);
                            WireValue::Enumeration { name, code }
                        },
                        Backend::Prost => WireValue::Scalar(ScalarValue::I32(code)),
                    }
                } else {
                    junk_wire_exec()
                }
            } else {
                let (i, payload) = match &e.data {
                    EntityData::Tag(i, p) => (*i, p),
                    _ => {
                        return junk_wire_exec();
                    },
                };
                let one_of_field = match &en.attrs.one_of {
                    Some(o) => o.field.clone(),
                    None => {
                        return junk_wire_exec();
                    },
                };
                if i < en.variants.len() {
                    proof {
                        assert(node_height(e@) == 1 + node_height(node_view(**payload)));
                    }
                    let inner = to_wire(reg, payload, backend);
                    WireValue::OneOf {
                        field: one_of_field,
                        tag: Some(
                            WireTag {
                                variant: en.variants[i].name.clone(),
                                value: Box::new(inner),
                            },
                        ),
                    }
                } else {
                    junk_wire_exec()
                }
            }
        },
    }
}

} // verus!
