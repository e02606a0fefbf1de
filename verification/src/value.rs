use vstd::prelude::*;

verus! {

use crate::input::str_eq;
use crate::proto_map::{ProtoMap, ProtoMapView};
use crate::proto_mapper::ProtoScalar;
use crate::ty::ScalarType;

/// One wire scalar value; the float kinds carry no modeled value and never
/// appear here.
#[derive(Debug, PartialEq)]
pub enum ScalarValue {
    Bool(bool),
    U32(u32),
    I32(i32),
    U64(u64),
    I64(i64),
    Text(String),
    Bytes(Vec<u8>),
}

/// The mathematical shape of a `ScalarValue`.
pub enum ScalarValueView {
    Bool(bool),
    U32(u32),
    I32(i32),
    U64(u64),
    I64(i64),
    Text(Seq<char>),
    Bytes(Seq<u8>),
}

impl View for ScalarValue {
    type V = ScalarValueView;

    open spec fn view(&self) -> ScalarValueView {
        match self {
            ScalarValue::Bool(b) => ScalarValueView::Bool(*b),
            ScalarValue::U32(v) => ScalarValueView::U32(*v),
            ScalarValue::I32(v) => ScalarValueView::I32(*v),
            ScalarValue::U64(v) => ScalarValueView::U64(*v),
            ScalarValue::I64(v) => ScalarValueView::I64(*v),
            ScalarValue::Text(s) => ScalarValueView::Text(s@),
            ScalarValue::Bytes(b) => ScalarValueView::Bytes(b@),
        }
    }
}

impl ScalarValueView {
    /// Whether the value counts as present: zero, false and empty are absent.
    pub open spec fn has_value(self) -> bool {
        match self {
            ScalarValueView::Bool(b) => b,
            ScalarValueView::U32(v) => v != 0u32,
            ScalarValueView::I32(v) => v != 0i32,
            ScalarValueView::U64(v) => v != 0u64,
            ScalarValueView::I64(v) => v != 0i64,
            ScalarValueView::Text(s) => s.len() != 0,
            ScalarValueView::Bytes(b) => b.len() != 0,
        }
    }

    /// The scalar kind the value belongs to.
    pub open spec fn kind(self) -> ScalarType {
        match self {
            ScalarValueView::Bool(_) => ScalarType::Bool,
            ScalarValueView::U32(_) => ScalarType::U32,
            ScalarValueView::I32(_) => ScalarType::I32,
            ScalarValueView::U64(_) => ScalarType::U64,
            ScalarValueView::I64(_) => ScalarType::I64,
            ScalarValueView::Text(_) => ScalarType::String,
            ScalarValueView::Bytes(_) => ScalarType::VecBytes,
        }
    }
}

/// Whether a scalar kind is a float kind: such a field can be classified and
/// codegen emitted for it, but no modeled value of it exists here.
pub open spec fn is_float_kind(k: ScalarType) -> bool {
    k == ScalarType::F32 || k == ScalarType::F64
}

/// The default value of a non-float scalar kind: zero, false or empty.
pub open spec fn default_of(k: ScalarType) -> ScalarValueView {
    match k {
        ScalarType::Bool => ScalarValueView::Bool(false),
        ScalarType::U32 => ScalarValueView::U32(0u32),
        ScalarType::I32 => ScalarValueView::I32(0i32),
        ScalarType::U64 => ScalarValueView::U64(0u64),
        ScalarType::I64 => ScalarValueView::I64(0i64),
        ScalarType::String => ScalarValueView::Text(Seq::empty()),
        ScalarType::VecBytes => ScalarValueView::Bytes(Seq::empty()),
        _ => ScalarValueView::Bool(false),
    }
}

impl ScalarValue {
    /// Copies the scalar; the copy holds the same value.
    pub fn duplicate(&self) -> (r: ScalarValue)
        ensures
            r@ == self@,
    {
        match self {
            ScalarValue::Bool(b) => ScalarValue::Bool(*b),
            ScalarValue::U32(v) => ScalarValue::U32(*v),
            ScalarValue::I32(v) => ScalarValue::I32(*v),
            ScalarValue::U64(v) => ScalarValue::U64(*v),
            ScalarValue::I64(v) => ScalarValue::I64(*v),
            ScalarValue::Text(s) => ScalarValue::Text(s.clone()),
            ScalarValue::Bytes(b) => {
                let c = b.clone();
                proof {
                    assert(c@ =~= b@);
                }
                ScalarValue::Bytes(c)
            },
        }
    }

    /// Whether the value counts as present, by the wire scalars' own
    /// has-value predicates.
    pub fn has_value(&self) -> (r: bool)
        ensures
            r == self@.has_value(),
    {
        match self {
            ScalarValue::Bool(b) => ProtoScalar::has_value(b),
            ScalarValue::U32(v) => ProtoScalar::has_value(v),
            ScalarValue::I32(v) => ProtoScalar::has_value(v),
            ScalarValue::U64(v) => ProtoScalar::has_value(v),
            ScalarValue::I64(v) => ProtoScalar::has_value(v),
            ScalarValue::Text(s) => ProtoScalar::has_value(s),
            ScalarValue::Bytes(b) => ProtoScalar::has_value(b),
        }
    }

    /// The default value of a non-float scalar kind; the float kinds have no
    /// modeled value.
    pub fn default_value(kind: ScalarType) -> (r: Option<ScalarValue>)
        ensures
            !is_float_kind(kind) ==> (r matches Some(v) && v@ == default_of(kind)),
            is_float_kind(kind) ==> r is None,
    {
        match kind {
            ScalarType::Bool => Some(ScalarValue::Bool(false)),
            ScalarType::U32 => Some(ScalarValue::U32(0)),
            ScalarType::I32 => Some(ScalarValue::I32(0)),
            ScalarType::U64 => Some(ScalarValue::U64(0)),
            ScalarType::I64 => Some(ScalarValue::I64(0)),
            ScalarType::String => {
                let s = String::new();
                proof {
                    assert(s@ =~= Seq::<char>::empty());
                }
                Some(ScalarValue::Text(s))
            },
            ScalarType::VecBytes => {
                let b: Vec<u8> = Vec::new();
                proof {
                    assert(b@ =~= Seq::<u8>::empty());
                }
                Some(ScalarValue::Bytes(b))
            },
            ScalarType::F32 => None,
            ScalarType::F64 => None,
        }
    }
}

/// One modeled domain value standing in a record field: a scalar, an optional
/// scalar, a nested entity, or an optional nested entity.
#[derive(Debug, PartialEq)]
pub enum Value {
    Scalar(ScalarValue),
    OptScalar(Option<ScalarValue>),
    Entity(EntityNode),
    OptEntity(Option<Box<EntityNode>>),
}

/// One modeled domain entity value: the entity's name, and its record fields,
/// enumeration choice, or tagged payload.
#[derive(Debug, PartialEq)]
pub struct EntityNode {
    pub entity: String,
    pub data: EntityData,
}

/// The payload of an `EntityNode`.
#[derive(Debug, PartialEq)]
pub enum EntityData {
    /// A record value: one field value per schema field, in declaration
    /// order.
    Record(Vec<Value>),
    /// An enumeration value: the index of its variant.
    Choice(usize),
    /// A oneof value: the index of its variant and the payload entity.
    Tag(usize, Box<EntityNode>),
}

/// The mathematical shape of a `Value`.
pub enum ValueView {
    Scalar(ScalarValueView),
    OptScalar(Option<ScalarValueView>),
    Entity(EntityNodeView),
    OptEntity(Option<EntityNodeView>),
}

/// The mathematical shape of an `EntityNode`.
pub struct EntityNodeView {
    pub entity: Seq<char>,
    pub data: EntityDataView,
}

/// The mathematical shape of an `EntityData`.
pub enum EntityDataView {
    Record(Seq<ValueView>),
    Choice(int),
    Tag(int, Box<EntityNodeView>),
}

pub open spec fn value_view(v: Value) -> ValueView
    decreases v,
{
    match v {
        Value::Scalar(s) => ValueView::Scalar(s@),
        Value::OptScalar(o) => ValueView::OptScalar(
            match o {
                Some(s) => Some(s@),
                None => None,
            },
        ),
        Value::Entity(n) => ValueView::Entity(node_view(n)),
        Value::OptEntity(o) => ValueView::OptEntity(
            match o {
                Some(n) => Some(node_view(*n)),
                None => None,
            },
        ),
    }
}

pub open spec fn node_view(n: EntityNode) -> EntityNodeView
    decreases n,
{
    EntityNodeView {
        entity: n.entity@,
        data: match n.data {
            EntityData::Record(vs) => EntityDataView::Record(values_view(vs@)),
            EntityData::Choice(i) => EntityDataView::Choice(i as int),
            EntityData::Tag(i, p) => EntityDataView::Tag(i as int, Box::new(node_view(*p))),
        },
    }
}

pub open spec fn values_view(s: Seq<Value>) -> Seq<ValueView>
    decreases s,
{
    if s.len() == 0 {
        Seq::empty()
    } else {
        values_view(s.drop_last()).push(value_view(s.last()))
    }
}

pub broadcast proof fn lemma_values_view(s: Seq<Value>)
    ensures
        (#[trigger] values_view(s)).len() == s.len(),
        forall|i: int| 0 <= i < s.len() ==> values_view(s)[i] == value_view(s[i]),
    decreases s,
{
    if s.len() > 0 {
        lemma_values_view(s.drop_last());
    }
}

impl View for Value {
    type V = ValueView;

    open spec fn view(&self) -> ValueView {
        value_view(*self)
    }
}

impl View for EntityNode {
    type V = EntityNodeView;

    open spec fn view(&self) -> EntityNodeView {
        node_view(*self)
    }
}

/// The height of a value, for termination measures.
pub open spec fn value_height(v: ValueView) -> nat
    decreases v,
{
    match v {
        ValueView::Scalar(_) => 1,
        ValueView::OptScalar(_) => 1,
        ValueView::Entity(n) => 1 + node_height(n),
        ValueView::OptEntity(o) => match o {
            Some(n) => 1 + node_height(n),
            None => 1,
        },
    }
}

pub open spec fn node_height(n: EntityNodeView) -> nat
    decreases n,
{
    match n.data {
        EntityDataView::Record(vs) => 1 + values_height(vs),
        EntityDataView::Choice(_) => 1,
        EntityDataView::Tag(_, p) => 1 + node_height(*p),
    }
}

pub open spec fn values_height(s: Seq<ValueView>) -> nat
    decreases s,
{
    if s.len() == 0 {
        0
    } else if values_height(s.drop_last()) > value_height(s.last()) {
        values_height(s.drop_last())
    } else {
        value_height(s.last())
    }
}

pub proof fn lemma_values_height(s: Seq<ValueView>, i: int)
    requires
        0 <= i < s.len(),
    ensures
        value_height(s[i]) <= values_height(s),
    decreases s,
{
    if i < s.len() - 1 {
        assert(s.drop_last()[i] == s[i]);
        lemma_values_height(s.drop_last(), i);
    }
}

pub proof fn lemma_values_height_prefix(s: Seq<ValueView>, i: int)
    requires
        0 <= i <= s.len(),
    ensures
        values_height(s.take(i)) <= values_height(s),
    decreases s.len() - i,
{
    if i < s.len() {
        assert(s.take(i + 1).drop_last() =~= s.take(i));
        assert(s.take(i + 1).last() == s[i]);
        lemma_values_height_prefix(s, i + 1);
    } else {
        assert(s.take(i) =~= s);
    }
}

/// A wire enumeration value as a member carries it: its wire-side name with
/// its numeric code. The model assigns codes by declaration index, as a
/// schema with sequential discriminants does.
#[derive(Debug, PartialEq)]
pub struct WireEnum {
    pub name: String,
    pub code: i32,
}

/// The mathematical shape of a `WireEnum`.
pub struct WireEnumView {
    pub name: Seq<char>,
    pub code: i32,
}

impl View for WireEnum {
    type V = WireEnumView;

    open spec fn view(&self) -> WireEnumView {
        WireEnumView { name: self.name@, code: self.code }
    }
}

/// One wire field slot: a plain scalar member, an enumeration member (the
/// wire accessors carry its presence, and reading an unset member yields the
/// wire enumeration's default value), or a nullable composite member.
#[derive(Debug, PartialEq)]
pub enum WireSlot {
    Scalar(ScalarValue),
    Enum(Option<WireEnum>),
    Message(Option<Box<WireValue>>),
}

/// One named field of a wire message.
#[derive(Debug, PartialEq)]
pub struct WireField {
    pub name: String,
    pub slot: WireSlot,
}

/// A wire message value: its fields by wire name, in the mapped entity's
/// declaration order.
#[derive(Debug, PartialEq)]
pub struct WireMessage {
    pub fields: Vec<WireField>,
}

/// A tagged-union wire value's tag: the wire variant set (named by the domain
/// variant it corresponds to) and its payload.
#[derive(Debug, PartialEq)]
pub struct WireTag {
    pub variant: String,
    pub value: Box<WireValue>,
}

/// One modeled wire value: a message, a wire enumeration value (accessor
/// convention), a plain scalar (an enumeration under the field convention
/// travels as its numeric code), or a message holding one tagged-union field.
#[derive(Debug, PartialEq)]
pub enum WireValue {
    Message(WireMessage),
    Enumeration { name: String, code: i32 },
    Scalar(ScalarValue),
    OneOf { field: String, tag: Option<WireTag> },
}

/// The mathematical shapes of the wire values.
pub enum WireSlotView {
    Scalar(ScalarValueView),
    Enum(Option<WireEnumView>),
    Message(Option<Box<WireValueView>>),
}

#[verifier::ext_equal]
pub struct WireFieldView {
    pub name: Seq<char>,
    pub slot: WireSlotView,
}

pub struct WireTagView {
    pub variant: Seq<char>,
    pub value: Box<WireValueView>,
}

pub enum WireValueView {
    Message(Seq<WireFieldView>),
    Enumeration { name: Seq<char>, code: i32 },
    Scalar(ScalarValueView),
    OneOf { field: Seq<char>, tag: Option<WireTagView> },
}

pub open spec fn wire_view(w: WireValue) -> WireValueView
    decreases w,
{
    match w {
        WireValue::Message(m) => WireValueView::Message(wire_fields_view(m.fields@)),
        WireValue::Enumeration { name, code } => WireValueView::Enumeration { name: name@, code },
        WireValue::Scalar(s) => WireValueView::Scalar(s@),
        WireValue::OneOf { field, tag } => WireValueView::OneOf {
            field: field@,
            tag: match tag {
                Some(t) => Some(WireTagView { variant: t.variant@, value: Box::new(wire_view(*t.value)) }),
                None => None,
            },
        },
    }
}

pub open spec fn wire_slot_view(s: WireSlot) -> WireSlotView
    decreases s,
{
    match s {
        WireSlot::Scalar(v) => WireSlotView::Scalar(v@),
        WireSlot::Enum(o) => WireSlotView::Enum(
            match o {
                Some(e) => Some(e@),
                None => None,
            },
        ),
        WireSlot::Message(o) => WireSlotView::Message(
            match o {
                Some(w) => Some(Box::new(wire_view(*w))),
                None => None,
            },
        ),
    }
}

pub open spec fn wire_fields_view(s: Seq<WireField>) -> Seq<WireFieldView>
    decreases s,
{
    if s.len() == 0 {
        Seq::empty()
    } else {
        wire_fields_view(s.drop_last()).push(
            WireFieldView { name: s.last().name@, slot: wire_slot_view(s.last().slot) },
        )
    }
}

pub broadcast proof fn lemma_wire_fields_view(s: Seq<WireField>)
    ensures
        (#[trigger] wire_fields_view(s)).len() == s.len(),
        forall|i: int| 0 <= i < s.len() ==> wire_fields_view(s)[i] == (WireFieldView {
            name: s[i].name@,
            slot: wire_slot_view(s[i].slot),
        }),
    decreases s,
{
    if s.len() > 0 {
        lemma_wire_fields_view(s.drop_last());
    }
}

impl View for WireValue {
    type V = WireValueView;

    open spec fn view(&self) -> WireValueView {
        wire_view(*self)
    }
}

impl View for WireSlot {
    type V = WireSlotView;

    open spec fn view(&self) -> WireSlotView {
        wire_slot_view(*self)
    }
}

/// The height of a wire value, for termination measures.
pub open spec fn wire_height(w: WireValueView) -> nat
    decreases w,
{
    match w {
        WireValueView::Message(fs) => 1 + wire_fields_height(fs),
        WireValueView::Enumeration { .. } => 1,
        WireValueView::Scalar(_) => 1,
        WireValueView::OneOf { tag, .. } => match tag {
            Some(t) => 1 + wire_height(*t.value),
            None => 1,
        },
    }
}

pub open spec fn wire_slot_height(s: WireSlotView) -> nat
    decreases s,
{
    match s {
        WireSlotView::Scalar(_) => 1,
        WireSlotView::Enum(_) => 1,
        WireSlotView::Message(o) => match o {
            Some(w) => 1 + wire_height(*w),
            None => 1,
        },
    }
}

pub open spec fn wire_fields_height(s: Seq<WireFieldView>) -> nat
    decreases s,
{
    if s.len() == 0 {
        1
    } else if wire_fields_height(s.drop_last()) > wire_slot_height(s.last().slot) {
        wire_fields_height(s.drop_last())
    } else {
        wire_slot_height(s.last().slot)
    }
}

pub proof fn lemma_wire_fields_height(s: Seq<WireFieldView>, i: int)
    requires
        0 <= i < s.len(),
    ensures
        wire_slot_height(s[i].slot) <= wire_fields_height(s),
    decreases s,
{
    if i < s.len() - 1 {
        assert(s.drop_last()[i] == s[i]);
        lemma_wire_fields_height(s.drop_last(), i);
    }
}

/// The view of a whole registry of compiled entities.
pub open spec fn reg_view(reg: Seq<ProtoMap>) -> Seq<ProtoMapView> {
    Seq::new(reg.len(), |i: int| reg[i]@)
}

/// The first registered entity of the given domain name.
pub open spec fn find_spec(reg: Seq<ProtoMapView>, name: Seq<char>) -> Option<ProtoMapView>
    decreases reg.len(),
{
    if reg.len() == 0 {
        None
    } else if reg[0].name() == name {
        Some(reg[0])
    } else {
        find_spec(reg.skip(1), name)
    }
}

proof fn lemma_find_spec_step(reg: Seq<ProtoMapView>, name: Seq<char>, i: int)
    requires
        0 <= i < reg.len(),
        forall|j: int| 0 <= j < i ==> reg[j].name() != name,
    ensures
        reg[i].name() == name ==> find_spec(reg, name) == Some(reg[i]),
        reg[i].name() != name ==> find_spec(reg, name) == find_spec(reg.skip(i + 1), name),
    decreases i,
{
    if i == 0 {
        assert(reg.skip(0) =~= reg);
        assert(reg.skip(1) =~= reg.skip(0int + 1));
    } else {
        assert(reg.skip(1)[i - 1] == reg[i]);
        assert(forall|j: int| 0 <= j < i - 1 ==> reg.skip(1)[j] == reg[j + 1]);
        lemma_find_spec_step(reg.skip(1), name, i - 1);
        assert(reg.skip(1).skip(i) =~= reg.skip(i + 1));
    }
}

/// Looks an entity up by its domain name; the first registered one wins.
pub fn find_entity<'a>(reg: &'a Vec<ProtoMap>, name: &str) -> (r: Option<&'a ProtoMap>)
    ensures
        (match r {
            Some(m) => find_spec(reg_view(reg@), name@) == Some(m@),
            None => find_spec(reg_view(reg@), name@) is None,
        }),
{
    let ghost rv = reg_view(reg@);
    let mut i: usize = 0;
    while i < reg.len()
        invariant
            i <= reg@.len(),
            rv == reg_view(reg@),
            rv.len() == reg@.len(),
            forall|j: int| 0 <= j < i ==> rv[j].name() != name@,
        decreases reg@.len() - i,
    {
        let candidate = reg[i].name();
        if str_eq(candidate.as_str(), name) {
            proof {
                lemma_find_spec_step(rv, name@, i as int);
            }
            return Some(&reg[i]);
        }
        proof {
            lemma_find_spec_step(rv, name@, i as int);
        }
        i += 1;
    }
    proof {
        assert(rv.skip(i as int) =~= Seq::<ProtoMapView>::empty());
        if i > 0 {
            lemma_find_spec_step(rv, name@, i as int - 1);
        }
        assert(find_spec(rv, name@) is None) by {
            lemma_find_none(rv, name@);
        }
    }
    None
}

proof fn lemma_find_none(reg: Seq<ProtoMapView>, name: Seq<char>)
    requires
        forall|j: int| 0 <= j < reg.len() ==> reg[j].name() != name,
    ensures
        find_spec(reg, name) is None,
    decreases reg.len(),
{
    if reg.len() > 0 {
        assert(forall|j: int| 0 <= j < reg.skip(1).len() ==> reg.skip(1)[j] == reg[j + 1]);
        lemma_find_none(reg.skip(1), name);
    }
}

} // verus!
