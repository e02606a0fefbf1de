use vstd::prelude::*;

verus! {

use crate::errors::MapError;

/// The closed set of types a wire scalar can be; no type outside this crate
/// can join it.
pub trait Sealed {}

impl Sealed for u32 {

}

impl Sealed for i32 {

}

impl Sealed for u64 {

}

impl Sealed for i64 {

}

impl Sealed for bool {

}

impl Sealed for String {

}

impl Sealed for Vec<u8> {

}

/// A wire scalar: a primitive value kind with a built-in codec and a
/// has-value predicate under which the kind's default value counts as absent.
pub trait ProtoScalar: Sized + Sealed + View {
    /// Whether the value counts as present: not the kind's default.
    spec fn has_value_spec(&self) -> bool;

    /// Whether the value counts as present: zero, false and empty are absent.
    fn has_value(&self) -> (r: bool)
        ensures
            r == self.has_value_spec(),
    ;
}

impl ProtoScalar for u32 {
    open spec fn has_value_spec(&self) -> bool {
        *self != 0u32
    }

    fn has_value(&self) -> (r: bool) {
        *self != 0
    }
}

impl ProtoScalar for i32 {
    open spec fn has_value_spec(&self) -> bool {
        *self != 0i32
    }

    fn has_value(&self) -> (r: bool) {
        *self != 0
    }
}

impl ProtoScalar for u64 {
    open spec fn has_value_spec(&self) -> bool {
        *self != 0u64
    }

    fn has_value(&self) -> (r: bool) {
        *self != 0
    }
}

impl ProtoScalar for i64 {
    open spec fn has_value_spec(&self) -> bool {
        *self != 0i64
    }

    fn has_value(&self) -> (r: bool) {
        *self != 0
    }
}

impl ProtoScalar for bool {
    open spec fn has_value_spec(&self) -> bool {
        *self
    }

    fn has_value(&self) -> (r: bool) {
        *self
    }
}

impl ProtoScalar for String {
    open spec fn has_value_spec(&self) -> bool {
        self@.len() != 0
    }

    fn has_value(&self) -> (r: bool) {
        !self.as_str().is_empty()
    }
}

impl ProtoScalar for Vec<u8> {
    open spec fn has_value_spec(&self) -> bool {
        self@.len() != 0
    }

    fn has_value(&self) -> (r: bool) {
        self.len() != 0
    }
}

/// A domain type mapped to a wire entity: a total conversion in, and a
/// fallible conversion back. Generated conversion pairs implement this trait;
/// nothing is promised of an implementation beyond its own contract.
pub trait ProtoMap where Self: Sized {
    type ProtoStruct;

    /// Converts a reference of `Self` to its wire entity.
    fn to_proto(&self) -> Self::ProtoStruct;

    /// Consumes a wire entity and returns a `Self`, or the conversion
    /// failure.
    fn from_proto(proto: Self::ProtoStruct) -> Result<Self, MapError>;
}

/// A domain type carried on the wire as the scalar `P`: a pure conversion in,
/// and a fallible conversion back.
pub trait ProtoMapScalar<P: ProtoScalar>: Sized + View {
    /// What converting a value to the wire scalar yields.
    spec fn to_scalar_view(&self) -> P::V;

    /// What converting a wire scalar back yields.
    spec fn from_scalar_view(proto: P) -> Result<Self::V, MapError>;

    /// Converts a reference of `Self` to the wire scalar.
    fn to_scalar(&self) -> (r: P)
        ensures
            r@ == self.to_scalar_view(),
    ;

    /// Consumes a wire scalar and returns a `Self`, or the conversion
    /// failure.
    fn from_scalar(proto: P) -> (r: Result<Self, MapError>)
        ensures
            (match r {
                Ok(v) => Self::from_scalar_view(proto) == Ok::<Self::V, MapError>(v@),
                Err(e) => Self::from_scalar_view(proto) == Err::<Self::V, MapError>(e),
            }),
    ;
}

impl ProtoMapScalar<u32> for u32 {
    open spec fn to_scalar_view(&self) -> u32 {
        *self
    }

    open spec fn from_scalar_view(proto: u32) -> Result<u32, MapError> {
        Ok(proto)
    }

    fn to_scalar(&self) -> (r: u32) {
        *self
    }

    fn from_scalar(proto: u32) -> (r: Result<u32, MapError>) {
        Ok(proto)
    }
}

impl ProtoMapScalar<i32> for i32 {
    open spec fn to_scalar_view(&self) -> i32 {
        *self
    }

    open spec fn from_scalar_view(proto: i32) -> Result<i32, MapError> {
        Ok(proto)
    }

    fn to_scalar(&self) -> (r: i32) {
        *self
    }

    fn from_scalar(proto: i32) -> (r: Result<i32, MapError>) {
        Ok(proto)
    }
}

impl ProtoMapScalar<u64> for u64 {
    open spec fn to_scalar_view(&self) -> u64 {
        *self
    }

    open spec fn from_scalar_view(proto: u64) -> Result<u64, MapError> {
        Ok(proto)
    }

    fn to_scalar(&self) -> (r: u64) {
        *self
    }

    fn from_scalar(proto: u64) -> (r: Result<u64, MapError>) {
        Ok(proto)
    }
}

impl ProtoMapScalar<i64> for i64 {
    open spec fn to_scalar_view(&self) -> i64 {
        *self
    }

    open spec fn from_scalar_view(proto: i64) -> Result<i64, MapError> {
        Ok(proto)
    }

    fn to_scalar(&self) -> (r: i64) {
        *self
    }

    fn from_scalar(proto: i64) -> (r: Result<i64, MapError>) {
        Ok(proto)
    }
}

impl ProtoMapScalar<bool> for bool {
    open spec fn to_scalar_view(&self) -> bool {
        *self
    }

    open spec fn from_scalar_view(proto: bool) -> Result<bool, MapError> {
        Ok(proto)
    }

    fn to_scalar(&self) -> (r: bool) {
        *self
    }

    fn from_scalar(proto: bool) -> (r: Result<bool, MapError>) {
        Ok(proto)
    }
}

impl ProtoMapScalar<String> for String {
    open spec fn to_scalar_view(&self) -> Seq<char> {
        self@
    }

    open spec fn from_scalar_view(proto: String) -> Result<Seq<char>, MapError> {
        Ok(proto@)
    }

    fn to_scalar(&self) -> (r: String) {
        self.clone()
    }

    fn from_scalar(proto: String) -> (r: Result<String, MapError>) {
        Ok(proto)
    }
}

impl ProtoMapScalar<Vec<u8>> for Vec<u8> {
    open spec fn to_scalar_view(&self) -> Seq<u8> {
        self@
    }

    open spec fn from_scalar_view(proto: Vec<u8>) -> Result<Seq<u8>, MapError> {
        Ok(proto@)
    }

    fn to_scalar(&self) -> (r: Vec<u8>) {
        let r = self.clone();
        proof {
            assert(r@ =~= self@);
        }
        r
    }

    fn from_scalar(proto: Vec<u8>) -> (r: Result<Vec<u8>, MapError>) {
        Ok(proto)
    }
}

} // verus!
