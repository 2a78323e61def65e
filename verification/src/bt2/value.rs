//! The types of babeltrace2 values.
use vstd::prelude::*;

verus! {

/// A value type as babeltrace2 reports it (`bt_value_type`): each concrete type,
/// the abstract integer type, or a type that this list does not name.
#[derive(Debug, Clone, Copy, PartialEq, Eq)]
pub enum RawValueType {
    Null,
    Bool,
    Integer,
    UnsignedInteger,
    SignedInteger,
    Real,
    String,
    Array,
    Mapping,
    Other,
}

/// The type of a babeltrace2 value.
#[derive(Debug, Clone, Copy, PartialEq, Eq)]
pub enum BtValueType {
    Null,
    Bool,
    UnsignedInteger,
    SignedInteger,
    Real,
    String,
    Array,
    /// A map from strings to values.
    Mapping,
}

/// The value type of a raw type: each concrete type maps to its own; the abstract
/// integer type and unnamed types have none.
pub open spec fn value_type_of(raw: RawValueType) -> Option<BtValueType> {
    match raw {
        RawValueType::Null => Some(BtValueType::Null),
        RawValueType::Bool => Some(BtValueType::Bool),
        RawValueType::UnsignedInteger => Some(BtValueType::UnsignedInteger),
        RawValueType::SignedInteger => Some(BtValueType::SignedInteger),
        RawValueType::Real => Some(BtValueType::Real),
        RawValueType::String => Some(BtValueType::String),
        RawValueType::Array => Some(BtValueType::Array),
        RawValueType::Mapping => Some(BtValueType::Mapping),
        RawValueType::Integer | RawValueType::Other => None,
    }
}

impl BtValueType {
    /// The value type of a raw type (see [`value_type_of`]).
    pub fn from_raw(raw: RawValueType) -> (r: Option<Self>)
        ensures
            r == value_type_of(raw),
    {
        match raw {
            RawValueType::Null => Some(BtValueType::Null),
            RawValueType::Bool => Some(BtValueType::Bool),
            RawValueType::UnsignedInteger => Some(BtValueType::UnsignedInteger),
            RawValueType::SignedInteger => Some(BtValueType::SignedInteger),
            RawValueType::Real => Some(BtValueType::Real),
            RawValueType::String => Some(BtValueType::String),
            RawValueType::Array => Some(BtValueType::Array),
            RawValueType::Mapping => Some(BtValueType::Mapping),
            RawValueType::Integer | RawValueType::Other => None,
        }
    }
}


/// A borrowed value, known by its raw type.
#[derive(Debug, Clone, Copy, PartialEq, Eq)]
pub struct BtValueConst {
    value_type: RawValueType,
}

/// A borrowed value read as its type.
#[derive(Debug, Clone, Copy)]
pub struct BtValueNullConst(BtValueConst);

/// A borrowed value read as its type.
#[derive(Debug, Clone, Copy)]
pub struct BtValueBoolConst(BtValueConst);

/// A borrowed value read as its type.
#[derive(Debug, Clone, Copy)]
pub struct BtValueUnsignedIntegerConst(BtValueConst);

/// A borrowed value read as its type.
#[derive(Debug, Clone, Copy)]
pub struct BtValueSignedIntegerConst(BtValueConst);

/// A borrowed value read as its type.
#[derive(Debug, Clone, Copy)]
pub struct BtValueRealConst(BtValueConst);

/// A borrowed value read as its type.
#[derive(Debug, Clone, Copy)]
pub struct BtValueStringConst(BtValueConst);

/// A borrowed value read as its type.
#[derive(Debug, Clone, Copy)]
pub struct BtValueArrayConst(BtValueConst);

/// A borrowed value read as its type.
#[derive(Debug, Clone, Copy)]
pub struct BtValueMapConst(BtValueConst);

/// A borrowed value read as the type it has.
#[derive(Debug, Clone, Copy)]
pub enum BtValueTypedConst {
    Null(BtValueNullConst),
    Bool(BtValueBoolConst),
    UnsignedInteger(BtValueUnsignedIntegerConst),
    SignedInteger(BtValueSignedIntegerConst),
    Real(BtValueRealConst),
    String(BtValueStringConst),
    Array(BtValueArrayConst),
    Mapping(BtValueMapConst),
}

/// The type of a typed value.
pub open spec fn btvaluetypedconst_type(t: BtValueTypedConst) -> BtValueType {
    match t {
        BtValueTypedConst::Null(_) => BtValueType::Null,
        BtValueTypedConst::Bool(_) => BtValueType::Bool,
        BtValueTypedConst::UnsignedInteger(_) => BtValueType::UnsignedInteger,
        BtValueTypedConst::SignedInteger(_) => BtValueType::SignedInteger,
        BtValueTypedConst::Real(_) => BtValueType::Real,
        BtValueTypedConst::String(_) => BtValueType::String,
        BtValueTypedConst::Array(_) => BtValueType::Array,
        BtValueTypedConst::Mapping(_) => BtValueType::Mapping,
    }
}

/// The value that a typed value was read from.
pub open spec fn btvaluetypedconst_value(t: BtValueTypedConst) -> BtValueConst {
    match t {
        BtValueTypedConst::Null(x) => x.value(),
        BtValueTypedConst::Bool(x) => x.value(),
        BtValueTypedConst::UnsignedInteger(x) => x.value(),
        BtValueTypedConst::SignedInteger(x) => x.value(),
        BtValueTypedConst::Real(x) => x.value(),
        BtValueTypedConst::String(x) => x.value(),
        BtValueTypedConst::Array(x) => x.value(),
        BtValueTypedConst::Mapping(x) => x.value(),
    }
}

impl BtValueNullConst {
    pub closed spec fn value(&self) -> BtValueConst {
        self.0
    }
}

impl BtValueBoolConst {
    pub closed spec fn value(&self) -> BtValueConst {
        self.0
    }
}

impl BtValueUnsignedIntegerConst {
    pub closed spec fn value(&self) -> BtValueConst {
        self.0
    }
}

impl BtValueSignedIntegerConst {
    pub closed spec fn value(&self) -> BtValueConst {
        self.0
    }
}

impl BtValueRealConst {
    pub closed spec fn value(&self) -> BtValueConst {
        self.0
    }
}

impl BtValueStringConst {
    pub closed spec fn value(&self) -> BtValueConst {
        self.0
    }
}

impl BtValueArrayConst {
    pub closed spec fn value(&self) -> BtValueConst {
        self.0
    }
}

impl BtValueMapConst {
    pub closed spec fn value(&self) -> BtValueConst {
        self.0
    }
}

impl BtValueTypedConst {
    /// The type of the value.
    pub fn get_type(&self) -> (r: BtValueType)
        ensures
            r == btvaluetypedconst_type(*self),
    {
        match self {
            BtValueTypedConst::Null(_) => BtValueType::Null,
            BtValueTypedConst::Bool(_) => BtValueType::Bool,
            BtValueTypedConst::UnsignedInteger(_) => BtValueType::UnsignedInteger,
            BtValueTypedConst::SignedInteger(_) => BtValueType::SignedInteger,
            BtValueTypedConst::Real(_) => BtValueType::Real,
            BtValueTypedConst::String(_) => BtValueType::String,
            BtValueTypedConst::Array(_) => BtValueType::Array,
            BtValueTypedConst::Mapping(_) => BtValueType::Mapping,
        }
    }
}

impl BtValueConst {
    pub closed spec fn spec_value_type(&self) -> RawValueType {
        self.value_type
    }

    /// A value of the given raw type.
    pub fn new(value_type: RawValueType) -> (r: Self)
        ensures
            r.spec_value_type() == value_type,
    {
        BtValueConst { value_type }
    }

    /// Reads the value as the type it has; its raw type must be a concrete one.
    pub fn cast(self) -> (r: BtValueTypedConst)
        requires
            value_type_of(self.spec_value_type()) is Some,
        ensures
            Some(btvaluetypedconst_type(r)) == value_type_of(self.spec_value_type()),
            btvaluetypedconst_value(r) == self,
    {
        match BtValueType::from_raw(self.value_type) {
            Some(BtValueType::Null) => BtValueTypedConst::Null(BtValueNullConst(self)),
            Some(BtValueType::Bool) => BtValueTypedConst::Bool(BtValueBoolConst(self)),
            Some(BtValueType::UnsignedInteger) => BtValueTypedConst::UnsignedInteger(BtValueUnsignedIntegerConst(self)),
            Some(BtValueType::SignedInteger) => BtValueTypedConst::SignedInteger(BtValueSignedIntegerConst(self)),
            Some(BtValueType::Real) => BtValueTypedConst::Real(BtValueRealConst(self)),
            Some(BtValueType::String) => BtValueTypedConst::String(BtValueStringConst(self)),
            Some(BtValueType::Array) => BtValueTypedConst::Array(BtValueArrayConst(self)),
            Some(BtValueType::Mapping) => BtValueTypedConst::Mapping(BtValueMapConst(self)),
            None => {
                proof {
                    assert(false);
                }
                BtValueTypedConst::Null(BtValueNullConst(self))
            },
        }
    }
}

/// A value, known by its raw type.
#[derive(Debug, Clone, Copy, PartialEq, Eq)]
pub struct BtValue {
    value_type: RawValueType,
}

/// A value read as its type.
#[derive(Debug, Clone, Copy)]
pub struct BtValueNull(BtValue);

/// A value read as its type.
#[derive(Debug, Clone, Copy)]
pub struct BtValueBool(BtValue);

/// A value read as its type.
#[derive(Debug, Clone, Copy)]
pub struct BtValueUnsignedInteger(BtValue);

/// A value read as its type.
#[derive(Debug, Clone, Copy)]
pub struct BtValueSignedInteger(BtValue);

/// A value read as its type.
#[derive(Debug, Clone, Copy)]
pub struct BtValueReal(BtValue);

/// A value read as its type.
#[derive(Debug, Clone, Copy)]
pub struct BtValueString(BtValue);

/// A value read as its type.
#[derive(Debug, Clone, Copy)]
pub struct BtValueArray(BtValue);

/// A value read as its type.
#[derive(Debug, Clone, Copy)]
pub struct BtValueMap(BtValue);

/// A value read as the type it has.
#[derive(Debug, Clone, Copy)]
pub enum BtValueTyped {
    Null(BtValueNull),
    Bool(BtValueBool),
    UnsignedInteger(BtValueUnsignedInteger),
    SignedInteger(BtValueSignedInteger),
    Real(BtValueReal),
    String(BtValueString),
    Array(BtValueArray),
    Mapping(BtValueMap),
}

/// The type of a typed value.
pub open spec fn btvaluetyped_type(t: BtValueTyped) -> BtValueType {
    match t {
        BtValueTyped::Null(_) => BtValueType::Null,
        BtValueTyped::Bool(_) => BtValueType::Bool,
        BtValueTyped::UnsignedInteger(_) => BtValueType::UnsignedInteger,
        BtValueTyped::SignedInteger(_) => BtValueType::SignedInteger,
        BtValueTyped::Real(_) => BtValueType::Real,
        BtValueTyped::String(_) => BtValueType::String,
        BtValueTyped::Array(_) => BtValueType::Array,
        BtValueTyped::Mapping(_) => BtValueType::Mapping,
    }
}

/// The value that a typed value was read from.
pub open spec fn btvaluetyped_value(t: BtValueTyped) -> BtValue {
    match t {
        BtValueTyped::Null(x) => x.value(),
        BtValueTyped::Bool(x) => x.value(),
        BtValueTyped::UnsignedInteger(x) => x.value(),
        BtValueTyped::SignedInteger(x) => x.value(),
        BtValueTyped::Real(x) => x.value(),
        BtValueTyped::String(x) => x.value(),
        BtValueTyped::Array(x) => x.value(),
        BtValueTyped::Mapping(x) => x.value(),
    }
}

impl BtValueNull {
    pub closed spec fn value(&self) -> BtValue {
        self.0
    }
}

impl BtValueBool {
    pub closed spec fn value(&self) -> BtValue {
        self.0
    }
}

impl BtValueUnsignedInteger {
    pub closed spec fn value(&self) -> BtValue {
        self.0
    }
}

impl BtValueSignedInteger {
    pub closed spec fn value(&self) -> BtValue {
        self.0
    }
}

impl BtValueReal {
    pub closed spec fn value(&self) -> BtValue {
        self.0
    }
}

impl BtValueString {
    pub closed spec fn value(&self) -> BtValue {
        self.0
    }
}

impl BtValueArray {
    pub closed spec fn value(&self) -> BtValue {
        self.0
    }
}

impl BtValueMap {
    pub closed spec fn value(&self) -> BtValue {
        self.0
    }
}

impl BtValueTyped {
    /// The type of the value.
    pub fn get_type(&self) -> (r: BtValueType)
        ensures
            r == btvaluetyped_type(*self),
    {
        match self {
            BtValueTyped::Null(_) => BtValueType::Null,
            BtValueTyped::Bool(_) => BtValueType::Bool,
            BtValueTyped::UnsignedInteger(_) => BtValueType::UnsignedInteger,
            BtValueTyped::SignedInteger(_) => BtValueType::SignedInteger,
            BtValueTyped::Real(_) => BtValueType::Real,
            BtValueTyped::String(_) => BtValueType::String,
            BtValueTyped::Array(_) => BtValueType::Array,
            BtValueTyped::Mapping(_) => BtValueType::Mapping,
        }
    }
}

impl BtValue {
    pub closed spec fn spec_value_type(&self) -> RawValueType {
        self.value_type
    }

    /// A value of the given raw type.
    pub fn new(value_type: RawValueType) -> (r: Self)
        ensures
            r.spec_value_type() == value_type,
    {
        BtValue { value_type }
    }

    /// Reads the value as the type it has; its raw type must be a concrete one.
    pub fn cast(self) -> (r: BtValueTyped)
        requires
            value_type_of(self.spec_value_type()) is Some,
        ensures
            Some(btvaluetyped_type(r)) == value_type_of(self.spec_value_type()),
            btvaluetyped_value(r) == self,
    {
        match BtValueType::from_raw(self.value_type) {
            Some(BtValueType::Null) => BtValueTyped::Null(BtValueNull(self)),
            Some(BtValueType::Bool) => BtValueTyped::Bool(BtValueBool(self)),
            Some(BtValueType::UnsignedInteger) => BtValueTyped::UnsignedInteger(BtValueUnsignedInteger(self)),
            Some(BtValueType::SignedInteger) => BtValueTyped::SignedInteger(BtValueSignedInteger(self)),
            Some(BtValueType::Real) => BtValueTyped::Real(BtValueReal(self)),
            Some(BtValueType::String) => BtValueTyped::String(BtValueString(self)),
            Some(BtValueType::Array) => BtValueTyped::Array(BtValueArray(self)),
            Some(BtValueType::Mapping) => BtValueTyped::Mapping(BtValueMap(self)),
            None => {
                proof {
                    assert(false);
                }
                BtValueTyped::Null(BtValueNull(self))
            },
        }
    }
}

} // verus!
