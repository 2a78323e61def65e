//! The class types of the fields of trace events, reading a field as a given class
//! type, and the errors of a failed reading with their messages.
use vstd::prelude::*;
use vstd::string::*;

use crate::text::{decimal_text, u64_text};

verus! {

/// The class type of a field as babeltrace2 reports it (`bt_field_class_type`): each
/// concrete class type, or one that this list does not name.
#[derive(Debug, Clone, Copy, PartialEq, Eq)]
pub enum RawFieldClassType {
    Bool,
    BitArray,
    UnsignedInteger,
    SignedInteger,
    UnsignedEnumeration,
    SignedEnumeration,
    SinglePrecisionReal,
    DoublePrecisionReal,
    String,
    Structure,
    StaticArray,
    DynamicArrayWithoutLengthField,
    DynamicArrayWithLengthField,
    OptionWithoutSelectorField,
    OptionWithBoolSelectorField,
    OptionWithUnsignedIntegerSelectorField,
    OptionWithSignedIntegerSelectorField,
    VariantWithoutSelectorField,
    VariantWithUnsignedIntegerSelectorField,
    VariantWithSignedIntegerSelectorField,
    Other,
}

/// The class types that fields can be read as.
#[derive(Debug, Clone, Copy, PartialEq, Eq, Structural)]
pub enum BtFieldClassType {
    Bool,
    BitArray,
    UnsignedInteger,
    SignedInteger,
    String,
    Array,
    Structure,
}

/// The supported class type of a raw one: booleans, integers, strings and structures
/// map to their own, every kind of array to `Array`; the others are not supported.
pub open spec fn field_class_of(raw: RawFieldClassType) -> Option<BtFieldClassType> {
    match raw {
        RawFieldClassType::Bool => Some(BtFieldClassType::Bool),
        RawFieldClassType::UnsignedInteger => Some(BtFieldClassType::UnsignedInteger),
        RawFieldClassType::SignedInteger => Some(BtFieldClassType::SignedInteger),
        RawFieldClassType::String => Some(BtFieldClassType::String),
        RawFieldClassType::Structure => Some(BtFieldClassType::Structure),
        RawFieldClassType::StaticArray
        | RawFieldClassType::DynamicArrayWithoutLengthField
        | RawFieldClassType::DynamicArrayWithLengthField => Some(BtFieldClassType::Array),
        _ => None,
    }
}

/// The name of a class type, as its debug form prints it.
pub open spec fn class_name(c: BtFieldClassType) -> Seq<char> {
    match c {
        BtFieldClassType::Bool => "Bool"@,
        BtFieldClassType::BitArray => "BitArray"@,
        BtFieldClassType::UnsignedInteger => "UnsignedInteger"@,
        BtFieldClassType::SignedInteger => "SignedInteger"@,
        BtFieldClassType::String => "String"@,
        BtFieldClassType::Array => "Array"@,
        BtFieldClassType::Structure => "Structure"@,
    }
}

impl BtFieldClassType {
    /// The supported class type of a raw one (see [`field_class_of`]).
    pub fn from_field_class_type(class: RawFieldClassType) -> (r: Option<Self>)
        ensures
            r == field_class_of(class),
    {
        match class {
            RawFieldClassType::Bool => Some(BtFieldClassType::Bool),
            RawFieldClassType::UnsignedInteger => Some(BtFieldClassType::UnsignedInteger),
            RawFieldClassType::SignedInteger => Some(BtFieldClassType::SignedInteger),
            RawFieldClassType::String => Some(BtFieldClassType::String),
            RawFieldClassType::Structure => Some(BtFieldClassType::Structure),
            RawFieldClassType::StaticArray
            | RawFieldClassType::DynamicArrayWithoutLengthField
            | RawFieldClassType::DynamicArrayWithLengthField => Some(BtFieldClassType::Array),
            _ => None,
        }
    }

    /// The name of the class type (see [`class_name`]).
    pub fn name(&self) -> (r: &'static str)
        ensures
            r@ == class_name(*self),
    {
        match self {
            BtFieldClassType::Bool => "Bool",
            BtFieldClassType::BitArray => "BitArray",
            BtFieldClassType::UnsignedInteger => "UnsignedInteger",
            BtFieldClassType::SignedInteger => "SignedInteger",
            BtFieldClassType::String => "String",
            BtFieldClassType::Array => "Array",
            BtFieldClassType::Structure => "Structure",
        }
    }
}

/// A field of a trace event, known by its class type.
#[derive(Debug, Clone, Copy, PartialEq, Eq)]
pub struct BtFieldConst {
    class_type: RawFieldClassType,
}

/// A field read as a boolean.
#[derive(Debug, Clone, Copy)]
pub struct BtFieldBooleanConst(BtFieldConst);

/// A field read as an unsigned integer.
#[derive(Debug, Clone, Copy)]
pub struct BtFieldUnsignedIntegerConst(BtFieldConst);

/// A field read as a signed integer.
#[derive(Debug, Clone, Copy)]
pub struct BtFieldSignedIntegerConst(BtFieldConst);

/// A field read as a string.
#[derive(Debug, Clone, Copy)]
pub struct BtFieldStringConst(BtFieldConst);

/// A field read as an array.
#[derive(Debug, Clone, Copy)]
pub struct BtFieldArrayConst(BtFieldConst);

/// A field read as a structure.
#[derive(Debug, Clone, Copy)]
pub struct BtFieldStructureConst(BtFieldConst);

/// A field read as the class type it has.
#[derive(Debug, Clone, Copy)]
pub enum BtFieldType {
    Boolean(BtFieldBooleanConst),
    UnsignedInteger(BtFieldUnsignedIntegerConst),
    SignedInteger(BtFieldSignedIntegerConst),
    String(BtFieldStringConst),
    Array(BtFieldArrayConst),
    Structure(BtFieldStructureConst),
}

/// The field that a typed field was read from.
pub open spec fn field_of(t: BtFieldType) -> BtFieldConst {
    match t {
        BtFieldType::Boolean(f) => f.field(),
        BtFieldType::UnsignedInteger(f) => f.field(),
        BtFieldType::SignedInteger(f) => f.field(),
        BtFieldType::String(f) => f.field(),
        BtFieldType::Array(f) => f.field(),
        BtFieldType::Structure(f) => f.field(),
    }
}

/// The class type of a typed field.
pub open spec fn typed_class(t: BtFieldType) -> BtFieldClassType {
    match t {
        BtFieldType::Boolean(_) => BtFieldClassType::Bool,
        BtFieldType::UnsignedInteger(_) => BtFieldClassType::UnsignedInteger,
        BtFieldType::SignedInteger(_) => BtFieldClassType::SignedInteger,
        BtFieldType::String(_) => BtFieldClassType::String,
        BtFieldType::Array(_) => BtFieldClassType::Array,
        BtFieldType::Structure(_) => BtFieldClassType::Structure,
    }
}

impl BtFieldType {
    /// The class type of the field.
    pub fn get_class_type(&self) -> (r: BtFieldClassType)
        ensures
            r == typed_class(*self),
    {
        match self {
            BtFieldType::Boolean(_) => BtFieldClassType::Bool,
            BtFieldType::UnsignedInteger(_) => BtFieldClassType::UnsignedInteger,
            BtFieldType::SignedInteger(_) => BtFieldClassType::SignedInteger,
            BtFieldType::String(_) => BtFieldClassType::String,
            BtFieldType::Array(_) => BtFieldClassType::Array,
            BtFieldType::Structure(_) => BtFieldClassType::Structure,
        }
    }
}

/// A field was read as a class type that it does not have.
#[derive(Debug, Clone, Copy, PartialEq, Eq)]
pub struct IncorrectTypeError {
    requested_type: BtFieldClassType,
    actual_type: Option<BtFieldClassType>,
}

/// The message of an [`IncorrectTypeError`].
pub open spec fn incorrect_type_text(requested: BtFieldClassType, actual: Option<BtFieldClassType>) -> Seq<char> {
    "BtFieldConst has different class type: expected "@ + class_name(requested) + ", got "@ + match actual {
        Some(a) => class_name(a),
        None => "unsupported type"@,
    }
}

impl IncorrectTypeError {
    pub closed spec fn spec_requested_type(&self) -> BtFieldClassType {
        self.requested_type
    }

    pub closed spec fn spec_actual_type(&self) -> Option<BtFieldClassType> {
        self.actual_type
    }

    /// The class type that was asked for.
    pub fn requested_type(&self) -> (r: BtFieldClassType)
        ensures
            r == self.spec_requested_type(),
    {
        self.requested_type
    }

    /// The class type the field has, when it is supported.
    pub fn actual_type(&self) -> (r: Option<BtFieldClassType>)
        ensures
            r == self.spec_actual_type(),
    {
        self.actual_type
    }

    /// The message of the error (see [`incorrect_type_text`]).
    pub fn to_string(&self) -> (r: String)
        ensures
            r@ == incorrect_type_text(self.spec_requested_type(), self.spec_actual_type()),
    {
        let mut s = String::from_str("BtFieldConst has different class type: expected ");
        s.append(self.requested_type.name());
        s.append(", got ");
        match self.actual_type {
            Some(a) => s.append(a.name()),
            None => s.append("unsupported type"),
        }
        s
    }
}

/// Whether a field of the raw class type can be read as `requested`.
pub open spec fn class_matches(actual: RawFieldClassType, requested: BtFieldClassType) -> bool {
    field_class_of(actual) == Some(requested)
}

/// Checks that a field of class type `actual` can be read as `requested`; the error
/// names both class types.
pub fn check_field_type(actual: RawFieldClassType, requested: BtFieldClassType) -> (r: Result<(), IncorrectTypeError>)
    ensures
        r is Ok <==> class_matches(actual, requested),
        r matches Err(e) ==> e.spec_requested_type() == requested && e.spec_actual_type() == field_class_of(actual),
{
    let found = BtFieldClassType::from_field_class_type(actual);
    match found {
        Some(c) => {
            if c == requested {
                Ok(())
            } else {
                Err(IncorrectTypeError { requested_type: requested, actual_type: found })
            }
        },
        None => Err(IncorrectTypeError { requested_type: requested, actual_type: None }),
    }
}

impl BtFieldConst {
    pub closed spec fn spec_class_type(&self) -> RawFieldClassType {
        self.class_type
    }

    /// A field of the given raw class type.
    pub fn new(class_type: RawFieldClassType) -> (r: Self)
        ensures
            r.spec_class_type() == class_type,
    {
        BtFieldConst { class_type }
    }

    /// The raw class type of the field.
    pub fn raw_class_type(&self) -> (r: RawFieldClassType)
        ensures
            r == self.spec_class_type(),
    {
        self.class_type
    }

    /// The class type of the field, when it is supported.
    pub fn get_class_type(&self) -> (r: Option<BtFieldClassType>)
        ensures
            r == field_class_of(self.spec_class_type()),
    {
        BtFieldClassType::from_field_class_type(self.class_type)
    }

    /// Reads the field as the class type it has; fails with the field and its raw class
    /// type when that class type is not supported.
    pub fn cast(self) -> (r: Result<BtFieldType, (Self, RawFieldClassType)>)
        ensures
            match r {
                Ok(t) => field_class_of(self.spec_class_type()) == Some(typed_class(t)) && field_of(t) == self,
                Err((f, c)) => field_class_of(self.spec_class_type()) is None && f == self && c == self.spec_class_type(),
            },
    {
        match BtFieldClassType::from_field_class_type(self.class_type) {
            Some(BtFieldClassType::Bool) => Ok(BtFieldType::Boolean(BtFieldBooleanConst(self))),
            Some(BtFieldClassType::UnsignedInteger) => Ok(BtFieldType::UnsignedInteger(BtFieldUnsignedIntegerConst(self))),
            Some(BtFieldClassType::SignedInteger) => Ok(BtFieldType::SignedInteger(BtFieldSignedIntegerConst(self))),
            Some(BtFieldClassType::String) => Ok(BtFieldType::String(BtFieldStringConst(self))),
            Some(BtFieldClassType::Array) => Ok(BtFieldType::Array(BtFieldArrayConst(self))),
            Some(BtFieldClassType::Structure) => Ok(BtFieldType::Structure(BtFieldStructureConst(self))),
            Some(BtFieldClassType::BitArray) => {
                proof {
                    assert(false);
                }
                Err((self, self.class_type))
            },
            None => Err((self, self.class_type)),
        }
    }

    /// Reads the field as a boolean; the field must be one.
    pub fn into_bool(self) -> (r: BtFieldBooleanConst)
        requires
            class_matches(self.spec_class_type(), BtFieldClassType::Bool),
        ensures
            r.field() == self,
    {
        BtFieldBooleanConst(self)
    }

    /// Reads the field as a boolean; fails, naming both class types, when it is not one.
    pub fn try_into_bool(self) -> (r: Result<BtFieldBooleanConst, IncorrectTypeError>)
        ensures
            r is Ok <==> class_matches(self.spec_class_type(), BtFieldClassType::Bool),
            r matches Ok(f) ==> f.field() == self,
            r matches Err(e) ==> e.spec_requested_type() == BtFieldClassType::Bool
                && e.spec_actual_type() == field_class_of(self.spec_class_type()),
    {
        match check_field_type(self.class_type, BtFieldClassType::Bool) {
            Ok(()) => Ok(BtFieldBooleanConst(self)),
            Err(e) => Err(e),
        }
    }

    /// Reads the field as an unsigned integer; the field must be one.
    pub fn into_uint(self) -> (r: BtFieldUnsignedIntegerConst)
        requires
            class_matches(self.spec_class_type(), BtFieldClassType::UnsignedInteger),
        ensures
            r.field() == self,
    {
        BtFieldUnsignedIntegerConst(self)
    }

    /// Reads the field as an unsigned integer; fails, naming both class types, when it is not one.
    pub fn try_into_uint(self) -> (r: Result<BtFieldUnsignedIntegerConst, IncorrectTypeError>)
        ensures
            r is Ok <==> class_matches(self.spec_class_type(), BtFieldClassType::UnsignedInteger),
            r matches Ok(f) ==> f.field() == self,
            r matches Err(e) ==> e.spec_requested_type() == BtFieldClassType::UnsignedInteger
                && e.spec_actual_type() == field_class_of(self.spec_class_type()),
    {
        match check_field_type(self.class_type, BtFieldClassType::UnsignedInteger) {
            Ok(()) => Ok(BtFieldUnsignedIntegerConst(self)),
            Err(e) => Err(e),
        }
    }

    /// Reads the field as a signed integer; the field must be one.
    pub fn into_int(self) -> (r: BtFieldSignedIntegerConst)
        requires
            class_matches(self.spec_class_type(), BtFieldClassType::SignedInteger),
        ensures
            r.field() == self,
    {
        BtFieldSignedIntegerConst(self)
    }

    /// Reads the field as a signed integer; fails, naming both class types, when it is not one.
    pub fn try_into_int(self) -> (r: Result<BtFieldSignedIntegerConst, IncorrectTypeError>)
        ensures
            r is Ok <==> class_matches(self.spec_class_type(), BtFieldClassType::SignedInteger),
            r matches Ok(f) ==> f.field() == self,
            r matches Err(e) ==> e.spec_requested_type() == BtFieldClassType::SignedInteger
                && e.spec_actual_type() == field_class_of(self.spec_class_type()),
    {
        match check_field_type(self.class_type, BtFieldClassType::SignedInteger) {
            Ok(()) => Ok(BtFieldSignedIntegerConst(self)),
            Err(e) => Err(e),
        }
    }

    /// Reads the field as a string; the field must be one.
    pub fn into_string(self) -> (r: BtFieldStringConst)
        requires
            class_matches(self.spec_class_type(), BtFieldClassType::String),
        ensures
            r.field() == self,
    {
        BtFieldStringConst(self)
    }

    /// Reads the field as a string; fails, naming both class types, when it is not one.
    pub fn try_into_string(self) -> (r: Result<BtFieldStringConst, IncorrectTypeError>)
        ensures
            r is Ok <==> class_matches(self.spec_class_type(), BtFieldClassType::String),
            r matches Ok(f) ==> f.field() == self,
            r matches Err(e) ==> e.spec_requested_type() == BtFieldClassType::String
                && e.spec_actual_type() == field_class_of(self.spec_class_type()),
    {
        match check_field_type(self.class_type, BtFieldClassType::String) {
            Ok(()) => Ok(BtFieldStringConst(self)),
            Err(e) => Err(e),
        }
    }

    /// Reads the field as a structure; the field must be one.
    pub fn into_struct(self) -> (r: BtFieldStructureConst)
        requires
            class_matches(self.spec_class_type(), BtFieldClassType::Structure),
        ensures
            r.field() == self,
    {
        BtFieldStructureConst(self)
    }

    /// Reads the field as a structure; fails, naming both class types, when it is not one.
    pub fn try_into_struct(self) -> (r: Result<BtFieldStructureConst, IncorrectTypeError>)
        ensures
            r is Ok <==> class_matches(self.spec_class_type(), BtFieldClassType::Structure),
            r matches Ok(f) ==> f.field() == self,
            r matches Err(e) ==> e.spec_requested_type() == BtFieldClassType::Structure
                && e.spec_actual_type() == field_class_of(self.spec_class_type()),
    {
        match check_field_type(self.class_type, BtFieldClassType::Structure) {
            Ok(()) => Ok(BtFieldStructureConst(self)),
            Err(e) => Err(e),
        }
    }

    /// Reads the field as an array; the field must be one.
    pub fn into_array(self) -> (r: BtFieldArrayConst)
        requires
            class_matches(self.spec_class_type(), BtFieldClassType::Array),
        ensures
            r.field() == self,
    {
        BtFieldArrayConst(self)
    }

    /// Reads the field as an array; fails, naming both class types, when it is not one.
    pub fn try_into_array(self) -> (r: Result<BtFieldArrayConst, IncorrectTypeError>)
        ensures
            r is Ok <==> class_matches(self.spec_class_type(), BtFieldClassType::Array),
            r matches Ok(f) ==> f.field() == self,
            r matches Err(e) ==> e.spec_requested_type() == BtFieldClassType::Array
                && e.spec_actual_type() == field_class_of(self.spec_class_type()),
    {
        match check_field_type(self.class_type, BtFieldClassType::Array) {
            Ok(()) => Ok(BtFieldArrayConst(self)),
            Err(e) => Err(e),
        }
    }
}

impl BtFieldBooleanConst {
    pub closed spec fn field(&self) -> BtFieldConst {
        self.0
    }

    /// The field that was read.
    pub fn as_field(&self) -> (r: &BtFieldConst)
        ensures
            *r == self.field(),
    {
        &self.0
    }
}

impl BtFieldUnsignedIntegerConst {
    pub closed spec fn field(&self) -> BtFieldConst {
        self.0
    }

    /// The field that was read.
    pub fn as_field(&self) -> (r: &BtFieldConst)
        ensures
            *r == self.field(),
    {
        &self.0
    }
}

impl BtFieldSignedIntegerConst {
    pub closed spec fn field(&self) -> BtFieldConst {
        self.0
    }

    /// The field that was read.
    pub fn as_field(&self) -> (r: &BtFieldConst)
        ensures
            *r == self.field(),
    {
        &self.0
    }
}

impl BtFieldStringConst {
    pub closed spec fn field(&self) -> BtFieldConst {
        self.0
    }

    /// The field that was read.
    pub fn as_field(&self) -> (r: &BtFieldConst)
        ensures
            *r == self.field(),
    {
        &self.0
    }
}

impl BtFieldStructureConst {
    pub closed spec fn field(&self) -> BtFieldConst {
        self.0
    }

    /// The field that was read.
    pub fn as_field(&self) -> (r: &BtFieldConst)
        ensures
            *r == self.field(),
    {
        &self.0
    }
}

impl BtFieldArrayConst {
    pub closed spec fn field(&self) -> BtFieldConst {
        self.0
    }

    /// The field that was read.
    pub fn as_field(&self) -> (r: &BtFieldConst)
        ensures
            *r == self.field(),
    {
        &self.0
    }
}

/// Reading a field as a Rust value failed.
#[derive(Debug)]
pub enum ConversionError {
    /// A string field is not valid UTF-8.
    InvalidUtf8,
    /// An integer field does not fit the integer type it was read as.
    TryFromIntError,
    StructConversionError(StructConversionError),
    IncorrectTypeError(IncorrectTypeError),
    ArrayConversionError(ArrayConversionError),
}

/// Reading a structure field failed.
#[derive(Debug)]
pub enum StructConversionError {
    /// The structure has no member of that name.
    FieldNotFound(&'static str),
    /// Reading the member of that name failed.
    FieldConversonError(Box<ConversionError>, &'static str),
}

/// Reading an array field failed.
#[derive(Debug)]
pub enum ArrayConversionError {
    IndexOutOfBounds { index: u64, length: u64 },
    /// Reading the element at that position failed.
    ElementConversionError(Box<ConversionError>, u64),
    LengthMismatch { expected: u64, actual: u64 },
    /// The array's length does not fit a `usize`.
    LengthTooLarge(u64),
}

/// The message of a [`ConversionError`]; the errors it wraps give their own.
pub open spec fn conversion_text(e: ConversionError) -> Seq<char>
    decreases e,
{
    match e {
        ConversionError::InvalidUtf8 => "Cannot convert returned value to string. The value is not valid UTF-8!"@,
        ConversionError::TryFromIntError => "Cannot convert value. Not a lossless conversion!"@,
        ConversionError::StructConversionError(s) => struct_text(s),
        ConversionError::IncorrectTypeError(i) => incorrect_type_text(i.spec_requested_type(), i.spec_actual_type()),
        ConversionError::ArrayConversionError(a) => array_text(a),
    }
}

/// The message of a [`StructConversionError`].
pub open spec fn struct_text(e: StructConversionError) -> Seq<char>
    decreases e,
{
    match e {
        StructConversionError::FieldNotFound(name) => "Struct field not found: `"@ + name@ + "`"@,
        StructConversionError::FieldConversonError(inner, name) => "Struct field `"@ + name@ + "`: "@ + conversion_text(*inner),
    }
}

/// The message of an [`ArrayConversionError`].
pub open spec fn array_text(e: ArrayConversionError) -> Seq<char>
    decreases e,
{
    match e {
        ArrayConversionError::IndexOutOfBounds { index, length } =>
            "Array index out of bounds: index="@ + decimal_text(index as nat) + " >= length="@ + decimal_text(length as nat),
        ArrayConversionError::ElementConversionError(inner, position) =>
            "Array element at position "@ + decimal_text(position as nat) + ": "@ + conversion_text(*inner),
        ArrayConversionError::LengthMismatch { expected, actual } =>
            "Array length mismatch: expected "@ + decimal_text(expected as nat) + ", got "@ + decimal_text(actual as nat),
        ArrayConversionError::LengthTooLarge(length) => "Array length could not fit in usize: "@ + decimal_text(length as nat),
    }
}

impl ConversionError {
    /// The message of the error (see [`conversion_text`]).
    pub fn to_string(&self) -> (r: String)
        ensures
            r@ == conversion_text(*self),
        decreases self,
    {
        match self {
            ConversionError::InvalidUtf8 => String::from_str("Cannot convert returned value to string. The value is not valid UTF-8!"),
            ConversionError::TryFromIntError => String::from_str("Cannot convert value. Not a lossless conversion!"),
            ConversionError::StructConversionError(s) => s.to_string(),
            ConversionError::IncorrectTypeError(i) => i.to_string(),
            ConversionError::ArrayConversionError(a) => a.to_string(),
        }
    }
}

impl StructConversionError {
    /// The structure has no member named `name`.
    pub fn field_not_found(name: &'static str) -> (r: Self)
        ensures
            r == StructConversionError::FieldNotFound(name),
    {
        StructConversionError::FieldNotFound(name)
    }

    /// Reading the member named `name` failed with `error`.
    pub fn field_conversion_error(name: &'static str, error: ConversionError) -> (r: Self)
        ensures
            r == StructConversionError::FieldConversonError(Box::new(error), name),
    {
        StructConversionError::FieldConversonError(Box::new(error), name)
    }

    /// The message of the error (see [`struct_text`]).
    pub fn to_string(&self) -> (r: String)
        ensures
            r@ == struct_text(*self),
        decreases self,
    {
        match self {
            StructConversionError::FieldNotFound(name) => {
                let mut s = String::from_str("Struct field not found: `");
                s.append(name);
                s.append("`");
                s
            },
            StructConversionError::FieldConversonError(inner, name) => {
                let mut s = String::from_str("Struct field `");
                s.append(name);
                s.append("`: ");
                let t = inner.to_string();
                s.append(t.as_str());
                s
            },
        }
    }
}

impl ArrayConversionError {
    /// The index is past the array's end.
    pub fn index_out_of_bounds(index: u64, length: u64) -> (r: Self)
        ensures
            r == (ArrayConversionError::IndexOutOfBounds { index, length }),
    {
        ArrayConversionError::IndexOutOfBounds { index, length }
    }

    /// Reading the element at position `index` failed with `error`.
    pub fn element_conversion_error(error: ConversionError, index: u64) -> (r: Self)
        ensures
            r == ArrayConversionError::ElementConversionError(Box::new(error), index),
    {
        ArrayConversionError::ElementConversionError(Box::new(error), index)
    }

    /// The array has `actual` elements where `expected` were wanted.
    pub fn length_mismatch(expected: u64, actual: u64) -> (r: Self)
        ensures
            r == (ArrayConversionError::LengthMismatch { expected, actual }),
    {
        ArrayConversionError::LengthMismatch { expected, actual }
    }

    /// The message of the error (see [`array_text`]).
    pub fn to_string(&self) -> (r: String)
        ensures
            r@ == array_text(*self),
        decreases self,
    {
        match self {
            ArrayConversionError::IndexOutOfBounds { index, length } => {
                let mut s = String::from_str("Array index out of bounds: index=");
                s.append(u64_text(*index).as_str());
                s.append(" >= length=");
                s.append(u64_text(*length).as_str());
                s
            },
            ArrayConversionError::ElementConversionError(inner, position) => {
                let mut s = String::from_str("Array element at position ");
                s.append(u64_text(*position).as_str());
                s.append(": ");
                let t = inner.to_string();
                s.append(t.as_str());
                s
            },
            ArrayConversionError::LengthMismatch { expected, actual } => {
                let mut s = String::from_str("Array length mismatch: expected ");
                s.append(u64_text(*expected).as_str());
                s.append(", got ");
                s.append(u64_text(*actual).as_str());
                s
            },
            ArrayConversionError::LengthTooLarge(length) => {
                let mut s = String::from_str("Array length could not fit in usize: ");
                s.append(u64_text(*length).as_str());
                s
            },
        }
    }
}

} // verus!
