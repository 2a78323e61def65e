use ros2_trace_analyzer::bt2::component::{BtComponentCasted, BtComponentType};
use ros2_trace_analyzer::bt2::field::{
    check_field_type, ArrayConversionError, BtFieldClassType, BtFieldConst, BtFieldType, ConversionError,
    RawFieldClassType, StructConversionError,
};
use ros2_trace_analyzer::bt2::graph::ConfigFailsafe;
use ros2_trace_analyzer::bt2::value::{BtValue, BtValueConst, BtValueType, BtValueTyped, BtValueTypedConst, RawValueType};
use ros2_trace_analyzer::model::{NodeRef, Timer};
use ros2_trace_analyzer::text::{i64_text, u64_text};

#[test]
fn integers_as_decimal_text() {
    assert_eq!(u64_text(0), "0");
    assert_eq!(u64_text(42), "42");
    assert_eq!(u64_text(u64::MAX), "18446744073709551615");
    assert_eq!(i64_text(-7), "-7");
    assert_eq!(i64_text(i64::MIN), "-9223372036854775808");
    assert_eq!(i64_text(100_000_000), "100000000");
}

#[test]
fn raw_value_types_map_to_value_types() {
    assert_eq!(BtValueType::from_raw(RawValueType::SignedInteger), Some(BtValueType::SignedInteger));
    assert_eq!(BtValueType::from_raw(RawValueType::Mapping), Some(BtValueType::Mapping));
    assert_eq!(BtValueType::from_raw(RawValueType::Integer), None);
    assert_eq!(BtValueType::from_raw(RawValueType::Other), None);
}

#[test]
fn raw_field_classes_map_to_supported_classes() {
    assert_eq!(BtFieldClassType::from_field_class_type(RawFieldClassType::Bool), Some(BtFieldClassType::Bool));
    assert_eq!(
        BtFieldClassType::from_field_class_type(RawFieldClassType::DynamicArrayWithLengthField),
        Some(BtFieldClassType::Array)
    );
    assert_eq!(BtFieldClassType::from_field_class_type(RawFieldClassType::BitArray), None);
    assert_eq!(BtFieldClassType::from_field_class_type(RawFieldClassType::DoublePrecisionReal), None);
}

#[test]
fn fields_are_read_as_their_class() {
    let field = BtFieldConst::new(RawFieldClassType::UnsignedInteger);
    assert_eq!(field.get_class_type(), Some(BtFieldClassType::UnsignedInteger));
    assert!(field.try_into_uint().is_ok());
    assert_eq!(*field.into_uint().as_field(), field);
    let err = field.try_into_string().unwrap_err();
    assert_eq!(err.requested_type(), BtFieldClassType::String);
    assert_eq!(err.actual_type(), Some(BtFieldClassType::UnsignedInteger));
    assert_eq!(err.to_string(), "BtFieldConst has different class type: expected String, got UnsignedInteger");
    match BtFieldConst::new(RawFieldClassType::StaticArray).cast() {
        Ok(t) => assert_eq!(t.get_class_type(), BtFieldClassType::Array),
        Err(_) => panic!("arrays are supported"),
    }
    assert!(matches!(BtFieldConst::new(RawFieldClassType::StaticArray).cast(), Ok(BtFieldType::Array(_))));
}

#[test]
fn unsupported_fields_are_not_read() {
    let field = BtFieldConst::new(RawFieldClassType::SinglePrecisionReal);
    assert!(field.cast().is_err());
    let err = check_field_type(RawFieldClassType::SinglePrecisionReal, BtFieldClassType::Bool).unwrap_err();
    assert_eq!(err.to_string(), "BtFieldConst has different class type: expected Bool, got unsupported type");
    assert!(check_field_type(RawFieldClassType::Structure, BtFieldClassType::Structure).is_ok());
}

#[test]
fn conversion_error_messages() {
    assert_eq!(StructConversionError::field_not_found("topic_name").to_string(), "Struct field not found: `topic_name`");
    assert_eq!(
        ArrayConversionError::index_out_of_bounds(24, 8).to_string(),
        "Array index out of bounds: index=24 >= length=8"
    );
    assert_eq!(ArrayConversionError::length_mismatch(24, 16).to_string(), "Array length mismatch: expected 24, got 16");
    let inner = ArrayConversionError::element_conversion_error(ConversionError::TryFromIntError, 3);
    assert_eq!(inner.to_string(), "Array element at position 3: Cannot convert value. Not a lossless conversion!");
    let nested = StructConversionError::field_conversion_error("gid", ConversionError::ArrayConversionError(inner));
    assert_eq!(
        nested.to_string(),
        "Struct field `gid`: Array element at position 3: Cannot convert value. Not a lossless conversion!"
    );
}

#[test]
fn components_know_their_kind() {
    assert_eq!(BtComponentCasted::Sink.as_type(), BtComponentType::Sink);
    assert_eq!(BtComponentCasted::Source.as_type(), BtComponentType::Source);
}

#[test]
fn unfinished_configuration_fails_the_graph() {
    let step = ConfigFailsafe::check(false);
    assert!(step.finish());
    let mut step = ConfigFailsafe::check(false);
    step.set_success();
    assert!(!step.finish());
    let mut step = ConfigFailsafe::check(false);
    step.set_success();
    step.fail();
    assert!(step.finish());
}

#[test]
fn second_node_link_names_its_message() {
    let mut timer = Timer::new(1);
    assert!(timer.link_node(NodeRef(0)).is_ok());
    let err = timer.link_node(NodeRef(1)).unwrap_err();
    assert_eq!(err.msg(), "Timer node already set");
    assert_eq!(*err.new_value(), NodeRef(1));
    assert_eq!(err.object().get_node(), ros2_trace_analyzer::known::Known::Known(NodeRef(0)));
}

#[test]
fn values_are_read_as_their_type() {
    let typed = BtValueConst::new(RawValueType::String).cast();
    assert_eq!(typed.get_type(), BtValueType::String);
    assert!(matches!(typed, BtValueTypedConst::String(_)));
    let owned = BtValue::new(RawValueType::Mapping).cast();
    assert_eq!(owned.get_type(), BtValueType::Mapping);
    assert!(matches!(owned, BtValueTyped::Mapping(_)));
}

#[test]
fn gids_as_hexadecimal_text() {
    let gid = ros2_trace_analyzer::model::RmwGid::new([0xab; 24]);
    assert_eq!(gid.to_string(), "abababababababababababab-abababab-abababababababab");
    let counting: [u8; 24] = core::array::from_fn(|i| i as u8);
    let gid = ros2_trace_analyzer::model::RmwGid::new(counting);
    assert_eq!(gid.to_string(), "000102030405060708090a0b-0c0d0e0f-1011121314151617");
    assert_eq!(gid.dds_gid().to_string(), "000102030405060708090a0b-0c0d0e0f");
}
