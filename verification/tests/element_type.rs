use std::str::FromStr;

use exprgraph::xla::{ElementType, Error, PrimitiveType};

#[test]
fn test_element_type_from_str() {
    assert_eq!(ElementType::from_str("float32"), Ok(ElementType::F32));
    assert_eq!(ElementType::from_str("invalid"), Err(()));
}

#[test]
fn test_element_to_primitive_type() {
    assert_eq!(ElementType::F32.primitive_type(), PrimitiveType::F32);
}

#[test]
fn element_type_from_str_knows_both_names() {
    assert_eq!(ElementType::from_str("float64"), Ok(ElementType::F64));
    assert_eq!("float32".parse(), Ok(ElementType::F32));
    assert_eq!("float64".parse(), Ok(ElementType::F64));
}

#[test]
fn element_type_from_str_refuses_near_misses() {
    assert_eq!(ElementType::from_str(""), Err(()));
    assert_eq!(ElementType::from_str("float3"), Err(()));
    assert_eq!(ElementType::from_str("float322"), Err(()));
    assert_eq!(ElementType::from_str("Float32"), Err(()));
    assert_eq!(ElementType::from_str("float16"), Err(()));
    assert_eq!(ElementType::from_str(" float64"), Err(()));
    assert_eq!(ElementType::from_str("flöat32"), Err(()));
}

#[test]
fn f64_element_type_is_f64_primitive_type() {
    assert_eq!(ElementType::F64.primitive_type(), PrimitiveType::F64);
}

#[test]
fn float_primitive_types_are_element_types() {
    assert_eq!(PrimitiveType::F32.element_type(), Ok(ElementType::F32));
    assert_eq!(PrimitiveType::F64.element_type(), Ok(ElementType::F64));
}

#[test]
fn other_primitive_types_are_no_element_types() {
    for got in [
        PrimitiveType::Invalid,
        PrimitiveType::Tuple,
        PrimitiveType::OpaqueType,
        PrimitiveType::Token,
    ] {
        assert_eq!(got.element_type(), Err(Error::NotAnElementType { got }));
    }
}

#[test]
fn element_type_survives_the_round_trip() {
    for element in [ElementType::F32, ElementType::F64] {
        assert_eq!(element.primitive_type().element_type(), Ok(element));
    }
}

#[test]
fn primitive_types_keep_the_backend_numbering() {
    assert_eq!(PrimitiveType::Invalid as i32, 0);
    assert_eq!(PrimitiveType::F32 as i32, 1);
    assert_eq!(PrimitiveType::F64 as i32, 2);
    assert_eq!(PrimitiveType::Tuple as i32, 3);
    assert_eq!(PrimitiveType::OpaqueType as i32, 4);
    assert_eq!(PrimitiveType::Token as i32, 5);
}

#[test]
fn unexpected_element_type_carries_its_code() {
    let error = Error::UnexpectedElementType(7);
    assert_eq!(error, Error::UnexpectedElementType(7));
    assert_ne!(error, Error::UnexpectedElementType(8));
    assert_ne!(error, Error::NotAnElementType { got: PrimitiveType::Invalid });
}
