use materialx_parser::data_types::{
    DataType, DataTypeAndValue, Matrix3x3, ValueParseError, Vector2, Vector3, Vector4,
};
use materialx_parser::literal::{FloatErrorKind, IntErrorKind};

fn number(text: &str) -> f64 {
    text.parse::<f64>().unwrap()
}

#[test]
fn vector3_with_two_components_is_refused_for_its_length() {
    match DataTypeAndValue::from_tag_and_value("vector3", "1,2") {
        Err(ValueParseError::InvalidLength { expected, actual }) => {
            assert_eq!(expected, 3);
            assert_eq!(actual, 2);
        }
        other => panic!("unexpected result {:?}", other),
    }
}

#[test]
fn vector3_keeps_its_components() {
    match DataTypeAndValue::from_tag_and_value("vector3", "1, 2.5 ,-3e2") {
        Ok(DataTypeAndValue::Vector3(v)) => {
            assert_eq!(v.0[0].as_str(), "1");
            assert_eq!(v.0[1].as_str(), "2.5");
            assert_eq!(v.0[2].as_str(), "-3e2");
            assert_eq!(number(v.0[2].as_str()), -300.0);
        }
        other => panic!("unexpected result {:?}", other),
    }
}

#[test]
fn scalars_are_read_as_they_stand() {
    assert!(matches!(
        DataTypeAndValue::from_tag_and_value("integer", "42"),
        Ok(DataTypeAndValue::Integer(42))
    ));
    assert!(matches!(
        DataTypeAndValue::from_tag_and_value("integer", "+7"),
        Ok(DataTypeAndValue::Integer(7))
    ));
    assert!(matches!(
        DataTypeAndValue::from_tag_and_value("integer", "18446744073709551615"),
        Ok(DataTypeAndValue::Integer(u64::MAX))
    ));
    assert!(matches!(
        DataTypeAndValue::from_tag_and_value("boolean", "true"),
        Ok(DataTypeAndValue::Boolean(true))
    ));
    assert!(matches!(
        DataTypeAndValue::from_tag_and_value("boolean", "false"),
        Ok(DataTypeAndValue::Boolean(false))
    ));
    match DataTypeAndValue::from_tag_and_value("float", "0.35") {
        Ok(DataTypeAndValue::Float(f)) => assert_eq!(number(f.as_str()), 0.35),
        other => panic!("unexpected result {:?}", other),
    }
    match DataTypeAndValue::from_tag_and_value("string", " as it is ") {
        Ok(DataTypeAndValue::String(s)) => assert_eq!(s, " as it is "),
        other => panic!("unexpected result {:?}", other),
    }
    match DataTypeAndValue::from_tag_and_value("filename", "wood.png") {
        Ok(DataTypeAndValue::Filename(s)) => assert_eq!(s, "wood.png"),
        other => panic!("unexpected result {:?}", other),
    }
}

#[test]
fn scalars_are_not_trimmed() {
    match DataTypeAndValue::from_tag_and_value("integer", " 42") {
        Err(ValueParseError::InvalidInteger { got, source }) => {
            assert_eq!(got, " 42");
            assert_eq!(source, IntErrorKind::InvalidDigit);
        }
        other => panic!("unexpected result {:?}", other),
    }
    match DataTypeAndValue::from_tag_and_value("float", "1.0 ") {
        Err(ValueParseError::InvalidFloat { got, source }) => {
            assert_eq!(got, "1.0 ");
            assert_eq!(source, FloatErrorKind::Invalid);
        }
        other => panic!("unexpected result {:?}", other),
    }
}

#[test]
fn integer_errors_say_why() {
    let cases = vec![
        ("", IntErrorKind::Empty),
        ("+", IntErrorKind::InvalidDigit),
        ("-", IntErrorKind::InvalidDigit),
        ("-1", IntErrorKind::InvalidDigit),
        ("12a", IntErrorKind::InvalidDigit),
        ("18446744073709551616", IntErrorKind::PosOverflow),
        ("99999999999999999999999x", IntErrorKind::PosOverflow),
    ];
    for (text, kind) in cases {
        match DataTypeAndValue::from_tag_and_value("integer", text) {
            Err(ValueParseError::InvalidInteger { got, source }) => {
                assert_eq!(got, text);
                assert_eq!(source, kind);
                assert_eq!(text.parse::<u64>().is_err(), true);
            }
            other => panic!("unexpected result {:?}", other),
        }
    }
}

#[test]
fn boolean_errors_keep_the_text() {
    match DataTypeAndValue::from_tag_and_value("boolean", "True") {
        Err(ValueParseError::InvalidBoolean { got }) => assert_eq!(got, "True"),
        other => panic!("unexpected result {:?}", other),
    }
}

#[test]
fn float_grammar_agrees_with_the_standard_parser() {
    let texts = vec![
        "3.14", "-3.14", "2.5E10", "2.5e10", "2.5E-10", "5.", ".5", "0.5", "7", "007", "inf",
        "-inf", "+infinity", "NaN", "nan", "INFINITY", "1e+5", "+.5e-3", "", ".", "+", "-", "e5",
        "1e", "1e+", "1.2.3", "1,2", " 1", "1 ", "infinit", "na", "0x10", "1_000", "1f", "--1",
        "1e5.0", "\u{a0}1", "١",
    ];
    for text in texts {
        let ours = DataTypeAndValue::from_tag_and_value("float", text);
        let theirs = text.parse::<f64>();
        assert_eq!(ours.is_ok(), theirs.is_ok(), "on {:?}", text);
        match ours {
            Ok(DataTypeAndValue::Float(f)) => assert_eq!(f.as_str(), text),
            Err(ValueParseError::InvalidFloat { got, source }) => {
                assert_eq!(got, text);
                if text.is_empty() {
                    assert_eq!(source, FloatErrorKind::Empty);
                } else {
                    assert_eq!(source, FloatErrorKind::Invalid);
                }
            }
            other => panic!("unexpected result {:?}", other),
        }
    }
}

#[test]
fn vectors_and_colors_have_their_arity() {
    assert!(matches!(
        DataTypeAndValue::from_tag_and_value("vector2", "1,2"),
        Ok(DataTypeAndValue::Vector2(_))
    ));
    assert!(matches!(
        DataTypeAndValue::from_tag_and_value("vector4", "1,2,3,4"),
        Ok(DataTypeAndValue::Vector4(_))
    ));
    match DataTypeAndValue::from_tag_and_value("color3", "0.0603, 0.4398, 0.1916") {
        Ok(DataTypeAndValue::Color3(c)) => {
            assert_eq!(number(c.0[0].as_str()), 0.0603);
            assert_eq!(number(c.0[1].as_str()), 0.4398);
            assert_eq!(number(c.0[2].as_str()), 0.1916);
        }
        other => panic!("unexpected result {:?}", other),
    }
    match DataTypeAndValue::from_tag_and_value("color4", "1,0,0") {
        Err(ValueParseError::InvalidLength { expected, actual }) => {
            assert_eq!((expected, actual), (4, 3));
        }
        other => panic!("unexpected result {:?}", other),
    }
}

#[test]
fn a_bad_component_is_reported_before_a_bad_length() {
    match DataTypeAndValue::from_tag_and_value("vector3", "1, x") {
        Err(ValueParseError::InvalidFloat { got, source }) => {
            assert_eq!(got, " x");
            assert_eq!(source, FloatErrorKind::Invalid);
        }
        other => panic!("unexpected result {:?}", other),
    }
    match DataTypeAndValue::from_tag_and_value("vector3", "1,,3") {
        Err(ValueParseError::InvalidFloat { got, source }) => {
            assert_eq!(got, "");
            assert_eq!(source, FloatErrorKind::Empty);
        }
        other => panic!("unexpected result {:?}", other),
    }
}

#[test]
fn matrices_are_laid_out_row_by_row() {
    match DataTypeAndValue::from_tag_and_value("matrix33", "1,2,3, 4,5,6, 7,8,9") {
        Ok(DataTypeAndValue::Matrix3x3(m)) => {
            assert_eq!(m.0[0].0[0].as_str(), "1");
            assert_eq!(m.0[0].0[2].as_str(), "3");
            assert_eq!(m.0[1].0[0].as_str(), "4");
            assert_eq!(m.0[2].0[1].as_str(), "8");
            assert_eq!(m.0[2].0[2].as_str(), "9");
        }
        other => panic!("unexpected result {:?}", other),
    }
    match DataTypeAndValue::from_tag_and_value(
        "matrix44",
        "1,0,0,0, 0,1,0,0, 0,0,1,0, 10,11,12,1",
    ) {
        Ok(DataTypeAndValue::Matrix4x4(m)) => {
            assert_eq!(m.0[3].0[0].as_str(), "10");
            assert_eq!(m.0[3].0[3].as_str(), "1");
            assert_eq!(m.0[1].0[1].as_str(), "1");
            assert_eq!(m.0[1].0[0].as_str(), "0");
        }
        other => panic!("unexpected result {:?}", other),
    }
    match DataTypeAndValue::from_tag_and_value("matrix33", "1,2,3,4") {
        Err(ValueParseError::InvalidLength { expected, actual }) => {
            assert_eq!((expected, actual), (9, 4));
        }
        other => panic!("unexpected result {:?}", other),
    }
    match DataTypeAndValue::from_tag_and_value("matrix44", "1") {
        Err(ValueParseError::InvalidLength { expected, actual }) => {
            assert_eq!((expected, actual), (16, 1));
        }
        other => panic!("unexpected result {:?}", other),
    }
}

#[test]
fn arrays_of_scalars() {
    match DataTypeAndValue::from_tag_and_value("integerarray", "1, 2 ,3") {
        Ok(DataTypeAndValue::IntegerArray(v)) => assert_eq!(v, vec![1, 2, 3]),
        other => panic!("unexpected result {:?}", other),
    }
    match DataTypeAndValue::from_tag_and_value("integerarray", "1, two ,3") {
        Err(ValueParseError::InvalidInteger { got, source }) => {
            assert_eq!(got, "1, two ,3");
            assert_eq!(source, IntErrorKind::InvalidDigit);
        }
        other => panic!("unexpected result {:?}", other),
    }
    match DataTypeAndValue::from_tag_and_value("floatarray", "0.5, 1e3") {
        Ok(DataTypeAndValue::FloatArray(v)) => {
            assert_eq!(v.len(), 2);
            assert_eq!(number(v[0].as_str()), 0.5);
            assert_eq!(number(v[1].as_str()), 1000.0);
        }
        other => panic!("unexpected result {:?}", other),
    }
    match DataTypeAndValue::from_tag_and_value("floatarray", "0.5, x") {
        Err(ValueParseError::InvalidFloat { got, source }) => {
            assert_eq!(got, "0.5, x");
            assert_eq!(source, FloatErrorKind::Invalid);
        }
        other => panic!("unexpected result {:?}", other),
    }
    match DataTypeAndValue::from_tag_and_value("stringarray", " a , b,c ,, ") {
        Ok(DataTypeAndValue::StringArray(v)) => assert_eq!(v, vec!["a", "b", "c", "", ""]),
        other => panic!("unexpected result {:?}", other),
    }
}

#[test]
fn an_element_of_a_vector_array_is_read_as_a_whole_vector() {
    for tag in ["color3array", "vector3array"] {
        match DataTypeAndValue::from_tag_and_value(tag, "1,2,3") {
            Err(ValueParseError::InvalidLength { expected, actual }) => {
                assert_eq!((expected, actual), (3, 1));
            }
            other => panic!("unexpected result {:?}", other),
        }
    }
    match DataTypeAndValue::from_tag_and_value("vector2array", "1,2") {
        Err(ValueParseError::InvalidLength { expected, actual }) => {
            assert_eq!((expected, actual), (2, 1));
        }
        other => panic!("unexpected result {:?}", other),
    }
    match DataTypeAndValue::from_tag_and_value("color4array", " x ,2") {
        Err(ValueParseError::InvalidFloat { got, .. }) => assert_eq!(got, "x"),
        other => panic!("unexpected result {:?}", other),
    }
    match DataTypeAndValue::from_tag_and_value("vector4array", "1") {
        Err(ValueParseError::InvalidLength { expected, actual }) => {
            assert_eq!((expected, actual), (4, 1));
        }
        other => panic!("unexpected result {:?}", other),
    }
}

#[test]
fn an_unknown_tag_is_no_error() {
    match DataTypeAndValue::from_tag_and_value("surfaceshader", "anything") {
        Ok(DataTypeAndValue::Unknown { tag, value }) => {
            assert_eq!(tag, "surfaceshader");
            assert_eq!(value, "anything");
        }
        other => panic!("unexpected result {:?}", other),
    }
}

#[test]
fn tags_name_types() {
    assert!(matches!(DataType::from_tag("integer"), DataType::Integer));
    assert!(matches!(DataType::from_tag("matrix33"), DataType::Matrix3x3));
    assert!(matches!(DataType::from_tag("matrix44"), DataType::Matrix4x4));
    assert!(matches!(DataType::from_tag("stringarray"), DataType::StringArray));
    assert!(matches!(DataType::from_tag("color4array"), DataType::Color4Array));
    match DataType::from_tag("Integer") {
        DataType::Unknown(tag) => assert_eq!(tag, "Integer"),
        other => panic!("unexpected type {:?}", other),
    }
    let value = DataTypeAndValue::from_tag_and_value("vector2", "1,2").unwrap();
    assert!(matches!(value.tag(), DataType::Vector2));
    let value = DataTypeAndValue::from_tag_and_value("novel", "1,2").unwrap();
    match value.tag() {
        DataType::Unknown(tag) => assert_eq!(tag, "novel"),
        other => panic!("unexpected type {:?}", other),
    }
}

#[test]
fn assert_length_compares() {
    assert!(ValueParseError::assert_length(3, 3).is_ok());
    match ValueParseError::assert_length(3, 2) {
        Err(ValueParseError::InvalidLength { expected, actual }) => {
            assert_eq!((expected, actual), (3, 2));
        }
        other => panic!("unexpected result {:?}", other),
    }
    match ValueParseError::float("abc", FloatErrorKind::Invalid) {
        ValueParseError::InvalidFloat { got, source } => {
            assert_eq!(got, "abc");
            assert_eq!(source, FloatErrorKind::Invalid);
        }
        other => panic!("unexpected error {:?}", other),
    }
}

#[test]
fn vectors_read_back_what_they_write() {
    let v = Vector3::from_str(" 0.25 ,1e-3,  -7 ").unwrap();
    assert_eq!(v.to_text(), "0.25,1e-3,-7");
    assert_eq!(Vector3::from_str(&v.to_text()).unwrap(), v);
    let v = Vector2::from_str("1,2").unwrap();
    assert_eq!(Vector2::from_str(&v.to_text()).unwrap(), v);
    let v = Vector4::from_str("1,2,3,4").unwrap();
    assert_eq!(v.to_text(), "1,2,3,4");
    let m = Matrix3x3::from_str("1,2,3, 4,5,6, 7,8,9").unwrap();
    assert_eq!(m.to_text(), "1,2,3,4,5,6,7,8,9");
    assert_eq!(Matrix3x3::from_str(&m.to_text()).unwrap(), m);
}

#[test]
fn typed_access_refuses_other_types() {
    let value = DataTypeAndValue::from_tag_and_value("float", "0.5").unwrap();
    assert_eq!(value.expect_float().unwrap().as_str(), "0.5");
    match value.expect_color() {
        Err(ValueParseError::UnexpectedFormat { format }) => {
            assert!(matches!(format, DataType::Float));
        }
        other => panic!("unexpected result {:?}", other),
    }
    let value = DataTypeAndValue::from_tag_and_value("color3", "1,0.5,0").unwrap();
    let channels = value.expect_color().unwrap();
    assert_eq!(channels.len(), 3);
    assert_eq!(channels[1].as_str(), "0.5");
    let value = DataTypeAndValue::from_tag_and_value("color4", "1,0.5,0,0.25").unwrap();
    let channels = value.expect_color().unwrap();
    assert_eq!(channels.len(), 4);
    assert_eq!(channels[3].as_str(), "0.25");
    match value.expect_float() {
        Err(ValueParseError::UnexpectedFormat { format }) => {
            assert!(matches!(format, DataType::Color4));
        }
        other => panic!("unexpected result {:?}", other),
    }
}
