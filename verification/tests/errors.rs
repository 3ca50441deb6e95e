use materialx_parser::ast::{AstError, VersionError};
use materialx_parser::data_types::ValueParseError;
use materialx_parser::nodes::{AccessError, GetByTypeAndName, ResolveError};
use materialx_parser::standard_material::{MaterialError, StandardMaterialTransformError};
use materialx_parser::{Element, Error, MaterialX};

fn first_input(doc: &MaterialX, name: &str) -> Result<String, Error> {
    let input = doc.input(name)?;
    Ok(input.type_tag)
}

fn built(text: &str) -> Result<Element, Error> {
    Element::from_str(text)
}

#[test]
fn errors_turn_into_the_errors_around_them() {
    let doc = MaterialX::from_str(
        r#"<materialx version="1.39"><input name="a" type="float" value="1"/></materialx>"#,
    )
    .unwrap();
    assert_eq!(first_input(&doc, "a").unwrap(), "float");
    match first_input(&doc, "b") {
        Err(Error::Get(AccessError::NotFound { name, parent })) => {
            assert_eq!(name, "b");
            assert_eq!(parent, "<root>");
        }
        other => panic!("unexpected result {:?}", other),
    }
    assert_eq!(first_input(&doc, "b").unwrap_err().message(), "Failed to access element");
    assert!(matches!(Error::from(AstError::NoName), Error::Ast(AstError::NoName)));
    assert!(matches!(
        AstError::from(VersionError::NoVersion),
        AstError::InvalidVersion(VersionError::NoVersion)
    ));
    let missing = || AccessError::InputMissingValue { name: "x".to_string() };
    assert!(matches!(ResolveError::from(missing()), ResolveError::Access(_)));
    assert!(matches!(
        StandardMaterialTransformError::from(missing()),
        StandardMaterialTransformError::AccessError(_)
    ));
    assert!(matches!(
        MaterialError::from(ResolveError::DepthExceeded),
        MaterialError::GetInput(ResolveError::DepthExceeded)
    ));
    assert!(matches!(
        MaterialError::from(ValueParseError::InvalidLength { expected: 1, actual: 2 }),
        MaterialError::ParseInput(ValueParseError::InvalidLength { expected: 1, actual: 2 })
    ));
    match built("<a>") {
        Err(Error::Xml(e)) => assert!(matches!(Error::from(e), Error::Xml(_))),
        other => panic!("unexpected result {:?}", other),
    }
    match built("<a><b name='x'/></a>") {
        Err(Error::Ast(AstError::NoName)) => {}
        other => panic!("unexpected result {:?}", other),
    }
    assert_eq!(AstError::NoName.message(), "No name attribute found");
    assert_eq!(
        VersionError::InvalidLength { given: "1".to_string() }.message(),
        "Invalid version: 1"
    );
}
