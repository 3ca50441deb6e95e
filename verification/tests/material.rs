use materialx_parser::data_types::{DataType, ValueParseError};
use materialx_parser::nodes::{AccessError, ResolveError};
use materialx_parser::standard_material::{
    build_material, material_to_pbr, MaterialError, StandardMaterialTransformError,
};
use materialx_parser::MaterialX;

const DOC: &str = r#"<?xml version="1.0"?>
<materialx version="1.38">
  <tiledimage name="Color" type="color3">
    <input name="file" type="filename" value="wood_color.png" />
  </tiledimage>
  <tiledimage name="Rough" type="float">
    <input name="file" type="filename" value="wood_rough.png" />
  </tiledimage>
  <tiledimage name="Bump" type="vector3">
    <input name="file" type="filename" value="wood_normal.png" />
  </tiledimage>
  <normalmap name="Normal" type="vector3">
    <input name="in" type="vector3" nodename="Bump" />
  </normalmap>
  <standard_surface name="Textured" type="surfaceshader">
    <input name="base_color" type="color3" nodename="Color" />
    <input name="specular_roughness" type="float" nodename="Rough" />
    <input name="normal" type="vector3" nodename="Normal" />
    <input name="coat_normal" type="vector3" nodename="Normal" />
    <input name="emissive" type="color3" nodename="Lost" />
  </standard_surface>
  <standard_surface name="Plain" type="surfaceshader">
    <input name="base" type="float" value="0.8" />
    <input name="base_color" type="color3" value="0.1, 0.2, 0.3" />
    <input name="emissive" type="color4" value="1, 1, 1, 0.5" />
    <input name="specular_roughness" type="float" value="0.25" />
    <input name="metalness" type="float" value="1" />
    <input name="specular" type="float" value="0.5" />
    <input name="specular_IOR" type="float" value="1.5" />
    <input name="coat" type="float" value="0.1" />
    <input name="coat_roughness" type="float" value="0.2" />
    <input name="normal" type="vector3" value="0, 0, 1" />
  </standard_surface>
  <standard_surface name="Wrong" type="surfaceshader">
    <input name="base_color" type="color3" value="0.1, 0.2, 0.3" />
    <input name="metalness" type="color3" value="1, 1, 1" />
    <input name="specular" type="integer" value="7" />
  </standard_surface>
  <surfacematerial name="First" type="material">
    <input name="surfaceshader" type="surfaceshader" nodename="Textured" />
  </surfacematerial>
  <surfacematerial name="Second" type="material">
    <input name="surfaceshader" type="surfaceshader" nodename="Plain" />
  </surfacematerial>
  <surfacematerial name="Third" type="material">
    <input name="surfaceshader" type="surfaceshader" nodename="Wrong" />
  </surfacematerial>
  <surfacematerial name="ByValue" type="material">
    <input name="surfaceshader" type="surfaceshader" value="Plain" />
  </surfacematerial>
  <surfacematerial name="Bare" type="material" />
  <surfacematerial name="Misled" type="material">
    <input name="surfaceshader" type="surfaceshader" nodename="Color" />
  </surfacematerial>
</materialx>
"#;

fn doc() -> MaterialX {
    MaterialX::from_str(DOC).unwrap()
}

fn texts(v: &Option<Vec<materialx_parser::data_types::Float>>) -> Vec<String> {
    v.as_ref().unwrap().iter().map(|f| f.as_str().to_string()).collect()
}

#[test]
fn the_first_material_is_taken_where_none_is_named() {
    let p = material_to_pbr(&doc(), None).unwrap();
    assert_eq!(p.base_color_texture, Some("wood_color.png".to_string()));
    assert!(p.base_color.is_none());
    assert_eq!(p.metallic_roughness_texture, Some("wood_rough.png".to_string()));
    assert!(p.perceptual_roughness.is_none());
    assert_eq!(p.normal_map_texture, Some("wood_normal.png".to_string()));
    assert_eq!(p.clearcoat_normal_texture, Some("wood_normal.png".to_string()));
    assert!(p.emissive.is_none());
    assert!(p.metallic.is_none());
    assert!(p.base.is_none());
}

#[test]
fn values_are_kept_as_they_are_written() {
    let p = material_to_pbr(&doc(), Some("Second")).unwrap();
    assert_eq!(texts(&p.base_color), vec!["0.1", "0.2", "0.3"]);
    assert_eq!(texts(&p.emissive), vec!["1", "1", "1", "0.5"]);
    assert_eq!(p.perceptual_roughness.unwrap().as_str(), "0.25");
    assert_eq!(p.metallic.unwrap().as_str(), "1");
    assert_eq!(p.reflectance.unwrap().as_str(), "0.5");
    assert_eq!(p.ior.unwrap().as_str(), "1.5");
    assert_eq!(p.base.as_ref().unwrap().as_str(), "0.8");
    assert_eq!(1.0 - p.base.unwrap().as_str().parse::<f64>().unwrap(), 1.0 - 0.8);
    assert_eq!(p.clearcoat.unwrap().as_str(), "0.1");
    assert_eq!(p.clearcoat_perceptual_roughness.unwrap().as_str(), "0.2");
    assert!(p.base_color_texture.is_none());
    assert!(p.normal_map_texture.is_none());
    assert!(p.clearcoat_normal_texture.is_none());
    assert!(p.metallic_roughness_texture.is_none());
}

#[test]
fn the_first_value_of_a_wrong_type_fails_the_material() {
    match material_to_pbr(&doc(), Some("Third")) {
        Err(StandardMaterialTransformError::MaterialMapping { name, source }) => {
            assert_eq!(name, "Third");
            match *source {
                MaterialError::ParseInput(ValueParseError::UnexpectedFormat { format }) => {
                    assert!(matches!(format, DataType::Color3));
                }
                other => panic!("unexpected cause {:?}", other),
            }
        }
        other => panic!("unexpected result {:?}", other),
    }
    let d = doc();
    assert!(build_material(&d, d.element("Wrong").unwrap()).is_err());
    assert!(build_material(&d, d.element("Plain").unwrap()).is_ok());
}

#[test]
fn a_material_that_is_not_there() {
    match material_to_pbr(&doc(), Some("Fourth")) {
        Err(StandardMaterialTransformError::MaterialNotFound { name, source }) => {
            assert_eq!(name, "Fourth");
            assert!(matches!(*source, AccessError::NotFound { .. }));
        }
        other => panic!("unexpected result {:?}", other),
    }
    match material_to_pbr(&doc(), Some("Plain")) {
        Err(StandardMaterialTransformError::MaterialNotFound { name, source }) => {
            assert_eq!(name, "Plain");
            assert!(matches!(*source, AccessError::TagMismatch { .. }));
        }
        other => panic!("unexpected result {:?}", other),
    }
    let empty = MaterialX::from_str(r#"<materialx version="1.38"><image name="i"/></materialx>"#)
        .unwrap();
    assert!(matches!(
        material_to_pbr(&empty, None),
        Err(StandardMaterialTransformError::NoMaterialDefined)
    ));
}

#[test]
fn the_surface_shader_has_to_be_a_reference_to_a_standard_surface() {
    match material_to_pbr(&doc(), Some("ByValue")) {
        Err(StandardMaterialTransformError::Unsupported { reason, node }) => {
            assert_eq!(reason, "Surface shader input must be a node reference");
            assert_eq!(node, "surfaceshader");
        }
        other => panic!("unexpected result {:?}", other),
    }
    match material_to_pbr(&doc(), Some("Bare")) {
        Err(StandardMaterialTransformError::AccessError(AccessError::NotFound { name, parent })) => {
            assert_eq!(name, "surfaceshader");
            assert_eq!(parent, "Bare");
        }
        other => panic!("unexpected result {:?}", other),
    }
    match material_to_pbr(&doc(), Some("Misled")) {
        Err(StandardMaterialTransformError::AccessError(AccessError::TagMismatch {
            name,
            expected,
            found,
        })) => {
            assert_eq!(name, "Color");
            assert_eq!(expected, "standard_surface");
            assert_eq!(found, "tiledimage");
        }
        other => panic!("unexpected result {:?}", other),
    }
}

#[test]
fn errors_in_words() {
    let d = doc();
    let e = d.resolve_input(d.element("Textured").unwrap(), "emissive").unwrap_err();
    assert_eq!(e.message(), "No element found with name `Lost` (in `<root>`)");
    let chained = ResolveError::Inner {
        element: "A".to_string(),
        field: "b".to_string(),
        source: Box::new(ResolveError::Inner {
            element: "B".to_string(),
            field: "c".to_string(),
            source: Box::new(e),
        }),
    };
    assert_eq!(
        chained.message(),
        "Failed to resolve A.b: Failed to resolve B.c: No element found with name `Lost` (in `<root>`)"
    );
    assert_eq!(ResolveError::DepthExceeded.message(), "Too many references to follow");
    assert_eq!(
        ValueParseError::InvalidLength { expected: 16, actual: 1203 }.message(),
        "Invalid length: expected 16, got 1203"
    );
    assert_eq!(
        ValueParseError::InvalidLength { expected: 0, actual: usize::MAX }.message(),
        format!("Invalid length: expected 0, got {}", usize::MAX)
    );
    let e = materialx_parser::data_types::DataTypeAndValue::from_tag_and_value("integer", "x")
        .unwrap_err();
    assert_eq!(e.message(), "Invalid integer value `x`: invalid digit found in string");
    assert_eq!(
        e.message(),
        format!("Invalid integer value `x`: {}", "x".parse::<u64>().unwrap_err())
    );
    let e = materialx_parser::data_types::DataTypeAndValue::from_tag_and_value("float", "")
        .unwrap_err();
    assert_eq!(
        e.message(),
        format!("Invalid float value ``: {}", "".parse::<f64>().unwrap_err())
    );
    let e = materialx_parser::data_types::DataTypeAndValue::from_tag_and_value("float", "x")
        .unwrap_err();
    assert_eq!(
        e.message(),
        format!("Invalid float value `x`: {}", "x".parse::<f64>().unwrap_err())
    );
    let e = materialx_parser::data_types::DataTypeAndValue::from_tag_and_value("boolean", "x")
        .unwrap_err();
    assert_eq!(
        e.message(),
        format!("Invalid bool value `x`: {}", "x".parse::<bool>().unwrap_err())
    );
    let e = ValueParseError::UnexpectedFormat { format: DataType::Matrix3x3 };
    assert_eq!(e.message(), "Unexpected data format `matrix33`");
    let e = AccessError::TagMismatch {
        name: "n".to_string(),
        expected: "a".to_string(),
        found: "b".to_string(),
    };
    assert_eq!(e.message(), "Element `n` has wrong tag mismatch, expected `a`, found `b`");
    let e = MaterialX::from_str("<materialx/>").unwrap_err();
    assert_eq!(e.message(), "Empty input");
}
