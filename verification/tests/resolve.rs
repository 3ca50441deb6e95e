use materialx_parser::data_types::{DataTypeAndValue, ValueParseError};
use materialx_parser::nodes::standard_nodes::{plain_node, standard_node};
use materialx_parser::nodes::{
    resolve_field_within, AccessError, GetAllByType, GetByTypeAndName, Input, InputData,
    ResolveError, Unimplemented, MAX_RESOLVE_DEPTH,
};
use materialx_parser::MaterialX;

const WOOD: &str = r#"<?xml version="1.0"?>
<materialx version="1.38">
  <nodegraph name="NG1">
    <output name="out1" type="color3" nodename="Tile2" />
    <output name="lost" type="color3" nodename="Nowhere" />
  </nodegraph>
  <tiledimage name="Tile1" type="color3">
    <input name="file" type="filename" value="wood.png" />
    <input name="uvtiling" type="vector2" value="4, 4" />
  </tiledimage>
  <tiledimage name="Tile2" type="color3">
    <input name="file" type="filename" value="bark.png" />
  </tiledimage>
  <normalmap name="Normal1" type="vector3">
    <input name="in" type="vector3" nodename="Tile1" />
  </normalmap>
  <normalmap name="Normal2" type="vector3">
    <input name="in" type="vector3" nodename="Normal2" />
  </normalmap>
  <image name="Image1" type="color3">
    <input name="file" type="filename" value="plain.png" />
  </image>
  <standard_surface name="Surface" type="surfaceshader">
    <input name="base_color" type="color3" nodename="Tile1" />
    <input name="specular_roughness" type="float" value="0.35" />
    <input name="normal" type="vector3" nodename="Normal1" />
    <input name="coat_color" type="color3" nodegraph="NG1" output="out1" />
    <input name="coat_normal" type="vector3" nodegraph="NG1" output="lost" />
    <input name="emission" type="float" interfacename="glow" />
    <input name="metalness" type="float" value="much" />
    <input name="sheen" type="float" nodename="Image1" />
    <input name="opacity" type="color3" nodename="Missing" />
    <input name="thin_walled" type="boolean" />
    <input name="subsurface" type="float" nodegraph="NG2" output="out1" />
    <input name="transmission" type="float" nodegraph="NG1" output="out9" />
    <input name="endless" type="vector3" nodename="Normal2" />
  </standard_surface>
  <surfacematerial name="Wood" type="material">
    <input name="surfaceshader" type="surfaceshader" nodename="Surface" />
  </surfacematerial>
</materialx>
"#;

fn wood() -> MaterialX {
    MaterialX::from_str(WOOD).unwrap()
}

#[test]
fn a_value_resolves_to_itself() {
    let doc = wood();
    let surface = doc.element("Surface").unwrap();
    match doc.resolve_input(surface, "specular_roughness") {
        Ok(DataTypeAndValue::Float(f)) => {
            assert_eq!(f.as_str(), "0.35");
            assert_eq!(f.as_str().parse::<f64>().unwrap(), 0.35);
        }
        other => panic!("unexpected result {:?}", other),
    }
}

#[test]
fn a_node_reference_leads_to_the_file_of_a_tiled_image() {
    let doc = wood();
    let surface = doc.element("Surface").unwrap();
    match doc.resolve_input(surface, "base_color") {
        Ok(DataTypeAndValue::Filename(name)) => assert_eq!(name, "wood.png"),
        other => panic!("unexpected result {:?}", other),
    }
}

#[test]
fn references_are_followed_one_after_the_other() {
    let doc = wood();
    let surface = doc.element("Surface").unwrap();
    match doc.resolve_input(surface, "normal") {
        Ok(DataTypeAndValue::Filename(name)) => assert_eq!(name, "wood.png"),
        other => panic!("unexpected result {:?}", other),
    }
    assert!(matches!(
        resolve_field_within(&doc, surface, "normal", 2),
        Ok(DataTypeAndValue::Filename(_))
    ));
}

#[test]
fn an_output_reference_leads_through_the_node_graph() {
    let doc = wood();
    let surface = doc.element("Surface").unwrap();
    match doc.resolve_input(surface, "coat_color") {
        Ok(DataTypeAndValue::Filename(name)) => assert_eq!(name, "bark.png"),
        other => panic!("unexpected result {:?}", other),
    }
}

#[test]
fn an_interface_reference_is_not_implemented() {
    let doc = wood();
    let surface = doc.element("Surface").unwrap();
    match doc.resolve_input(surface, "emission") {
        Err(ResolveError::Unimplemented(Unimplemented::InterfaceReference { interface_name })) => {
            assert_eq!(interface_name, "glow");
        }
        other => panic!("unexpected result {:?}", other),
    }
}

#[test]
fn a_missing_field_is_not_found() {
    let doc = wood();
    let surface = doc.element("Surface").unwrap();
    match doc.resolve_input(surface, "coat") {
        Err(ResolveError::Access(AccessError::NotFound { name, parent })) => {
            assert_eq!(name, "coat");
            assert_eq!(parent, "Surface");
        }
        other => panic!("unexpected result {:?}", other),
    }
}

#[test]
fn a_value_of_the_wrong_form_is_a_parse_error() {
    let doc = wood();
    let surface = doc.element("Surface").unwrap();
    match doc.resolve_input(surface, "metalness") {
        Err(ResolveError::Access(AccessError::ValueParseError { name, target, source })) => {
            assert_eq!(name, "Surface");
            assert_eq!(target, "DataTypeAndValue");
            assert!(matches!(*source, ValueParseError::InvalidFloat { ref got, .. } if got == "much"));
        }
        other => panic!("unexpected result {:?}", other),
    }
}

#[test]
fn a_node_of_an_unknown_kind_is_not_implemented() {
    let doc = wood();
    let surface = doc.element("Surface").unwrap();
    match doc.resolve_input(surface, "sheen") {
        Err(ResolveError::Unimplemented(Unimplemented::NodeTag { name, tag })) => {
            assert_eq!(name, "Image1");
            assert_eq!(tag, "image");
        }
        other => panic!("unexpected result {:?}", other),
    }
}

#[test]
fn a_reference_to_nothing_is_not_found_under_the_root() {
    let doc = wood();
    let surface = doc.element("Surface").unwrap();
    match doc.resolve_input(surface, "opacity") {
        Err(ResolveError::Access(AccessError::NotFound { name, parent })) => {
            assert_eq!(name, "Missing");
            assert_eq!(parent, "<root>");
        }
        other => panic!("unexpected result {:?}", other),
    }
    match doc.resolve_input(surface, "subsurface") {
        Err(ResolveError::Access(AccessError::NotFound { name, parent })) => {
            assert_eq!(name, "NG2");
            assert_eq!(parent, "<root>");
        }
        other => panic!("unexpected result {:?}", other),
    }
    match doc.resolve_input(surface, "transmission") {
        Err(ResolveError::Access(AccessError::NotFound { name, parent })) => {
            assert_eq!(name, "out9");
            assert_eq!(parent, "NG1");
        }
        other => panic!("unexpected result {:?}", other),
    }
}

#[test]
fn an_input_without_data_is_reported_with_element_and_field() {
    let doc = wood();
    let surface = doc.element("Surface").unwrap();
    match doc.resolve_input(surface, "thin_walled") {
        Err(ResolveError::Inner { element, field, source }) => {
            assert_eq!(element, "Surface");
            assert_eq!(field, "thin_walled");
            match *source {
                ResolveError::Access(AccessError::ConversionError { name, target, source }) => {
                    assert_eq!(name, "thin_walled");
                    assert_eq!(target, "Input");
                    match *source {
                        AccessError::ConversionError { name, target, source } => {
                            assert_eq!(name, "thin_walled");
                            assert_eq!(target, "InputData");
                            assert!(matches!(
                                *source,
                                AccessError::InputMissingData { ref name } if name == "thin_walled"
                            ));
                        }
                        other => panic!("unexpected cause {:?}", other),
                    }
                }
                other => panic!("unexpected cause {:?}", other),
            }
        }
        other => panic!("unexpected result {:?}", other),
    }
}

#[test]
fn a_failure_down_the_chain_is_wrapped_at_each_level() {
    let doc = wood();
    let surface = doc.element("Surface").unwrap();
    match doc.resolve_input(surface, "coat_normal") {
        Err(ResolveError::Inner { element, field, source }) => {
            assert_eq!(element, "Surface");
            assert_eq!(field, "coat_normal");
            match *source {
                ResolveError::Access(AccessError::NotFound { name, parent }) => {
                    assert_eq!(name, "Nowhere");
                    assert_eq!(parent, "<root>");
                }
                other => panic!("unexpected cause {:?}", other),
            }
        }
        other => panic!("unexpected result {:?}", other),
    }
}

fn depth_of(e: &ResolveError) -> usize {
    match e {
        ResolveError::Inner { source, .. } => 1 + depth_of(source),
        ResolveError::DepthExceeded => 0,
        other => panic!("unexpected cause {:?}", other),
    }
}

#[test]
fn a_cycle_ends_at_the_limit() {
    let doc = wood();
    let surface = doc.element("Surface").unwrap();
    let e = doc.resolve_input(surface, "endless").unwrap_err();
    assert_eq!(depth_of(&e), MAX_RESOLVE_DEPTH);
    let e = resolve_field_within(&doc, surface, "endless", 3).unwrap_err();
    assert_eq!(depth_of(&e), 3);
    assert!(matches!(
        resolve_field_within(&doc, surface, "endless", 0),
        Err(ResolveError::DepthExceeded)
    ));
    assert!(matches!(
        resolve_field_within(&doc, surface, "normal", 1),
        Err(ResolveError::Inner { .. })
    ));
}

#[test]
fn an_element_of_another_tag_is_a_tag_mismatch() {
    let doc = wood();
    let standard_surface = plain_node("standard_surface");
    match doc.get(&standard_surface, "Image1") {
        Err(AccessError::TagMismatch { name, expected, found }) => {
            assert_eq!(name, "Image1");
            assert_eq!(expected, "standard_surface");
            assert_eq!(found, "image");
        }
        other => panic!("unexpected result {:?}", other),
    }
    assert_eq!(doc.get(&standard_surface, "Surface").unwrap().element.name, "Surface");
    match doc.get(&standard_surface, "Nobody") {
        Err(AccessError::NotFound { name, parent }) => {
            assert_eq!(name, "Nobody");
            assert_eq!(parent, "<root>");
        }
        other => panic!("unexpected result {:?}", other),
    }
}

#[test]
fn a_node_lacking_a_required_field_is_no_node_of_its_kind() {
    let doc = wood();
    let tiledimage = standard_node("tiledimage").unwrap();
    let tile = doc.get(&tiledimage, "Tile1").unwrap();
    assert_eq!(tile.inputs.len(), 2);
    assert_eq!(tile.inputs[0].as_ref().unwrap().name, "file");
    assert_eq!(tile.inputs[1].as_ref().unwrap().name, "uvtiling");
    match doc.get(&tiledimage, "Tile2") {
        Err(AccessError::ConversionError { name, target, source }) => {
            assert_eq!(name, "Tile2");
            assert_eq!(target, "tiledimage");
            match *source {
                AccessError::SubElementAccess { child, parent, source } => {
                    assert_eq!(child, "uvtiling");
                    assert_eq!(parent, "Tile2");
                    assert!(matches!(*source, AccessError::NotFound { .. }));
                }
                other => panic!("unexpected cause {:?}", other),
            }
        }
        other => panic!("unexpected result {:?}", other),
    }
    let all: Vec<&str> = doc.all(&tiledimage).iter().map(|n| n.element.name.as_str()).collect();
    assert_eq!(all, vec!["Tile1"]);
    let all = doc.all(&plain_node("tiledimage"));
    assert_eq!(all.len(), 2);
    assert_eq!(all[1].element.name, "Tile2");
}

#[test]
fn an_optional_field_may_be_left_out() {
    let doc = wood();
    let normalmap = standard_node("normalmap").unwrap();
    assert_eq!(normalmap.fields.len(), 5);
    assert_eq!(normalmap.fields[1].default, Some("1.0".to_string()));
    match doc.get(&normalmap, "Normal1") {
        Err(AccessError::ConversionError { source, .. }) => {
            assert!(matches!(
                *source,
                AccessError::SubElementAccess { ref child, .. } if child == "normal"
            ));
        }
        other => panic!("unexpected result {:?}", other),
    }
    let power = standard_node("power").unwrap();
    let el = materialx_parser::Element::from_str(
        r#"<power name="p"><input name="in1" type="float" value="2"/></power>"#,
    )
    .unwrap();
    let node = materialx_parser::nodes::Node::from_element(&power, &el).unwrap();
    assert!(node.inputs[0].is_some());
    assert!(node.inputs[1].is_none());
    assert!(standard_node("standard_surface").is_none());
}

#[test]
fn inputs_are_read_from_elements() {
    let doc = wood();
    let surface = doc.element("Surface").unwrap();
    let input = surface.input("coat_color").unwrap();
    assert_eq!(input.name, "coat_color");
    assert_eq!(input.type_tag, "color3");
    assert_eq!(input.output, Some("out1".to_string()));
    assert_eq!(input.color_space, None);
    assert!(matches!(
        &input.data,
        InputData::OutputReference { nodegraph, output } if nodegraph == "NG1" && output == "out1"
    ));
    match input.value() {
        Err(AccessError::InputMissingValue { name }) => assert_eq!(name, "coat_color"),
        other => panic!("unexpected result {:?}", other),
    }
    let input = Input::from_element(surface.child("specular_roughness").unwrap()).unwrap();
    assert!(matches!(input.value(), Ok(DataTypeAndValue::Float(_))));
    let input = surface.input("metalness").unwrap();
    match input.value() {
        Err(AccessError::ValueParseError { name, .. }) => assert_eq!(name, "metalness"),
        other => panic!("unexpected result {:?}", other),
    }
    let untyped = materialx_parser::Element::from_str(r#"<input name="x" value="1"/>"#).unwrap();
    match Input::from_element(&untyped) {
        Err(AccessError::InputMissingData { name }) => assert_eq!(name, "type"),
        other => panic!("unexpected result {:?}", other),
    }
    let both = materialx_parser::Element::from_str(
        r#"<input name="x" type="float" nodename="n" value="1"/>"#,
    )
    .unwrap();
    assert!(matches!(InputData::from_element(&both), Ok(InputData::Value(_))));
}
