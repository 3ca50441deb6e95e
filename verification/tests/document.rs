use materialx_parser::ast::{
    attribute, child_at, child_count, AstError, ColorSpace, VersionError, XmlNode,
};
use materialx_parser::nodes::standard_nodes::{plain_node, standard_node};
use materialx_parser::nodes::{
    AccessError, GetAllByType, GetByTypeAndName, InputData, Node,
};
use materialx_parser::{Element, Error, MaterialX};

const JADE: &str = r#"<?xml version="1.0"?>
<materialx version="1.38" colorspace="lin_rec709">
  <standard_surface name="SR_jade" type="surfaceshader">
    <input name="base" type="float" value="0.5" />
    <input name="base_color" type="color3" value="0.0603, 0.4398, 0.1916" />
    <input name="specular_roughness" type="float" value="0.25" />
    <input name="specular_IOR" type="float" value="2.418" />
    <input name="specular_anisotropy" type="float" value="0.5" />
    <input name="subsurface" type="float" value="0.4" />
    <input name="subsurface_color" type="color3" value="0.0603, 0.4398, 0.1916" />
  </standard_surface>
  <surfacematerial name="Jade" type="material">
    <input name="surfaceshader" type="surfaceshader" nodename="SR_jade" />
  </surfacematerial>
</materialx>
"#;

#[test]
fn principle() {
    let xml = r#"
            <materialx version="1.39">
                <child name="child-1">
                    <grandchild name="grandchild-1"/>
                </child>
                <child name="child-2">
                    <grandchild names="grandchild-2"/>
                </child>
            </materialx>
        "#;
    match MaterialX::from_str(xml) {
        Err(Error::Ast(AstError::Build { parent, index, source })) => {
            assert_eq!(parent, "<root>");
            assert_eq!(index, 3);
            match *source {
                AstError::Build { parent, index, source } => {
                    assert_eq!(parent, "child-2");
                    assert_eq!(index, 1);
                    assert!(matches!(*source, AstError::NoName));
                }
                other => panic!("unexpected cause {:?}", other),
            }
        }
        other => panic!("unexpected result {:?}", other),
    }
}

#[test]
fn readme() {
    let mat = MaterialX::from_str(JADE).unwrap();
    let surfacematerial = plain_node("surfacematerial");
    let standard_surface = plain_node("standard_surface");
    let materials = mat.all(&surfacematerial);
    let first_material = materials.first().unwrap();
    let input = first_material.element.input("surfaceshader").unwrap();
    let InputData::NodeReference { node_name } = input.data else {
        panic!("the surface shader is no reference to a node");
    };
    assert_eq!(node_name, "SR_jade");
    let surface = mat.get(&standard_surface, &node_name).unwrap();
    assert_eq!(surface.element.name, "SR_jade");
    assert_eq!(surface.inputs.len(), 0);
}

#[test]
fn add() {
    let element = Element::from_str(
        r#"
            <add name="node_add_16" type="float">
                <input name="in1" type="float" value="12.3" />
                <input name="in2" type="float" value="0.1" />
            </add>"#,
    )
    .unwrap();
    let kind = standard_node("add").unwrap();
    let node = Node::from_element(&kind, &element).unwrap();
    assert_eq!(node.inputs.len(), 2);
    let in1 = node.inputs[0].as_ref().unwrap();
    assert_eq!(in1.name, "in1");
    assert_eq!(in1.type_tag, "float");
    assert!(matches!(&in1.data, InputData::Value(v) if v == "12.3"));
    let in2 = node.inputs[1].as_ref().unwrap();
    assert!(matches!(&in2.data, InputData::Value(v) if v == "0.1"));
}

#[test]
fn the_root_gives_version_colour_space_and_namespace() {
    let doc = MaterialX::from_str(JADE).unwrap();
    assert_eq!((doc.version.major, doc.version.minor), (1, 38));
    assert!(matches!(doc.colorspace, Some(ColorSpace::LinRec709)));
    assert_eq!(doc.namespace, None);
    assert_eq!(child_count(&doc.elements), 2);
    assert_eq!(child_at(&doc.elements, 0).name, "SR_jade");
    assert_eq!(child_at(&doc.elements, 1).name, "Jade");
    let doc = MaterialX::from_str(
        r#"<materialx version="1.39" namespace="lib" colorspace="mine"><a name="x"/></materialx>"#,
    )
    .unwrap();
    assert_eq!(doc.namespace, Some("lib".to_string()));
    assert!(matches!(doc.colorspace, Some(ColorSpace::Unknown(ref name)) if name == "mine"));
}

#[test]
fn elements_keep_tag_name_attributes_and_children_in_order() {
    let doc = MaterialX::from_str(JADE).unwrap();
    let surface = doc.element("SR_jade").unwrap();
    assert_eq!(surface.tag, "standard_surface");
    assert_eq!(surface.name, "SR_jade");
    assert_eq!(surface.attr("type").unwrap(), "surfaceshader");
    let names: Vec<&str> = surface.attributes.keys().map(|k| k.as_str()).collect();
    assert_eq!(names, vec!["name", "type"]);
    assert_eq!(child_count(&surface.children), 7);
    assert_eq!(child_at(&surface.children, 0).name, "base");
    assert_eq!(child_at(&surface.children, 6).name, "subsurface_color");
    let base = surface.child("base").unwrap();
    assert_eq!(base.tag, "input");
    assert_eq!(attribute(&base.attributes, "value").unwrap(), "0.5");
    assert!(attribute(&base.attributes, "nodename").is_none());
}

#[test]
fn a_missing_attribute_is_reported_by_its_name() {
    let doc = MaterialX::from_str(JADE).unwrap();
    let surface = doc.element("SR_jade").unwrap();
    match surface.attr("colorspace") {
        Err(AccessError::InputMissingData { name }) => assert_eq!(name, "colorspace"),
        other => panic!("unexpected result {:?}", other),
    }
}

#[test]
fn of_two_elements_of_one_name_the_later_is_kept() {
    let doc = MaterialX::from_str(
        r#"<materialx version="1.39">
             <image name="a" type="color3"/>
             <constant name="b" type="float"/>
             <tiledimage name="a" type="float"><input name="file" type="filename" value="x.png"/></tiledimage>
           </materialx>"#,
    )
    .unwrap();
    assert_eq!(child_count(&doc.elements), 2);
    let a = doc.element("a").unwrap();
    assert_eq!(a.tag, "tiledimage");
    assert_eq!(a.attr("type").unwrap(), "float");
    assert_eq!(child_count(&a.children), 1);
    assert_eq!(child_at(&doc.elements, 0).tag, "tiledimage");
    assert_eq!(child_at(&doc.elements, 1).name, "b");
}

#[test]
fn of_two_attributes_of_one_name_the_first_gives_the_name_and_the_last_the_value() {
    let nodes = vec![
        XmlNode { parent: None, is_element: false, tag: String::new(), attributes: vec![] },
        XmlNode {
            parent: Some(0),
            is_element: true,
            tag: "image".to_string(),
            attributes: vec![
                ("name".to_string(), "first".to_string()),
                ("type".to_string(), "float".to_string()),
                ("name".to_string(), "second".to_string()),
            ],
        },
    ];
    let el = Element::from_nodes(&nodes, 1).unwrap();
    assert_eq!(el.name, "first");
    assert_eq!(el.attr("name").unwrap(), "second");
    let names: Vec<&str> = el.attributes.keys().map(|k| k.as_str()).collect();
    assert_eq!(names, vec!["name", "type"]);
}

#[test]
fn a_root_without_elements_is_empty() {
    assert!(matches!(MaterialX::from_str(r#"<materialx version="1.39"/>"#), Err(Error::Empty)));
    assert!(matches!(
        MaterialX::from_str("<materialx version=\"1.39\">\n  <!-- nothing -->\n</materialx>"),
        Err(Error::Empty)
    ));
    assert!(matches!(MaterialX::from_str("<materialx/>"), Err(Error::Empty)));
    assert!(matches!(MaterialX::from_nodes(&vec![]), Err(Error::Empty)));
}

#[test]
fn the_version_is_mandatory() {
    match MaterialX::from_str(r#"<materialx><a name="x"/></materialx>"#) {
        Err(Error::Ast(AstError::InvalidVersion(VersionError::NoVersion))) => {}
        other => panic!("unexpected result {:?}", other),
    }
    match MaterialX::from_str(r#"<materialx version="1"><a name="x"/></materialx>"#) {
        Err(Error::Ast(AstError::InvalidVersion(VersionError::InvalidLength { given }))) => {
            assert_eq!(given, "1");
        }
        other => panic!("unexpected result {:?}", other),
    }
    match MaterialX::from_str(r#"<materialx version="1.x"><a name="x"/></materialx>"#) {
        Err(Error::Ast(AstError::InvalidVersion(VersionError::InvalidNumber { given, .. }))) => {
            assert_eq!(given, "1.x");
        }
        other => panic!("unexpected result {:?}", other),
    }
}

#[test]
fn inclusions_are_refused() {
    let text = r#"<materialx version="1.39"><a name="x"/><include href="other.mtlx"/><b/></materialx>"#;
    assert!(matches!(MaterialX::from_str(text), Err(Error::IncludesNotSupported)));
    let text = r#"<materialx version="1.39"><b/><include href="other.mtlx"/></materialx>"#;
    match MaterialX::from_str(text) {
        Err(Error::Ast(AstError::Build { parent, index, source })) => {
            assert_eq!(parent, "<root>");
            assert_eq!(index, 0);
            assert!(matches!(*source, AstError::NoName));
        }
        other => panic!("unexpected result {:?}", other),
    }
}

#[test]
fn malformed_markup_is_refused_by_the_parser() {
    match MaterialX::from_str("<materialx version=\"1.39\"><a name=\"x\"></materialx>") {
        Err(Error::Xml(e)) => {
            assert!(!e.message.is_empty());
            assert_eq!(e.row, 1);
        }
        other => panic!("unexpected result {:?}", other),
    }
    assert!(matches!(MaterialX::from_str(""), Err(Error::Xml(_))));
    assert!(matches!(Element::from_str("no markup"), Err(Error::Xml(_))));
}

#[test]
fn nodes_by_hand_give_the_same_document_as_text() {
    let nodes = vec![
        XmlNode { parent: None, is_element: false, tag: String::new(), attributes: vec![] },
        XmlNode {
            parent: Some(0),
            is_element: true,
            tag: "materialx".to_string(),
            attributes: vec![("version".to_string(), "1.39".to_string())],
        },
        XmlNode { parent: Some(1), is_element: false, tag: String::new(), attributes: vec![] },
        XmlNode {
            parent: Some(1),
            is_element: true,
            tag: "nodegraph".to_string(),
            attributes: vec![("name".to_string(), "NG".to_string())],
        },
        XmlNode {
            parent: Some(3),
            is_element: true,
            tag: "output".to_string(),
            attributes: vec![("name".to_string(), "out".to_string())],
        },
        XmlNode {
            parent: Some(1),
            is_element: true,
            tag: "image".to_string(),
            attributes: vec![("name".to_string(), "img".to_string())],
        },
    ];
    let doc = MaterialX::from_nodes(&nodes).unwrap();
    assert_eq!(child_count(&doc.elements), 2);
    let graph = doc.element("NG").unwrap();
    assert_eq!(child_count(&graph.children), 1);
    assert_eq!(graph.child("out").unwrap().tag, "output");
    assert_eq!(child_count(&doc.element("img").unwrap().children), 0);
    let text = r#"<materialx version="1.39"> <nodegraph name="NG"><output name="out"/></nodegraph><image name="img"/></materialx>"#;
    let same = MaterialX::from_str(text).unwrap();
    assert_eq!(child_count(&same.elements), 2);
    assert_eq!(child_at(&same.elements, 0).name, "NG");
    assert_eq!(child_at(&same.elements, 1).name, "img");
}

#[test]
fn elements_by_tag() {
    let doc = MaterialX::from_str(
        r#"<materialx version="1.39">
             <image name="a"/><constant name="b"/><image name="c"/>
           </materialx>"#,
    )
    .unwrap();
    let images: Vec<&str> = doc.tags("image").iter().map(|e| e.name.as_str()).collect();
    assert_eq!(images, vec!["a", "c"]);
    assert!(doc.tags("tiledimage").is_empty());
    match doc.element("d") {
        Err(AccessError::NotFound { name, parent }) => {
            assert_eq!(name, "d");
            assert_eq!(parent, "<root>");
        }
        other => panic!("unexpected result {:?}", other),
    }
}
