//! From a material of a document to the parameters of a physically based surface.
//!
//! The parameters are given as they are written: numbers as literals, textures as file
//! names. What a renderer makes of them is not decided here.
use crate::ast::{child_entries, Element, MaterialX};
use crate::data_types::{
    color_of, float_of, DataTypeAndValue, Float, ValueParseError, ValueParseErrorView, ValueView,
};
use crate::nodes::standard_nodes::{plain_kind, plain_node};
use crate::nodes::{
    find_input, find_node, input_in, node_in, nodes_among, nodes_in, resolve_field,
    resolve_field_within, root_label, same_value, AccessError, AccessErrorView, InputData,
    InputDataView, NodeKindView, ResolveError, ResolveErrorView, MAX_RESOLVE_DEPTH,
};
use vstd::prelude::*;

verus! {

/// Why the parameters of a surface could not be had.
#[derive(Debug)]
#[non_exhaustive]
pub enum MaterialError {
    /// A parameter has a value of another type than the parameter takes.
    ParseInput(ValueParseError),
    /// A parameter could not be resolved.
    GetInput(ResolveError),
}

/// The mathematical model of a [`MaterialError`].
pub enum MaterialErrorView {
    ParseInput(ValueParseErrorView),
    GetInput(ResolveErrorView),
}

impl View for MaterialError {
    type V = MaterialErrorView;

    open spec fn view(&self) -> MaterialErrorView {
        match self {
            MaterialError::ParseInput(e) => MaterialErrorView::ParseInput(e@),
            MaterialError::GetInput(e) => MaterialErrorView::GetInput(e@),
        }
    }
}

/// Why a document gives no surface.
#[derive(Debug)]
#[non_exhaustive]
pub enum StandardMaterialTransformError {
    /// The document has no material.
    NoMaterialDefined,
    /// The document has no material of that name.
    MaterialNotFound { name: String, source: Box<AccessError> },
    /// The material has no surface shader, or the shader is no standard surface.
    AccessError(AccessError),
    /// The surface shader of the material is given in a way that is not followed.
    Unsupported { reason: String, node: String },
    /// The parameters of the surface of the material could not be had.
    MaterialMapping { name: String, source: Box<MaterialError> },
}

/// The mathematical model of a [`StandardMaterialTransformError`].
pub enum TransformErrorView {
    NoMaterialDefined,
    MaterialNotFound { name: Seq<char>, source: AccessErrorView },
    AccessError(AccessErrorView),
    Unsupported { reason: Seq<char>, node: Seq<char> },
    MaterialMapping { name: Seq<char>, source: MaterialErrorView },
}

impl View for StandardMaterialTransformError {
    type V = TransformErrorView;

    open spec fn view(&self) -> TransformErrorView {
        match self {
            StandardMaterialTransformError::NoMaterialDefined => TransformErrorView::NoMaterialDefined,
            StandardMaterialTransformError::MaterialNotFound {
                name,
                source,
            } => TransformErrorView::MaterialNotFound { name: name@, source: source@ },
            StandardMaterialTransformError::AccessError(e) => TransformErrorView::AccessError(e@),
            StandardMaterialTransformError::Unsupported {
                reason,
                node,
            } => TransformErrorView::Unsupported { reason: reason@, node: node@ },
            StandardMaterialTransformError::MaterialMapping {
                name,
                source,
            } => TransformErrorView::MaterialMapping { name: name@, source: source@ },
        }
    }
}

/// The parameters of a surface. A parameter that the surface does not give, or that
/// cannot be resolved, is left out.
#[derive(Debug)]
pub struct SurfaceParameters {
    /// The channels of the base colour, where it is given as a colour.
    pub base_color: Option<Vec<Float>>,
    /// The file of the base colour, where it is given as a texture.
    pub base_color_texture: Option<String>,
    /// The file of the normal map.
    pub normal_map_texture: Option<String>,
    /// The channels of the emitted colour.
    pub emissive: Option<Vec<Float>>,
    /// The file of the roughness, where it is given as a texture.
    pub metallic_roughness_texture: Option<String>,
    /// The roughness of the specular reflection, where it is given as a number.
    pub perceptual_roughness: Option<Float>,
    /// The metalness.
    pub metallic: Option<Float>,
    /// The weight of the specular reflection.
    pub reflectance: Option<Float>,
    /// The index of refraction.
    pub ior: Option<Float>,
    /// The weight of the base colour; what is left of 1 is transmitted diffusely.
    pub base: Option<Float>,
    /// The weight of the coat.
    pub clearcoat: Option<Float>,
    /// The file of the normal map of the coat.
    pub clearcoat_normal_texture: Option<String>,
    /// The roughness of the coat.
    pub clearcoat_perceptual_roughness: Option<Float>,
}

/// The mathematical model of [`SurfaceParameters`].
pub struct SurfaceParametersView {
    pub base_color: Option<Seq<Seq<char>>>,
    pub base_color_texture: Option<Seq<char>>,
    pub normal_map_texture: Option<Seq<char>>,
    pub emissive: Option<Seq<Seq<char>>>,
    pub metallic_roughness_texture: Option<Seq<char>>,
    pub perceptual_roughness: Option<Seq<char>>,
    pub metallic: Option<Seq<char>>,
    pub reflectance: Option<Seq<char>>,
    pub ior: Option<Seq<char>>,
    pub base: Option<Seq<char>>,
    pub clearcoat: Option<Seq<char>>,
    pub clearcoat_normal_texture: Option<Seq<char>>,
    pub clearcoat_perceptual_roughness: Option<Seq<char>>,
}

impl View for SurfaceParameters {
    type V = SurfaceParametersView;

    open spec fn view(&self) -> SurfaceParametersView {
        SurfaceParametersView {
            base_color: self.base_color.deep_view(),
            base_color_texture: self.base_color_texture.deep_view(),
            normal_map_texture: self.normal_map_texture.deep_view(),
            emissive: self.emissive.deep_view(),
            metallic_roughness_texture: self.metallic_roughness_texture.deep_view(),
            perceptual_roughness: self.perceptual_roughness.deep_view(),
            metallic: self.metallic.deep_view(),
            reflectance: self.reflectance.deep_view(),
            ior: self.ior.deep_view(),
            base: self.base.deep_view(),
            clearcoat: self.clearcoat.deep_view(),
            clearcoat_normal_texture: self.clearcoat_normal_texture.deep_view(),
            clearcoat_perceptual_roughness: self.clearcoat_perceptual_roughness.deep_view(),
        }
    }
}

/// The file that a resolved parameter names, if it resolved to a file name.
pub open spec fn texture_of(r: Result<ValueView, ResolveErrorView>) -> Option<Seq<char>> {
    match r {
        Ok(ValueView::Filename(file)) => Some(file),
        _ => None,
    }
}

/// The colour that a resolved parameter gives. A parameter that did not resolve gives
/// none; one that resolved to anything but a colour is an error.
pub open spec fn color_slot(r: Result<ValueView, ResolveErrorView>) -> Result<
    Option<Seq<Seq<char>>>,
    ValueParseErrorView,
> {
    match r {
        Err(_) => Ok(None),
        Ok(v) => match color_of(v) {
            Ok(c) => Ok(Some(c)),
            Err(e) => Err(e),
        },
    }
}

/// The number that a resolved parameter gives. A parameter that did not resolve gives
/// none; one that resolved to anything but a floating-point number is an error.
pub open spec fn number_slot(r: Result<ValueView, ResolveErrorView>) -> Result<
    Option<Seq<char>>,
    ValueParseErrorView,
> {
    match r {
        Err(_) => Ok(None),
        Ok(v) => match float_of(v) {
            Ok(f) => Ok(Some(f)),
            Err(e) => Err(e),
        },
    }
}

/// As [`color_slot`], but a parameter that resolved to a file name gives no colour and
/// is no error.
pub open spec fn color_unless_texture(r: Result<ValueView, ResolveErrorView>) -> Result<
    Option<Seq<Seq<char>>>,
    ValueParseErrorView,
> {
    if texture_of(r) is Some {
        Ok(None)
    } else {
        color_slot(r)
    }
}

/// As [`number_slot`], but a parameter that resolved to a file name gives no number and
/// is no error.
pub open spec fn number_unless_texture(r: Result<ValueView, ResolveErrorView>) -> Result<
    Option<Seq<char>>,
    ValueParseErrorView,
> {
    if texture_of(r) is Some {
        Ok(None)
    } else {
        number_slot(r)
    }
}

/// The field of `surface`, resolved.
pub open spec fn resolved(doc: MaterialX, surface: Element, field: Seq<char>) -> Result<
    ValueView,
    ResolveErrorView,
> {
    resolve_field(doc, surface, field, MAX_RESOLVE_DEPTH as nat)
}

/// The first parameter of a surface, in the order of [`SurfaceParameters`], whose
/// value is of another type than the parameter takes.
pub open spec fn surface_error(doc: MaterialX, surface: Element) -> Option<ValueParseErrorView> {
    if color_unless_texture(resolved(doc, surface, "base_color"@)) is Err {
        Some(color_unless_texture(resolved(doc, surface, "base_color"@))->Err_0)
    } else if color_slot(resolved(doc, surface, "emissive"@)) is Err {
        Some(color_slot(resolved(doc, surface, "emissive"@))->Err_0)
    } else if number_unless_texture(resolved(doc, surface, "specular_roughness"@)) is Err {
        Some(number_unless_texture(resolved(doc, surface, "specular_roughness"@))->Err_0)
    } else if number_slot(resolved(doc, surface, "metalness"@)) is Err {
        Some(number_slot(resolved(doc, surface, "metalness"@))->Err_0)
    } else if number_slot(resolved(doc, surface, "specular"@)) is Err {
        Some(number_slot(resolved(doc, surface, "specular"@))->Err_0)
    } else if number_slot(resolved(doc, surface, "specular_IOR"@)) is Err {
        Some(number_slot(resolved(doc, surface, "specular_IOR"@))->Err_0)
    } else if number_slot(resolved(doc, surface, "base"@)) is Err {
        Some(number_slot(resolved(doc, surface, "base"@))->Err_0)
    } else if number_slot(resolved(doc, surface, "coat"@)) is Err {
        Some(number_slot(resolved(doc, surface, "coat"@))->Err_0)
    } else if number_slot(resolved(doc, surface, "coat_roughness"@)) is Err {
        Some(number_slot(resolved(doc, surface, "coat_roughness"@))->Err_0)
    } else {
        None
    }
}

/// The parameters of a surface whose values all have the types that the parameters
/// take: each parameter from the field of its name, a texture where the field resolves
/// to a file name.
pub open spec fn surface_parameters(doc: MaterialX, surface: Element) -> SurfaceParametersView {
    SurfaceParametersView {
        base_color: color_unless_texture(resolved(doc, surface, "base_color"@))->Ok_0,
        base_color_texture: texture_of(resolved(doc, surface, "base_color"@)),
        normal_map_texture: texture_of(resolved(doc, surface, "normal"@)),
        emissive: color_slot(resolved(doc, surface, "emissive"@))->Ok_0,
        metallic_roughness_texture: texture_of(resolved(doc, surface, "specular_roughness"@)),
        perceptual_roughness: number_unless_texture(
            resolved(doc, surface, "specular_roughness"@),
        )->Ok_0,
        metallic: number_slot(resolved(doc, surface, "metalness"@))->Ok_0,
        reflectance: number_slot(resolved(doc, surface, "specular"@))->Ok_0,
        ior: number_slot(resolved(doc, surface, "specular_IOR"@))->Ok_0,
        base: number_slot(resolved(doc, surface, "base"@))->Ok_0,
        clearcoat: number_slot(resolved(doc, surface, "coat"@))->Ok_0,
        clearcoat_normal_texture: texture_of(resolved(doc, surface, "coat_normal"@)),
        clearcoat_perceptual_roughness: number_slot(
            resolved(doc, surface, "coat_roughness"@),
        )->Ok_0,
    }
}

/// A field of a surface, resolved.
fn resolve(doc: &MaterialX, surface: &Element, field: &str) -> (r: Result<
    DataTypeAndValue,
    ResolveError,
>)
    ensures
        same_value(r, resolved(*doc, *surface, field@)),
{
    resolve_field_within(doc, surface, field, MAX_RESOLVE_DEPTH)
}

fn texture(r: &Result<DataTypeAndValue, ResolveError>) -> (t: Option<String>)
    ensures
        forall|expected: Result<ValueView, ResolveErrorView>|
            same_value(*r, expected) ==> t.deep_view() == texture_of(expected),
{
    match r {
        Ok(DataTypeAndValue::Filename(file)) => Some(file.clone()),
        _ => None,
    }
}

fn color(r: &Result<DataTypeAndValue, ResolveError>) -> (c: Result<
    Option<Vec<Float>>,
    ValueParseError,
>)
    ensures
        forall|expected: Result<ValueView, ResolveErrorView>|
            same_value(*r, expected) ==> match c {
                Ok(v) => color_slot(expected) == Ok::<
                    Option<Seq<Seq<char>>>,
                    ValueParseErrorView,
                >(v.deep_view()),
                Err(e) => color_slot(expected) == Err::<
                    Option<Seq<Seq<char>>>,
                    ValueParseErrorView,
                >(e@),
            },
{
    match r {
        Err(_) => Ok(None),
        Ok(v) => match v.expect_color() {
            Ok(c) => Ok(Some(c)),
            Err(e) => Err(e),
        },
    }
}

fn number(r: &Result<DataTypeAndValue, ResolveError>) -> (c: Result<Option<Float>, ValueParseError>)
    ensures
        forall|expected: Result<ValueView, ResolveErrorView>|
            same_value(*r, expected) ==> match c {
                Ok(v) => number_slot(expected) == Ok::<Option<Seq<char>>, ValueParseErrorView>(
                    v.deep_view(),
                ),
                Err(e) => number_slot(expected) == Err::<Option<Seq<char>>, ValueParseErrorView>(
                    e@,
                ),
            },
{
    match r {
        Err(_) => Ok(None),
        Ok(v) => match v.expect_float() {
            Ok(f) => Ok(Some(f)),
            Err(e) => Err(e),
        },
    }
}

/// The parameters of a surface, each from the field of its name.
///
/// A field that does not resolve leaves its parameter out. A field that resolves to a
/// file name gives a texture where the parameter can have one. A field that resolves to
/// a value of another type than its parameter takes fails the whole.
pub fn build_material(doc: &MaterialX, surface: &Element) -> (r: Result<
    SurfaceParameters,
    MaterialError,
>)
    ensures
        match r {
            Ok(p) => surface_error(*doc, *surface) is None && p@ == surface_parameters(
                *doc,
                *surface,
            ),
            Err(e) => surface_error(*doc, *surface) is Some && e@ == MaterialErrorView::ParseInput(
                surface_error(*doc, *surface)->0,
            ),
        },
{
    let r = resolve(doc, surface, "base_color");
    let base_color_texture = texture(&r);
    let base_color = if base_color_texture.is_some() {
        None
    } else {
        match color(&r) {
            Ok(c) => c,
            Err(e) => {
                return Err(MaterialError::ParseInput(e));
            },
        }
    };
    let normal_map_texture = texture(&resolve(doc, surface, "normal"));
    let emissive = match color(&resolve(doc, surface, "emissive")) {
        Ok(c) => c,
        Err(e) => {
            return Err(MaterialError::ParseInput(e));
        },
    };
    let r = resolve(doc, surface, "specular_roughness");
    let metallic_roughness_texture = texture(&r);
    let perceptual_roughness = if metallic_roughness_texture.is_some() {
        None
    } else {
        match number(&r) {
            Ok(c) => c,
            Err(e) => {
                return Err(MaterialError::ParseInput(e));
            },
        }
    };
    let metallic = match number(&resolve(doc, surface, "metalness")) {
        Ok(c) => c,
        Err(e) => {
            return Err(MaterialError::ParseInput(e));
        },
    };
    let reflectance = match number(&resolve(doc, surface, "specular")) {
        Ok(c) => c,
        Err(e) => {
            return Err(MaterialError::ParseInput(e));
        },
    };
    let ior = match number(&resolve(doc, surface, "specular_IOR")) {
        Ok(c) => c,
        Err(e) => {
            return Err(MaterialError::ParseInput(e));
        },
    };
    let base = match number(&resolve(doc, surface, "base")) {
        Ok(c) => c,
        Err(e) => {
            return Err(MaterialError::ParseInput(e));
        },
    };
    let clearcoat = match number(&resolve(doc, surface, "coat")) {
        Ok(c) => c,
        Err(e) => {
            return Err(MaterialError::ParseInput(e));
        },
    };
    let clearcoat_normal_texture = texture(&resolve(doc, surface, "coat_normal"));
    let clearcoat_perceptual_roughness = match number(&resolve(doc, surface, "coat_roughness")) {
        Ok(c) => c,
        Err(e) => {
            return Err(MaterialError::ParseInput(e));
        },
    };
    Ok(
        SurfaceParameters {
            base_color,
            base_color_texture,
            normal_map_texture,
            emissive,
            metallic_roughness_texture,
            perceptual_roughness,
            metallic,
            reflectance,
            ior,
            base,
            clearcoat,
            clearcoat_normal_texture,
            clearcoat_perceptual_roughness,
        },
    )
}

/// The material that is asked for: the surface material of that name, or the first
/// surface material of the document where no name is given.
pub open spec fn chosen_material(doc: MaterialX, name: Option<Seq<char>>) -> Result<
    Element,
    TransformErrorView,
> {
    let entries = child_entries(doc.elements);
    let kind = plain_kind("surfacematerial"@);
    match name {
        Some(name) => match find_node(entries, root_label(), kind, name) {
            Ok(node) => Ok(node.element),
            Err(e) => Err(TransformErrorView::MaterialNotFound { name, source: e }),
        },
        None => {
            let all = nodes_among(entries, kind, entries.len() as int);
            if all.len() == 0 {
                Err(TransformErrorView::NoMaterialDefined)
            } else {
                Ok(all[0].element)
            }
        },
    }
}

/// The standard surface that a material refers to with its `surfaceshader` input,
/// which has to be a reference to a node.
pub open spec fn surface_of(doc: MaterialX, material: Element) -> Result<
    Element,
    TransformErrorView,
> {
    match find_input(child_entries(material.children), material.name@, "surfaceshader"@) {
        Err(e) => Err(TransformErrorView::AccessError(e)),
        Ok(input) => match input.data {
            InputDataView::NodeReference { node_name } => match find_node(
                child_entries(doc.elements),
                root_label(),
                plain_kind("standard_surface"@),
                node_name,
            ) {
                Ok(node) => Ok(node.element),
                Err(e) => Err(TransformErrorView::AccessError(e)),
            },
            _ => Err(
                TransformErrorView::Unsupported {
                    reason: "Surface shader input must be a node reference"@,
                    node: input.name,
                },
            ),
        },
    }
}

/// The parameters of the surface of the material that is asked for.
pub open spec fn material_parameters(doc: MaterialX, name: Option<Seq<char>>) -> Result<
    SurfaceParametersView,
    TransformErrorView,
> {
    match chosen_material(doc, name) {
        Err(e) => Err(e),
        Ok(material) => match surface_of(doc, material) {
            Err(e) => Err(e),
            Ok(surface) => match surface_error(doc, surface) {
                Some(e) => Err(
                    TransformErrorView::MaterialMapping {
                        name: material.name@,
                        source: MaterialErrorView::ParseInput(e),
                    },
                ),
                None => Ok(surface_parameters(doc, surface)),
            },
        },
    }
}

/// The material that is asked for.
fn choose_material<'a>(doc: &'a MaterialX, name: Option<&str>) -> (r: Result<
    &'a Element,
    StandardMaterialTransformError,
>)
    ensures
        match r {
            Ok(el) => chosen_material(*doc, name.deep_view()) == Ok::<
                Element,
                TransformErrorView,
            >(*el),
            Err(e) => chosen_material(*doc, name.deep_view()) == Err::<
                Element,
                TransformErrorView,
            >(e@),
        },
{
    let kind = plain_node("surfacematerial");
    match name {
        Some(name) => match node_in(&doc.elements, "<root>", &kind, name) {
            Ok(node) => Ok(node.element),
            Err(e) => Err(
                StandardMaterialTransformError::MaterialNotFound {
                    name: name.to_owned(),
                    source: Box::new(e),
                },
            ),
        },
        None => {
            let all = nodes_in(&doc.elements, &kind);
            if all.len() == 0 {
                Err(StandardMaterialTransformError::NoMaterialDefined)
            } else {
                assert(all.deep_view()[0] == all[0]@);
                Ok(all[0].element)
            }
        },
    }
}

/// The standard surface of a material.
fn surface_for<'a>(doc: &'a MaterialX, material: &Element) -> (r: Result<
    &'a Element,
    StandardMaterialTransformError,
>)
    ensures
        match r {
            Ok(el) => surface_of(*doc, *material) == Ok::<Element, TransformErrorView>(*el),
            Err(e) => surface_of(*doc, *material) == Err::<Element, TransformErrorView>(e@),
        },
{
    let input = match input_in(&material.children, material.name.as_str(), "surfaceshader") {
        Ok(input) => input,
        Err(e) => {
            return Err(StandardMaterialTransformError::AccessError(e));
        },
    };
    match &input.data {
        InputData::NodeReference { node_name } => {
            let kind = plain_node("standard_surface");
            match node_in(&doc.elements, "<root>", &kind, node_name.as_str()) {
                Ok(node) => Ok(node.element),
                Err(e) => Err(StandardMaterialTransformError::AccessError(e)),
            }
        },
        _ => Err(
            StandardMaterialTransformError::Unsupported {
                reason: "Surface shader input must be a node reference".to_owned(),
                node: input.name.clone(),
            },
        ),
    }
}

/// The parameters of the surface of a material of a document: of the surface material
/// of the given name, or of the first surface material where no name is given.
pub fn material_to_pbr(doc: &MaterialX, material: Option<&str>) -> (r: Result<
    SurfaceParameters,
    StandardMaterialTransformError,
>)
    ensures
        match r {
            Ok(p) => material_parameters(*doc, material.deep_view()) == Ok::<
                SurfaceParametersView,
                TransformErrorView,
            >(p@),
            Err(e) => material_parameters(*doc, material.deep_view()) == Err::<
                SurfaceParametersView,
                TransformErrorView,
            >(e@),
        },
{
    let chosen = choose_material(doc, material)?;
    let surface = surface_for(doc, chosen)?;
    match build_material(doc, surface) {
        Ok(p) => Ok(p),
        Err(e) => Err(
            StandardMaterialTransformError::MaterialMapping {
                name: chosen.name.clone(),
                source: Box::new(e),
            },
        ),
    }
}

impl From<ValueParseError> for MaterialError {
    fn from(e: ValueParseError) -> (r: Self) {
        MaterialError::ParseInput(e)
    }
}

impl vstd::std_specs::convert::FromSpecImpl<ValueParseError> for MaterialError {
    open spec fn obeys_from_spec() -> bool {
        true
    }

    open spec fn from_spec(e: ValueParseError) -> Self {
        MaterialError::ParseInput(e)
    }
}

impl From<ResolveError> for MaterialError {
    fn from(e: ResolveError) -> (r: Self) {
        MaterialError::GetInput(e)
    }
}

impl vstd::std_specs::convert::FromSpecImpl<ResolveError> for MaterialError {
    open spec fn obeys_from_spec() -> bool {
        true
    }

    open spec fn from_spec(e: ResolveError) -> Self {
        MaterialError::GetInput(e)
    }
}

impl From<AccessError> for StandardMaterialTransformError {
    fn from(e: AccessError) -> (r: Self) {
        StandardMaterialTransformError::AccessError(e)
    }
}

impl vstd::std_specs::convert::FromSpecImpl<AccessError> for StandardMaterialTransformError {
    open spec fn obeys_from_spec() -> bool {
        true
    }

    open spec fn from_spec(e: AccessError) -> Self {
        StandardMaterialTransformError::AccessError(e)
    }
}

} // verus!
