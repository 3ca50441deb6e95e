//! Inputs: the parameters of a node, each with a value or with a reference to where
//! the value is to be found.
use super::error::{AccessError, AccessErrorView};
use crate::ast::{attribute_entries, lookup, Element};
use crate::ast::{attribute, owned};
use crate::data_types::{parse_value, DataTypeAndValue, ValueView};
use vstd::prelude::*;

verus! {

/// What an input holds.
#[derive(Debug, Clone)]
pub enum InputData {
    /// A value, as it is written.
    Value(String),
    /// A reference to a node of the document.
    NodeReference { node_name: String },
    /// A reference to a parameter of the interface of the enclosing node graph.
    InterfaceReference { interface_name: String },
    /// A reference to an output of a node graph.
    OutputReference { nodegraph: String, output: String },
}

/// The mathematical model of an [`InputData`].
pub enum InputDataView {
    Value(Seq<char>),
    NodeReference { node_name: Seq<char> },
    InterfaceReference { interface_name: Seq<char> },
    OutputReference { nodegraph: Seq<char>, output: Seq<char> },
}

impl View for InputData {
    type V = InputDataView;

    open spec fn view(&self) -> InputDataView {
        match self {
            InputData::Value(text) => InputDataView::Value(text@),
            InputData::NodeReference { node_name } => InputDataView::NodeReference {
                node_name: node_name@,
            },
            InputData::InterfaceReference { interface_name } => InputDataView::InterfaceReference {
                interface_name: interface_name@,
            },
            InputData::OutputReference { nodegraph, output } => InputDataView::OutputReference {
                nodegraph: nodegraph@,
                output: output@,
            },
        }
    }
}

/// A parameter of a node.
#[derive(Debug, Clone)]
pub struct Input {
    /// The name of the parameter.
    pub name: String,
    /// The declared type, as a tag of the value grammar.
    pub type_tag: String,
    /// The value, or where to find it.
    pub data: InputData,
    /// The `output` attribute, where there is one.
    pub output: Option<String>,
    /// The colour space of this input, where it names one of its own.
    pub color_space: Option<String>,
}

/// The mathematical model of an [`Input`].
pub struct InputView {
    pub name: Seq<char>,
    pub type_tag: Seq<char>,
    pub data: InputDataView,
    pub output: Option<Seq<char>>,
    pub color_space: Option<Seq<char>>,
}

impl View for Input {
    type V = InputView;

    open spec fn view(&self) -> InputView {
        InputView {
            name: self.name@,
            type_tag: self.type_tag@,
            data: self.data@,
            output: self.output.deep_view(),
            color_space: self.color_space.deep_view(),
        }
    }
}

/// What an element holds when it is read as an input. The first of these decides: a
/// `value`, a `nodename`, an `interfacename`, a `nodegraph` together with an `output`.
pub open spec fn input_data_of(el: Element) -> Result<InputDataView, AccessErrorView> {
    let attrs = attribute_entries(el.attributes);
    if lookup(attrs, "value"@) is Some {
        Ok(InputDataView::Value(lookup(attrs, "value"@)->0))
    } else if lookup(attrs, "nodename"@) is Some {
        Ok(InputDataView::NodeReference { node_name: lookup(attrs, "nodename"@)->0 })
    } else if lookup(attrs, "interfacename"@) is Some {
        Ok(InputDataView::InterfaceReference { interface_name: lookup(attrs, "interfacename"@)->0 })
    } else if lookup(attrs, "nodegraph"@) is Some && lookup(attrs, "output"@) is Some {
        Ok(
            InputDataView::OutputReference {
                nodegraph: lookup(attrs, "nodegraph"@)->0,
                output: lookup(attrs, "output"@)->0,
            },
        )
    } else {
        Err(AccessErrorView::InputMissingData { name: el.name@ })
    }
}

/// The input that an element is: its name, its `type`, what it holds, and its `output`
/// and `colorspace` attributes where it has them.
pub open spec fn input_of(el: Element) -> Result<InputView, AccessErrorView> {
    let attrs = attribute_entries(el.attributes);
    match input_data_of(el) {
        Err(e) => Err(
            AccessErrorView::ConversionError {
                name: el.name@,
                target: "InputData"@,
                source: Box::new(e),
            },
        ),
        Ok(data) => match lookup(attrs, "type"@) {
            None => Err(AccessErrorView::InputMissingData { name: "type"@ }),
            Some(type_tag) => Ok(
                InputView {
                    name: el.name@,
                    type_tag,
                    data,
                    output: lookup(attrs, "output"@),
                    color_space: lookup(attrs, "colorspace"@),
                },
            ),
        },
    }
}

/// The value that an input holds, read by its declared type; an input that holds a
/// reference has none.
pub open spec fn input_value(input: InputView) -> Result<ValueView, AccessErrorView> {
    match input.data {
        InputDataView::Value(text) => match parse_value(input.type_tag, text) {
            Ok(v) => Ok(v),
            Err(e) => Err(
                AccessErrorView::ValueParseError {
                    name: input.name,
                    target: "DataTypeAndValue"@,
                    source: e,
                },
            ),
        },
        _ => Err(AccessErrorView::InputMissingValue { name: input.name }),
    }
}

impl InputData {
    /// Reads what an element holds as an input.
    pub fn from_element(e: &Element) -> (r: Result<InputData, AccessError>)
        ensures
            match r {
                Ok(data) => input_data_of(*e) == Ok::<InputDataView, AccessErrorView>(data@),
                Err(err) => input_data_of(*e) == Err::<InputDataView, AccessErrorView>(err@),
            },
    {
        if let Some(value) = attribute(&e.attributes, "value") {
            return Ok(InputData::Value(value.clone()));
        }
        if let Some(node_name) = attribute(&e.attributes, "nodename") {
            return Ok(InputData::NodeReference { node_name: node_name.clone() });
        }
        if let Some(interface_name) = attribute(&e.attributes, "interfacename") {
            return Ok(InputData::InterfaceReference { interface_name: interface_name.clone() });
        }
        if let Some(nodegraph) = attribute(&e.attributes, "nodegraph") {
            if let Some(output) = attribute(&e.attributes, "output") {
                return Ok(
                    InputData::OutputReference {
                        nodegraph: nodegraph.clone(),
                        output: output.clone(),
                    },
                );
            }
        }
        Err(AccessError::InputMissingData { name: e.name.clone() })
    }
}

impl Input {
    /// Reads an element as an input.
    pub fn from_element(element: &Element) -> (r: Result<Input, AccessError>)
        ensures
            match r {
                Ok(input) => input_of(*element) == Ok::<InputView, AccessErrorView>(input@),
                Err(e) => input_of(*element) == Err::<InputView, AccessErrorView>(e@),
            },
    {
        let data = match InputData::from_element(element) {
            Ok(data) => data,
            Err(e) => {
                return Err(
                    AccessError::ConversionError {
                        name: element.name.clone(),
                        target: "InputData".to_owned(),
                        source: Box::new(e),
                    },
                );
            },
        };
        let type_tag = match attribute(&element.attributes, "type") {
            Some(tag) => tag.clone(),
            None => {
                return Err(AccessError::InputMissingData { name: "type".to_owned() });
            },
        };
        let output = owned(attribute(&element.attributes, "output"));
        let color_space = owned(attribute(&element.attributes, "colorspace"));
        Ok(Input { name: element.name.clone(), type_tag, data, output, color_space })
    }

    /// The value of the input, read by its declared type.
    pub fn value(&self) -> (r: Result<DataTypeAndValue, AccessError>)
        ensures
            match r {
                Ok(v) => input_value(self@) == Ok::<ValueView, AccessErrorView>(v@),
                Err(e) => input_value(self@) == Err::<ValueView, AccessErrorView>(e@),
            },
    {
        match &self.data {
            InputData::Value(text) => match DataTypeAndValue::from_tag_and_value(
                self.type_tag.as_str(),
                text.as_str(),
            ) {
                Ok(v) => Ok(v),
                Err(e) => Err(
                    AccessError::ValueParseError {
                        name: self.name.clone(),
                        target: "DataTypeAndValue".to_owned(),
                        source: Box::new(e),
                    },
                ),
            },
            _ => Err(AccessError::InputMissingValue { name: self.name.clone() }),
        }
    }
}

} // verus!
