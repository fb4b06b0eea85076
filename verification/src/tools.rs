//! The catalog of tools the server offers.
//!
//! The catalog is fixed: it does not depend on the provider, on the request
//! or on anything that happened before.

use crate::protocol::{
    Field, FieldView, InputSchema, InputSchemaView, Parameter, ParameterView, SchemaType, Tool,
    ToolView, field_views, parameter_views, text_views, tool_views,
};
use vstd::prelude::*;

verus! {

/// A parameter that is not an object.
pub open spec fn plain_parameter(
    name: Seq<char>,
    kind: SchemaType,
    description: Seq<char>,
) -> ParameterView {
    ParameterView { name, kind, description, fields: Seq::empty(), required: None }
}

/// The tags an action can have.
pub open spec fn action_tags() -> Seq<Seq<char>> {
    seq![
        "focus"@,
        "press"@,
        "increment"@,
        "decrement"@,
        "set_value"@,
        "scroll"@,
        "context_menu"@,
        "custom"@,
    ]
}

/// The parameter that names a node.
pub open spec fn node_id_parameter() -> ParameterView {
    plain_parameter("node_id"@, SchemaType::String, "The unique identifier of the node"@)
}

/// The parameter that holds an action: an object whose `type` is one of the
/// action tags.
pub open spec fn action_parameter() -> ParameterView {
    ParameterView {
        name: "action"@,
        kind: SchemaType::Object,
        description: "The action to perform"@,
        fields: seq![
            FieldView { name: "type"@, kind: SchemaType::String, choices: Some(action_tags()) },
        ],
        required: Some(seq!["type"@]),
    }
}

/// The descriptor of `query_tree`.
pub open spec fn query_tree_descriptor() -> ToolView {
    ToolView {
        name: "query_tree"@,
        description: "Query the accessibility tree starting from the root node"@,
        input_schema: InputSchemaView {
            properties: seq![
                plain_parameter(
                    "max_depth"@,
                    SchemaType::Integer,
                    "Maximum depth to traverse (optional)"@,
                ),
                plain_parameter(
                    "max_nodes"@,
                    SchemaType::Integer,
                    "Maximum number of nodes to return (optional)"@,
                ),
            ],
            required: None,
        },
    }
}

/// The descriptor of `get_node`.
pub open spec fn get_node_descriptor() -> ToolView {
    ToolView {
        name: "get_node"@,
        description: "Get details for a specific accessibility node by ID"@,
        input_schema: InputSchemaView {
            properties: seq![node_id_parameter()],
            required: Some(seq!["node_id"@]),
        },
    }
}

/// The descriptor of `perform_action`.
pub open spec fn perform_action_descriptor() -> ToolView {
    ToolView {
        name: "perform_action"@,
        description: "Perform an accessibility action on a node"@,
        input_schema: InputSchemaView {
            properties: seq![node_id_parameter(), action_parameter()],
            required: Some(seq!["node_id"@, "action"@]),
        },
    }
}

/// The descriptor of `find_by_name`.
pub open spec fn find_by_name_descriptor() -> ToolView {
    ToolView {
        name: "find_by_name"@,
        description: "Find accessibility nodes by name (substring match)"@,
        input_schema: InputSchemaView {
            properties: seq![
                plain_parameter(
                    "name"@,
                    SchemaType::String,
                    "The name or partial name to search for"@,
                ),
            ],
            required: Some(seq!["name"@]),
        },
    }
}

/// The catalog: the four tools, in the order they are listed.
pub open spec fn tool_catalog() -> Seq<ToolView> {
    seq![
        query_tree_descriptor(),
        get_node_descriptor(),
        perform_action_descriptor(),
        find_by_name_descriptor(),
    ]
}

/// A list that holds one text.
fn one_text(a: &str) -> (r: Vec<String>)
    ensures
        text_views(r@) == seq![a@],
{
    let mut v: Vec<String> = Vec::new();
    v.push(a.to_string());
    v
}

/// A list that holds two texts.
fn two_texts(a: &str, b: &str) -> (r: Vec<String>)
    ensures
        text_views(r@) == seq![a@, b@],
{
    let mut v: Vec<String> = Vec::new();
    v.push(a.to_string());
    v.push(b.to_string());
    v
}

/// The action tags as a list.
fn action_tag_list() -> (r: Vec<String>)
    ensures
        text_views(r@) == action_tags(),
{
    let mut v: Vec<String> = Vec::new();
    v.push("focus".to_string());
    v.push("press".to_string());
    v.push("increment".to_string());
    v.push("decrement".to_string());
    v.push("set_value".to_string());
    v.push("scroll".to_string());
    v.push("context_menu".to_string());
    v.push("custom".to_string());
    v
}

/// Builds a parameter that is not an object.
fn plain(name: &str, kind: SchemaType, description: &str) -> (r: Parameter)
    ensures
        r@ == plain_parameter(name@, kind, description@),
{
    let r = Parameter {
        name: name.to_string(),
        kind,
        description: description.to_string(),
        fields: Vec::new(),
        required: None,
    };
    assert(field_views(r.fields@) =~= Seq::<FieldView>::empty());
    r
}

/// Builds the parameter that names a node.
fn node_id_param() -> (r: Parameter)
    ensures
        r@ == node_id_parameter(),
{
    plain("node_id", SchemaType::String, "The unique identifier of the node")
}

/// Builds the parameter that holds an action.
fn action_param() -> (r: Parameter)
    ensures
        r@ == action_parameter(),
{
    let mut fields: Vec<Field> = Vec::new();
    fields.push(
        Field {
            name: "type".to_string(),
            kind: SchemaType::String,
            choices: Some(action_tag_list()),
        },
    );
    let r = Parameter {
        name: "action".to_string(),
        kind: SchemaType::Object,
        description: "The action to perform".to_string(),
        fields,
        required: Some(one_text("type")),
    };
    assert(field_views(r.fields@) =~= action_parameter().fields);
    r
}

/// Builds the descriptor of `query_tree`.
fn query_tree_tool() -> (r: Tool)
    ensures
        r@ == query_tree_descriptor(),
{
    let mut properties: Vec<Parameter> = Vec::new();
    properties.push(
        plain("max_depth", SchemaType::Integer, "Maximum depth to traverse (optional)"),
    );
    properties.push(
        plain("max_nodes", SchemaType::Integer, "Maximum number of nodes to return (optional)"),
    );
    let r = Tool {
        name: "query_tree".to_string(),
        description: "Query the accessibility tree starting from the root node".to_string(),
        input_schema: InputSchema { properties, required: None },
    };
    assert(parameter_views(r.input_schema.properties@)
        =~= query_tree_descriptor().input_schema.properties);
    r
}

/// Builds the descriptor of `get_node`.
fn get_node_tool() -> (r: Tool)
    ensures
        r@ == get_node_descriptor(),
{
    let mut properties: Vec<Parameter> = Vec::new();
    properties.push(node_id_param());
    let r = Tool {
        name: "get_node".to_string(),
        description: "Get details for a specific accessibility node by ID".to_string(),
        input_schema: InputSchema { properties, required: Some(one_text("node_id")) },
    };
    assert(parameter_views(r.input_schema.properties@)
        =~= get_node_descriptor().input_schema.properties);
    r
}

/// Builds the descriptor of `perform_action`.
fn perform_action_tool() -> (r: Tool)
    ensures
        r@ == perform_action_descriptor(),
{
    let mut properties: Vec<Parameter> = Vec::new();
    properties.push(node_id_param());
    properties.push(action_param());
    let r = Tool {
        name: "perform_action".to_string(),
        description: "Perform an accessibility action on a node".to_string(),
        input_schema: InputSchema {
            properties,
            required: Some(two_texts("node_id", "action")),
        },
    };
    assert(parameter_views(r.input_schema.properties@)
        =~= perform_action_descriptor().input_schema.properties);
    r
}

/// Builds the descriptor of `find_by_name`.
fn find_by_name_tool() -> (r: Tool)
    ensures
        r@ == find_by_name_descriptor(),
{
    let mut properties: Vec<Parameter> = Vec::new();
    properties.push(
        plain("name", SchemaType::String, "The name or partial name to search for"),
    );
    let r = Tool {
        name: "find_by_name".to_string(),
        description: "Find accessibility nodes by name (substring match)".to_string(),
        input_schema: InputSchema { properties, required: Some(one_text("name")) },
    };
    assert(parameter_views(r.input_schema.properties@)
        =~= find_by_name_descriptor().input_schema.properties);
    r
}

/// The tool catalog: always the same four descriptors, in the same order.
pub fn tools_list() -> (r: Vec<Tool>)
    ensures
        tool_views(r@) == tool_catalog(),
        r@.len() == 4,
{
    let mut tools: Vec<Tool> = Vec::new();
    tools.push(query_tree_tool());
    tools.push(get_node_tool());
    tools.push(perform_action_tool());
    tools.push(find_by_name_tool());
    tools
}

} // verus!
