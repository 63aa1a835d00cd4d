//! Nodes of a configuration file and how to read values from them.

use vstd::prelude::*;
use crate::config::utils::Literal;
use crate::text::{option_view, str_eq};

verus! {

/// A value with an optional type name in front of it.
#[derive(Debug)]
pub struct Value {
    pub type_tag: Option<String>,
    pub literal: Literal,
}

/// A node of a configuration file.
#[derive(Debug)]
pub struct Node {
    pub type_tag: Option<String>,
    pub name: String,
    pub arguments: Vec<Value>,
    /// Properties, no two of them with the same name.
    pub properties: Vec<(String, Value)>,
    pub children: Vec<Node>,
}

/// What a value should have been.
#[derive(Debug, Clone, Copy, PartialEq, Eq, Structural)]
pub enum Kind {
    Bool,
    String,
    Integer,
}

/// What is wrong with a configuration file.
#[derive(Debug)]
pub enum DecodeError {
    /// There is a type name where none is expected, or another one.
    TypeName,
    /// There is an argument where none is expected.
    Argument,
    /// This property is not expected.
    Property { name: String },
    /// This node is not expected.
    Node { name: String },
    /// This node may be there once only.
    DuplicateNode { name: String },
    /// This argument is missing.
    MissingArgument { name: String },
    /// A number is too large or too small.
    Conversion,
    /// A value is not of this kind.
    Kind(Kind),
    /// A value is neither a number nor a text.
    Unsupported,
    /// A key bind can't be read.
    Keybind(KeyError),
    /// A key bind has more than one action.
    ManyActions,
    /// A key bind has no action.
    MissingAction,
    /// The action of a key bind can't be read, for the reason with this number.
    Action(u64),
    /// Only a bind that spawns a process can be allowed while the session is
    /// locked.
    LockedBind,
    /// The bind at this place is the first one of two with the same key.
    FirstBind(usize),
    /// The bind at this place has a key that was bound before.
    DuplicateBind(usize),
    /// A section can't be read, for the reason with this number.
    Section(u64),
    /// The home directory that an included path begins with isn't known.
    NoHome,
    /// Files include one another too deeply.
    RecursionLimit,
    /// An included path has no file name.
    NoFileName,
    /// A file includes itself.
    RecursiveInclude,
    /// An included file can't be read, for the reason with this number.
    IncludeNotRead(u64),
    /// An included file can't be understood.
    IncludeNotParsed,
}

/// Why the name of a key was not understood.
#[derive(Debug)]
pub enum KeyError {
    /// There is no modifier with this name.
    InvalidModifier(String),
    /// There is no key with this name.
    InvalidKey(String),
}

/// What is wrong with the type name of a value that takes none.
pub open spec fn untyped_errors(type_tag: Option<String>) -> Seq<DecodeError> {
    match type_tag {
        Some(_) => seq![DecodeError::TypeName],
        None => seq![],
    }
}

/// A truth value, false where it isn't one, and what is wrong with it.
pub open spec fn bool_of(value: Value) -> (bool, Seq<DecodeError>) {
    match value.literal {
        Literal::Bool(b) => (b, untyped_errors(value.type_tag)),
        _ => (false, untyped_errors(value.type_tag).push(DecodeError::Kind(Kind::Bool))),
    }
}

/// What is wrong with the type name of a value that may be typed as `u64`.
pub open spec fn u64_type_errors(type_tag: Option<String>) -> Seq<DecodeError> {
    match type_tag {
        Some(t) => if t@ == "u64"@ {
            seq![]
        } else {
            seq![DecodeError::TypeName]
        },
        None => seq![],
    }
}

/// A number, zero where it isn't one that fits, and what is wrong with it.
pub open spec fn u64_of(value: Value) -> (u64, Seq<DecodeError>) {
    match value.literal {
        Literal::Int(Some(v)) => if 0 <= v <= u64::MAX {
            (v as u64, u64_type_errors(value.type_tag))
        } else {
            (0, u64_type_errors(value.type_tag).push(DecodeError::Conversion))
        },
        Literal::Int(None) => (
            0,
            u64_type_errors(value.type_tag).push(DecodeError::Conversion),
        ),
        _ => (
            0,
            u64_type_errors(value.type_tag).push(DecodeError::Kind(Kind::Integer)),
        ),
    }
}

/// A text or null, an empty text where it is neither, and what is wrong with it.
pub open spec fn option_string_of(value: Value) -> (Option<Seq<char>>, Seq<DecodeError>) {
    match value.literal {
        Literal::Null => (None, untyped_errors(value.type_tag)),
        Literal::String(s) => (Some(s@), untyped_errors(value.type_tag)),
        _ => (
            Some(seq![]),
            untyped_errors(value.type_tag).push(DecodeError::Kind(Kind::String)),
        ),
    }
}

/// Reports a type name where none is expected.
pub fn expect_no_type(type_tag: &Option<String>, errors: &mut Vec<DecodeError>)
    ensures
        final(errors)@ == old(errors)@ + untyped_errors(*type_tag),
{
    if type_tag.is_some() {
        errors.push(DecodeError::TypeName);
    }
    assert(errors@ =~= old(errors)@ + untyped_errors(*type_tag));
}

/// Reads a truth value.
pub fn decode_bool(value: &Value, errors: &mut Vec<DecodeError>) -> (r: bool)
    ensures
        r == bool_of(*value).0,
        final(errors)@ == old(errors)@ + bool_of(*value).1,
{
    expect_no_type(&value.type_tag, errors);
    let ghost before = errors@;
    match &value.literal {
        Literal::Bool(b) => *b,
        _ => {
            errors.push(DecodeError::Kind(Kind::Bool));
            assert(errors@ =~= old(errors)@ + bool_of(*value).1);
            false
        },
    }
}

/// Reads a number that isn't negative.
pub fn decode_u64(value: &Value, errors: &mut Vec<DecodeError>) -> (r: u64)
    ensures
        r == u64_of(*value).0,
        final(errors)@ == old(errors)@ + u64_of(*value).1,
{
    if let Some(t) = &value.type_tag {
        if !str_eq(t.as_str(), "u64") {
            errors.push(DecodeError::TypeName);
        }
    }
    assert(errors@ =~= old(errors)@ + u64_type_errors(value.type_tag));
    match &value.literal {
        Literal::Int(Some(v)) => {
            let v: i128 = *v;
            if 0 <= v && v <= u64::MAX as i128 {
                v as u64
            } else {
                errors.push(DecodeError::Conversion);
                assert(errors@ =~= old(errors)@ + u64_of(*value).1);
                0
            }
        },
        Literal::Int(None) => {
            errors.push(DecodeError::Conversion);
            assert(errors@ =~= old(errors)@ + u64_of(*value).1);
            0
        },
        _ => {
            errors.push(DecodeError::Kind(Kind::Integer));
            assert(errors@ =~= old(errors)@ + u64_of(*value).1);
            0
        },
    }
}

/// Reads a text or null.
pub fn decode_option_string(value: &Value, errors: &mut Vec<DecodeError>) -> (r: Option<String>)
    ensures
        option_view(r) == option_string_of(*value).0,
        final(errors)@ == old(errors)@ + option_string_of(*value).1,
{
    expect_no_type(&value.type_tag, errors);
    match &value.literal {
        Literal::Null => None,
        Literal::String(s) => Some(s.clone()),
        _ => {
            errors.push(DecodeError::Kind(Kind::String));
            assert(errors@ =~= old(errors)@ + option_string_of(*value).1);
            Some(String::new())
        },
    }
}

/// One report for each unexpected argument.
pub open spec fn argument_errors(count: nat) -> Seq<DecodeError> {
    Seq::new(count, |i: int| DecodeError::Argument)
}

/// One report for each unexpected property.
pub open spec fn property_errors(properties: Seq<(String, Value)>) -> Seq<DecodeError> {
    Seq::new(properties.len(), |i: int| DecodeError::Property { name: properties[i].0 })
}

/// One report for each unexpected child.
pub open spec fn child_errors(children: Seq<Node>) -> Seq<DecodeError> {
    Seq::new(children.len(), |i: int| DecodeError::Node { name: children[i].name })
}

/// What is wrong with a node that may have children only.
pub open spec fn only_children_errors(node: Node) -> Seq<DecodeError> {
    untyped_errors(node.type_tag) + argument_errors(node.arguments@.len()) + property_errors(
        node.properties@,
    )
}

/// Reports the arguments of a node that may have none.
pub fn expect_no_arguments(arguments: &Vec<Value>, errors: &mut Vec<DecodeError>)
    ensures
        final(errors)@ == old(errors)@ + argument_errors(arguments@.len()),
{
    let mut i: usize = 0;
    assert(errors@ =~= old(errors)@ + argument_errors(0));
    while i < arguments.len()
        invariant
            i <= arguments@.len(),
            errors@ == old(errors)@ + argument_errors(i as nat),
        decreases arguments@.len() - i,
    {
        errors.push(DecodeError::Argument);
        assert(errors@ =~= old(errors)@ + argument_errors((i + 1) as nat));
        i += 1;
    }
}

/// Reports the properties of a node that may have none.
pub fn expect_no_properties(properties: &Vec<(String, Value)>, errors: &mut Vec<DecodeError>)
    ensures
        final(errors)@ == old(errors)@ + property_errors(properties@),
{
    let mut i: usize = 0;
    assert(errors@ =~= old(errors)@ + property_errors(properties@).take(0));
    while i < properties.len()
        invariant
            i <= properties@.len(),
            errors@ == old(errors)@ + property_errors(properties@).take(i as int),
        decreases properties@.len() - i,
    {
        let name = properties[i].0.clone();
        errors.push(DecodeError::Property { name });
        assert(errors@ =~= old(errors)@ + property_errors(properties@).take(i + 1));
        i += 1;
    }
    assert(property_errors(properties@).take(i as int) =~= property_errors(properties@));
}

/// Reports the children of a node that may have none.
pub fn expect_no_children(children: &Vec<Node>, errors: &mut Vec<DecodeError>)
    ensures
        final(errors)@ == old(errors)@ + child_errors(children@),
{
    let mut i: usize = 0;
    assert(errors@ =~= old(errors)@ + child_errors(children@).take(0));
    while i < children.len()
        invariant
            i <= children@.len(),
            errors@ == old(errors)@ + child_errors(children@).take(i as int),
        decreases children@.len() - i,
    {
        let name = children[i].name.clone();
        errors.push(DecodeError::Node { name });
        assert(errors@ =~= old(errors)@ + child_errors(children@).take(i + 1));
        i += 1;
    }
    assert(child_errors(children@).take(i as int) =~= child_errors(children@));
}

/// Reports everything but the children of a node.
pub fn expect_only_children(node: &Node, errors: &mut Vec<DecodeError>)
    ensures
        final(errors)@ == old(errors)@ + only_children_errors(*node),
{
    expect_no_type(&node.type_tag, errors);
    expect_no_arguments(&node.arguments, errors);
    expect_no_properties(&node.properties, errors);
    assert(errors@ =~= old(errors)@ + only_children_errors(*node));
}

/// What is wrong with a node that may have one argument only, besides that
/// argument.
pub open spec fn arg_node_errors(node: Node) -> Seq<DecodeError> {
    (if node.arguments@.len() > 1 {
        seq![DecodeError::Argument]
    } else {
        seq![]
    }) + property_errors(node.properties@) + child_errors(node.children@)
}

/// The one argument of a node that has nothing else, and what is wrong with the
/// rest of the node. `name` is what the argument is called.
pub fn parse_arg_node<'a>(name: &str, node: &'a Node) -> (r: Result<
    (&'a Value, Vec<DecodeError>),
    DecodeError,
>)
    ensures
        match r {
            Ok((value, errors)) => {
                &&& node.arguments@.len() > 0
                &&& *value == node.arguments@[0]
                &&& errors@ == arg_node_errors(*node)
            },
            Err(DecodeError::MissingArgument { name: missing }) => {
                node.arguments@.len() == 0 && missing@ == name@
            },
            Err(_) => false,
        },
{
    if node.arguments.len() == 0 {
        return Err(DecodeError::MissingArgument { name: name.to_owned() });
    }
    let mut errors: Vec<DecodeError> = Vec::new();
    if node.arguments.len() > 1 {
        errors.push(DecodeError::Argument);
    }
    expect_no_properties(&node.properties, &mut errors);
    expect_no_children(&node.children, &mut errors);
    assert(errors@ =~= arg_node_errors(*node));
    Ok((&node.arguments[0], errors))
}

} // verus!
