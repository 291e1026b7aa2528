use std::collections::HashMap;
use vstd::prelude::*;

verus! {

/// One fragment of a conversation turn: literal text, or a request to call
/// a named function with string arguments.
#[derive(Debug, Clone, PartialEq, Eq)]
pub enum Part {
    Text(String),
    FunctionCall { name: String, args: HashMap<String, String> },
}

/// One turn of a conversation: who speaks, and the ordered fragments said.
#[derive(Debug, Clone, PartialEq, Eq)]
pub struct Content {
    pub role: String,
    pub parts: Vec<Part>,
}

/// The shape and meaning of one parameter of a declared function.
#[derive(Debug, Clone, PartialEq, Eq)]
pub struct ParameterProperty {
    pub kind: String,
    pub description: String,
}

/// The schema of a declared function's arguments: an object with named
/// properties, some of them required.
#[derive(Debug, Clone, PartialEq, Eq)]
pub struct FunctionParameters {
    pub kind: String,
    pub properties: HashMap<String, ParameterProperty>,
    pub required: Vec<String>,
}

/// A function that the model is told it may ask to have called.
#[derive(Debug, Clone, PartialEq, Eq)]
pub struct FunctionDeclaration {
    pub name: String,
    pub description: String,
    pub parameters: FunctionParameters,
}

} // verus!
