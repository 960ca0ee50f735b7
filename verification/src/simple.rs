//! The specification of an evaluation as its author writes it.

use crate::textmap::TextMap;
use vstd::prelude::*;

verus! {

/// The type of one declared field of an item.
#[derive(Debug, Clone, Copy, PartialEq, Eq, Structural)]
pub enum SimpleFieldType {
    String,
    Number,
    Boolean,
}

impl View for SimpleFieldType {
    type V = SimpleFieldType;

    open spec fn view(&self) -> SimpleFieldType {
        *self
    }
}

impl SimpleFieldType {
    /// The name of the type in a JSON schema.
    pub open spec fn schema_name(self) -> Seq<char> {
        match self {
            SimpleFieldType::String => "string"@,
            SimpleFieldType::Number => "number"@,
            SimpleFieldType::Boolean => "boolean"@,
        }
    }

    /// The name of the type in a JSON schema.
    pub fn as_str(&self) -> (r: &'static str)
        ensures
            r@ == self.schema_name(),
    {
        match self {
            SimpleFieldType::String => "string",
            SimpleFieldType::Number => "number",
            SimpleFieldType::Boolean => "boolean",
        }
    }
}

/// One test of a specification. A string test compares its input with one reference,
/// named by exactly one of `eq`, `ne`, `like` and `ilike`.
#[derive(Debug)]
pub enum TestSpec {
    String {
        name: Option<String>,
        input: String,
        eq: Option<String>,
        ne: Option<String>,
        like: Option<String>,
        ilike: Option<String>,
    },
}

/// An evaluation as its author writes it: a name, the declared fields of an item, and
/// the tests.
#[derive(Debug)]
pub struct EvalSpec {
    pub name: String,
    pub schema: TextMap<SimpleFieldType>,
    pub tests: Vec<TestSpec>,
}

} // verus!
