//! Fields that instrumented code attaches to spans and events.

use vstd::prelude::*;

verus! {

/// Value of a field.
#[derive(Debug)]
pub enum FieldValue {
    /// A string, stored as it is.
    Str(String),
    /// Any other value, given by its pretty debug rendering.
    Debug(String),
}

/// A named value.
#[derive(Debug)]
pub struct Field {
    pub name: String,
    pub value: FieldValue,
}

/// What a new span is created from: its name, the target it was declared
/// under, and the fields given at creation.
#[derive(Debug)]
pub struct Attributes {
    pub name: String,
    pub target: String,
    pub fields: Vec<Field>,
}

impl FieldValue {
    /// The text that is stored for the value.
    pub open spec fn text(self) -> Seq<char> {
        match self {
            FieldValue::Str(text) => text@,
            FieldValue::Debug(text) => text@,
        }
    }
}

} // verus!
