//! The request layer's own decisions: what each operation answers on
//! success, and the values a rendered form is built from.
use vstd::prelude::*;
use vstd::string::*;
use crate::ids::{assign_id, assigned_id, hyphenated_string, hyphenated_text};
use crate::models::FieldType;

verus! {

/// The five operations of the service.
#[derive(Clone, Copy, Debug, PartialEq, Eq, Structural)]
pub enum Operation {
    RegisterSchema,
    FetchSchema,
    RenderSchema,
    SubmitResponse,
    ListResponses,
}

/// The HTTP status of a successful `op`: created for the two that store
/// something, ok for the rest.
pub open spec fn success_status_of(op: Operation) -> u16 {
    match op {
        Operation::RegisterSchema | Operation::SubmitResponse => 201,
        _ => 200,
    }
}

impl Operation {
    pub fn success_status(self) -> (r: u16)
        ensures
            r == success_status_of(self),
    {
        match self {
            Operation::RegisterSchema | Operation::SubmitResponse => 201,
            _ => 200,
        }
    }

}

/// The name of a field type as the rendered form and stored JSON spell it.
pub open spec fn type_name_text(ft: FieldType) -> Seq<char> {
    match ft {
        FieldType::Text => "Text"@,
        FieldType::Number => "Number"@,
        FieldType::Email => "Email"@,
        FieldType::Date => "Date"@,
        FieldType::Checkbox => "Checkbox"@,
        FieldType::Select => "Select"@,
        FieldType::Radio => "Radio"@,
        FieldType::Textarea => "Textarea"@,
    }
}

pub fn field_type_name(ft: FieldType) -> (r: String)
    ensures
        r@ == type_name_text(ft),
{
    match ft {
        FieldType::Text => String::from_str("Text"),
        FieldType::Number => String::from_str("Number"),
        FieldType::Email => String::from_str("Email"),
        FieldType::Date => String::from_str("Date"),
        FieldType::Checkbox => String::from_str("Checkbox"),
        FieldType::Select => String::from_str("Select"),
        FieldType::Radio => String::from_str("Radio"),
        FieldType::Textarea => String::from_str("Textarea"),
    }
}

/// The path a rendered form posts to for form `id`.
pub open spec fn submit_path_text(id: u128) -> Seq<char> {
    "/api/forms/"@ + hyphenated_text(id) + "/submit"@
}

/// The submission target of a rendered form. A schema without an
/// identifier uses `drawn`, a fresh random one, for this purpose only;
/// nothing is stored.
pub fn submit_action(schema_id: Option<u128>, drawn: u128) -> (r: String)
    ensures
        r@ == submit_path_text(assigned_id(schema_id, drawn)),
{
    let id = assign_id(schema_id, drawn);
    let text = hyphenated_string(id);
    String::from_str("/api/forms/").concat(text.as_str()).concat("/submit")
}

} // verus!
