//! The data that the forms service stores and exchanges.
use vstd::prelude::*;

verus! {

/// The kind of input control a field asks for.
#[derive(Clone, Copy, Debug, PartialEq, Eq, Structural)]
pub enum FieldType {
    Text,
    Number,
    Email,
    Date,
    Checkbox,
    Select,
    Radio,
    Textarea,
}

/// One choice of a select, checkbox or radio field.
#[derive(Clone, Debug)]
pub struct FieldOption {
    pub value: String,
    pub label: String,
}

/// One typed input slot of a form.
#[derive(Clone, Debug)]
pub struct FormField {
    pub id: String,
    pub label: String,
    pub field_type: FieldType,
    pub required: bool,
    pub placeholder: Option<String>,
    pub options: Option<Vec<FieldOption>>,
    /// Stored with the field; nothing evaluates it.
    pub validation: Option<String>,
}

/// A form definition. Identifiers are 128-bit unique ids; timestamps are
/// milliseconds since the Unix epoch.
#[derive(Clone, Debug)]
pub struct FormSchema {
    pub id: Option<u128>,
    pub name: String,
    pub description: Option<String>,
    pub fields: Vec<FormField>,
    pub created_at: Option<i64>,
    pub updated_at: Option<i64>,
}

/// A stored submission value.
#[derive(Clone, Debug)]
pub enum FieldValue {
    Null,
    Bool(bool),
    /// The decimal text of a value that reads as a number.
    Number(String),
    Text(String),
}

/// One submission against a form: field id to value. The coercion of a
/// submission with distinct keys gives unique keys (`keys_unique`).
#[derive(Clone, Debug)]
pub struct FormResponse {
    pub id: Option<u128>,
    pub form_id: u128,
    pub data: Vec<(String, FieldValue)>,
    pub created_at: Option<i64>,
}

/// The envelope around every JSON answer of the service.
#[derive(Debug)]
pub struct ApiResponse<T> {
    pub success: bool,
    pub data: Option<T>,
    pub error: Option<String>,
}

impl<T> ApiResponse<T> {
    pub fn success(data: T) -> (r: Self)
        ensures
            r.success,
            r.data == Some(data),
            r.error.is_none(),
    {
        ApiResponse { success: true, data: Some(data), error: None }
    }

    pub fn error(message: String) -> (r: Self)
        ensures
            !r.success,
            r.data.is_none(),
            r.error == Some(message),
    {
        ApiResponse { success: false, data: None, error: Some(message) }
    }
}

} // verus!
