//! The decisions of the schema store and the response store. The storage
//! round trips themselves happen around these functions: they take what the
//! store returned and say what the operation yields.
use vstd::prelude::*;
use vstd::string::*;
use crate::error::AppError;
use crate::ids::{assign_id, assigned_id, hyphenated_string, hyphenated_text, response_table_name, response_table_text};
use crate::models::{FieldValue, FormField, FormResponse, FormSchema};

verus! {

/// A schema row as stored: the field list is an encoded blob.
#[derive(Debug)]
pub struct StoredSchema {
    pub id: u128,
    pub name: String,
    pub description: Option<String>,
    pub fields_blob: String,
    pub created_at: Option<i64>,
    pub updated_at: Option<i64>,
}

/// The columns of a schema row as the store hands them back; a column is
/// absent when missing or of another type.
#[derive(Debug)]
pub struct SchemaRow {
    pub id: Option<u128>,
    pub name: Option<String>,
    pub description: Option<String>,
    pub fields_blob: Option<String>,
    pub created_at: Option<i64>,
    pub updated_at: Option<i64>,
}

/// A response row as stored: the value mapping is an encoded blob.
#[derive(Debug)]
pub struct StoredResponse {
    pub id: u128,
    pub form_id: u128,
    pub data_blob: String,
    pub created_at: i64,
}

/// The columns of a response row as the store hands them back.
#[derive(Debug)]
pub struct ResponseRow {
    pub id: Option<u128>,
    pub form_id: Option<u128>,
    pub data_blob: Option<String>,
    pub created_at: Option<i64>,
}

pub open spec fn is_db_error<T>(r: Result<T, AppError>, text: Seq<char>) -> bool {
    match r {
        Err(AppError::DbError(m)) => m@ == text,
        _ => false,
    }
}

pub open spec fn is_internal_error<T>(r: Result<T, AppError>, text: Seq<char>) -> bool {
    match r {
        Err(AppError::InternalError(m)) => m@ == text,
        _ => false,
    }
}

pub open spec fn is_not_found<T>(r: Result<T, AppError>, text: Seq<char>) -> bool {
    match r {
        Err(AppError::NotFound(m)) => m@ == text,
        _ => false,
    }
}

/// `context` followed by `detail`.
fn detailed(context: &str, detail: &str) -> (r: String)
    ensures
        r@ == context@ + detail@,
{
    String::from_str(context).concat(detail)
}

// ---------------------------------------------------------------- schemas

/// The record written for a new schema with identifier `id`, field blob
/// `blob` and creation time `now`.
pub open spec fn planned_schema(schema: FormSchema, id: u128, blob: String, now: i64) -> StoredSchema {
    StoredSchema {
        id,
        name: schema.name,
        description: schema.description,
        fields_blob: blob,
        created_at: Some(now),
        updated_at: Some(now),
    }
}

/// The record to write for a new schema, given the encoding of its field
/// list. Its identifier is the schema's own, else `drawn`, a fresh random
/// identifier; both timestamps are `now`.
pub fn plan_schema(schema: FormSchema, drawn: u128, encoded_fields: Result<String, String>, now: i64) -> (r: Result<StoredSchema, AppError>)
    ensures
        match encoded_fields {
            Ok(blob) => r == Ok::<StoredSchema, AppError>(
                planned_schema(schema, assigned_id(schema.id, drawn), blob, now),
            ),
            Err(e) => is_internal_error(r, "Failed to serialize fields: "@ + e@),
        },
{
    match encoded_fields {
        Ok(blob) => {
            let id = assign_id(schema.id, drawn);
            Ok(StoredSchema {
                id,
                name: schema.name,
                description: schema.description,
                fields_blob: blob,
                created_at: Some(now),
                updated_at: Some(now),
            })
        },
        Err(e) => Err(AppError::InternalError(detailed("Failed to serialize fields: ", e.as_str()))),
    }
}

/// The statement that provisions the empty response table of form `id`.
pub open spec fn provision_text(id: u128) -> Seq<char> {
    "CREATE TABLE IF NOT EXISTS "@ + response_table_text(id)
        + " (id uuid PRIMARY KEY, form_id uuid, data text, created_at timestamp)"@
}

pub fn provision_statement(id: u128) -> (r: String)
    ensures
        r@ == provision_text(id),
{
    let table = response_table_name(id);
    String::from_str("CREATE TABLE IF NOT EXISTS ").concat(table.as_str()).concat(
        " (id uuid PRIMARY KEY, form_id uuid, data text, created_at timestamp)",
    )
}

/// What the write of a schema row yields: nothing, or a storage error.
pub fn schema_write_outcome(written: Result<(), String>) -> (r: Result<(), AppError>)
    ensures
        match written {
            Ok(_) => r is Ok,
            Err(e) => is_db_error(r, "Failed to insert form schema: "@ + e@),
        },
{
    match written {
        Ok(()) => Ok(()),
        Err(e) => Err(AppError::DbError(detailed("Failed to insert form schema: ", e.as_str()))),
    }
}

/// What registering schema `id` yields once its response table was (or was
/// not) provisioned: the identifier, or a storage error.
pub fn provision_outcome(id: u128, provisioned: Result<(), String>) -> (r: Result<u128, AppError>)
    ensures
        match provisioned {
            Ok(_) => r == Ok::<u128, AppError>(id),
            Err(e) => is_db_error(r, "Failed to create form responses table: "@ + e@),
        },
{
    match provisioned {
        Ok(()) => Ok(id),
        Err(e) => Err(AppError::DbError(detailed("Failed to create form responses table: ", e.as_str()))),
    }
}

/// The stored schema that a row returned for a query on `id` holds, if every
/// required column is present. It is the schema `id`: the query selects that
/// key alone.
pub open spec fn checked_schema_row(id: u128, row: SchemaRow) -> Option<StoredSchema> {
    match (row.id, row.name, row.fields_blob) {
        (Some(_), Some(name), Some(blob)) => Some(
            StoredSchema {
                id,
                name,
                description: row.description,
                fields_blob: blob,
                created_at: row.created_at,
                updated_at: row.updated_at,
            },
        ),
        _ => None,
    }
}

/// Which column of a row lacking one is reported.
pub open spec fn schema_row_problem(row: SchemaRow) -> Seq<char> {
    if row.id is None {
        "Failed to get id column"@
    } else if row.name is None {
        "Failed to get name column"@
    } else {
        "Failed to get fields column"@
    }
}

/// The row a written record reads back as.
pub open spec fn row_of(rec: StoredSchema) -> SchemaRow {
    SchemaRow {
        id: Some(rec.id),
        name: Some(rec.name),
        description: rec.description,
        fields_blob: Some(rec.fields_blob),
        created_at: rec.created_at,
        updated_at: rec.updated_at,
    }
}

pub open spec fn not_found_text(id: u128) -> Seq<char> {
    "Form schema with ID "@ + hyphenated_text(id) + " not found"@
}

/// What looking up schema `id` yields when the store answered `fetched`.
pub open spec fn lookup_outcome(
    id: u128,
    fetched: Result<Option<SchemaRow>, String>,
    r: Result<StoredSchema, AppError>,
) -> bool {
    match fetched {
        Err(e) => is_db_error(r, "Failed to fetch form schema: "@ + e@),
        Ok(None) => is_not_found(r, not_found_text(id)),
        Ok(Some(row)) => match checked_schema_row(id, row) {
            Some(rec) => r == Ok::<StoredSchema, AppError>(rec),
            None => is_internal_error(r, schema_row_problem(row)),
        },
    }
}

/// The stored schema `id`, from the store's answer to a query for it: a
/// storage error, `NotFound` when no row came back, an internal error when a
/// required column is missing.
pub fn schema_from_lookup(id: u128, fetched: Result<Option<SchemaRow>, String>) -> (r: Result<StoredSchema, AppError>)
    ensures
        lookup_outcome(id, fetched, r),
        r matches Ok(rec) ==> rec.id == id,
{
    match fetched {
        Err(e) => Err(AppError::DbError(detailed("Failed to fetch form schema: ", e.as_str()))),
        Ok(None) => {
            let text = hyphenated_string(id);
            let m = String::from_str("Form schema with ID ").concat(text.as_str()).concat(" not found");
            Err(AppError::NotFound(m))
        },
        Ok(Some(row)) => {
            let SchemaRow { id: rid, name, description, fields_blob, created_at, updated_at } = row;
            match (rid, name, fields_blob) {
                (Some(_), Some(n), Some(blob)) => Ok(
                    StoredSchema { id, name: n, description, fields_blob: blob, created_at, updated_at },
                ),
                (None, _, _) => Err(AppError::InternalError(String::from_str("Failed to get id column"))),
                (Some(_), None, _) => Err(AppError::InternalError(String::from_str("Failed to get name column"))),
                (Some(_), Some(_), None) => Err(
                    AppError::InternalError(String::from_str("Failed to get fields column")),
                ),
            }
        },
    }
}

/// The schema a stored record and its decoded field list make.
pub open spec fn assembled_schema(rec: StoredSchema, fields: Vec<FormField>) -> FormSchema {
    FormSchema {
        id: Some(rec.id),
        name: rec.name,
        description: rec.description,
        fields,
        created_at: rec.created_at,
        updated_at: rec.updated_at,
    }
}

/// The schema of a stored record, given the decoding of its field blob.
pub fn assemble_schema(rec: StoredSchema, decoded: Result<Vec<FormField>, String>) -> (r: Result<FormSchema, AppError>)
    ensures
        match decoded {
            Ok(fields) => r == Ok::<FormSchema, AppError>(assembled_schema(rec, fields)),
            Err(e) => is_internal_error(r, "Failed to deserialize fields: "@ + e@),
        },
{
    match decoded {
        Ok(fields) => Ok(
            FormSchema {
                id: Some(rec.id),
                name: rec.name,
                description: rec.description,
                fields,
                created_at: rec.created_at,
                updated_at: rec.updated_at,
            },
        ),
        Err(e) => Err(AppError::InternalError(detailed("Failed to deserialize fields: ", e.as_str()))),
    }
}

/// Registering a schema and then fetching it gives back the same name,
/// description and field sequence, provided the stored field blob decodes
/// to the fields it was encoded from.
pub proof fn lemma_create_then_get(schema: FormSchema, id: u128, blob: String, now: i64)
    ensures
        ({
            let rec = planned_schema(schema, id, blob, now);
            &&& checked_schema_row(id, row_of(rec)) == Some(rec)
            &&& forall|r: Result<StoredSchema, AppError>|
                lookup_outcome(id, Ok(Some(row_of(rec))), r) ==> r == Ok::<StoredSchema, AppError>(rec)
            &&& assembled_schema(rec, schema.fields).id == Some(id)
            &&& assembled_schema(rec, schema.fields).name == schema.name
            &&& assembled_schema(rec, schema.fields).description == schema.description
            &&& assembled_schema(rec, schema.fields).fields@ == schema.fields@
        }),
{
}

/// A schema that was never stored is reported as `NotFound`, never as
/// another kind of error. Fetching, rendering, submitting to and listing a
/// form all begin with this lookup.
pub proof fn lemma_unknown_schema_not_found(id: u128, r: Result<StoredSchema, AppError>)
    requires
        lookup_outcome(id, Ok(None), r),
    ensures
        r matches Err(AppError::NotFound(_)),
{
}

// -------------------------------------------------------------- responses

/// A new, unsaved submission of `data` against form `form_id`.
pub fn new_response(form_id: u128, data: Vec<(String, FieldValue)>) -> (r: FormResponse)
    ensures
        r == (FormResponse { id: None, form_id, data, created_at: None }),
{
    FormResponse { id: None, form_id, data, created_at: None }
}

/// The record written for a submission with identifier `id`, value blob
/// `blob` and creation time `now`.
pub open spec fn planned_response(response: FormResponse, id: u128, blob: String, now: i64) -> StoredResponse {
    StoredResponse { id, form_id: response.form_id, data_blob: blob, created_at: now }
}

/// The record to write for a submission, given the encoding of its value
/// mapping. Its identifier is the submission's own, else `drawn`, a fresh
/// random identifier; the creation time is set here, never by the client.
pub fn plan_response(response: FormResponse, drawn: u128, encoded_data: Result<String, String>, now: i64) -> (r: Result<StoredResponse, AppError>)
    ensures
        match encoded_data {
            Ok(blob) => r == Ok::<StoredResponse, AppError>(
                planned_response(response, assigned_id(response.id, drawn), blob, now),
            ),
            Err(e) => is_internal_error(r, "Failed to serialize form data: "@ + e@),
        },
{
    match encoded_data {
        Ok(blob) => {
            let id = assign_id(response.id, drawn);
            Ok(StoredResponse { id, form_id: response.form_id, data_blob: blob, created_at: now })
        },
        Err(e) => Err(AppError::InternalError(detailed("Failed to serialize form data: ", e.as_str()))),
    }
}

/// The statement that writes one response into the table of form `form_id`.
pub fn insert_response_statement(form_id: u128) -> (r: String)
    ensures
        r@ == "INSERT INTO "@ + response_table_text(form_id)
            + " (id, form_id, data, created_at) VALUES (?, ?, ?, ?)"@,
{
    let table = response_table_name(form_id);
    String::from_str("INSERT INTO ").concat(table.as_str()).concat(
        " (id, form_id, data, created_at) VALUES (?, ?, ?, ?)",
    )
}

/// The statement that reads every response of form `form_id`.
pub fn select_responses_statement(form_id: u128) -> (r: String)
    ensures
        r@ == "SELECT id, form_id, data, created_at FROM "@ + response_table_text(form_id),
{
    let table = response_table_name(form_id);
    String::from_str("SELECT id, form_id, data, created_at FROM ").concat(table.as_str())
}

/// What the write of response `id` yields: its identifier, or a storage error.
pub fn response_write_outcome(id: u128, written: Result<(), String>) -> (r: Result<u128, AppError>)
    ensures
        match written {
            Ok(_) => r == Ok::<u128, AppError>(id),
            Err(e) => is_db_error(r, "Failed to insert form response: "@ + e@),
        },
{
    match written {
        Ok(()) => Ok(id),
        Err(e) => Err(AppError::DbError(detailed("Failed to insert form response: ", e.as_str()))),
    }
}

/// The stored response a row holds, if every column is present.
pub open spec fn checked_response_row(row: ResponseRow) -> Option<StoredResponse> {
    match (row.id, row.form_id, row.data_blob, row.created_at) {
        (Some(id), Some(form_id), Some(blob), Some(at)) => Some(
            StoredResponse { id, form_id, data_blob: blob, created_at: at },
        ),
        _ => None,
    }
}

/// Which column of a row lacking one is reported.
pub open spec fn response_row_problem(row: ResponseRow) -> Seq<char> {
    if row.id is None {
        "Failed to get id column"@
    } else if row.form_id is None {
        "Failed to get form_id column"@
    } else if row.data_blob is None {
        "Failed to get data column"@
    } else {
        "Failed to get created_at column or invalid type"@
    }
}

/// What reading the rows `rows` yields: every stored response in row order,
/// or an internal error naming what the first incomplete row lacks.
pub open spec fn rows_outcome(rows: Seq<ResponseRow>, r: Result<Vec<StoredResponse>, AppError>) -> bool {
    if forall|i: int| 0 <= i < rows.len() ==> (#[trigger] checked_response_row(rows[i])) is Some {
        &&& r is Ok
        &&& r->Ok_0@.len() == rows.len()
        &&& forall|i: int| 0 <= i < rows.len() ==> Some(r->Ok_0@[i]) == #[trigger] checked_response_row(rows[i])
    } else {
        exists|k: int|
            0 <= k < rows.len() && (#[trigger] checked_response_row(rows[k])) is None && (forall|j: int|
                0 <= j < k ==> (#[trigger] checked_response_row(rows[j])) is Some) && is_internal_error(
                r,
                response_row_problem(rows[k]),
            )
    }
}

#[verifier::loop_isolation(false)]
fn check_response_rows(mut rows: Vec<ResponseRow>) -> (r: Result<Vec<StoredResponse>, AppError>)
    ensures
        rows_outcome(rows@, r),
{
    let ghost all = rows@;
    let total: usize = rows.len();
    let mut out: Vec<StoredResponse> = Vec::new();
    let mut i: usize = 0;
    while rows.len() > 0
        invariant
            all.len() == total,
            i <= all.len(),
            rows@ == all.subrange(i as int, all.len() as int),
            i + rows@.len() == all.len(),
            out@.len() == i,
            forall|j: int| 0 <= j < i ==> Some(out@[j]) == #[trigger] checked_response_row(all[j]),
        decreases rows.len(),
    {
        let row = rows.remove(0);
        assert(all.subrange(i as int, all.len() as int).remove(0) =~= all.subrange(i + 1, all.len() as int));
        let ghost k = i as int;
        assert(row == all[k]);
        let ResponseRow { id, form_id, data_blob, created_at } = row;
        let failure = match (id, form_id, data_blob, created_at) {
            (Some(a), Some(b), Some(c), Some(d)) => {
                out.push(StoredResponse { id: a, form_id: b, data_blob: c, created_at: d });
                None
            },
            (None, _, _, _) => Some("Failed to get id column"),
            (Some(_), None, _, _) => Some("Failed to get form_id column"),
            (Some(_), Some(_), None, _) => Some("Failed to get data column"),
            (Some(_), Some(_), Some(_), None) => Some("Failed to get created_at column or invalid type"),
        };
        match failure {
            Some(m) => {
                let failed = Err(AppError::InternalError(String::from_str(m)));
                assert(checked_response_row(all[k]) is None);
                assert(forall|j: int| 0 <= j < k ==> (#[trigger] checked_response_row(all[j])) is Some);
                assert(is_internal_error(failed, response_row_problem(all[k])));
                assert(!(forall|j: int| 0 <= j < all.len() ==> (#[trigger] checked_response_row(all[j])) is Some));
                return failed;
            },
            None => {},
        }
        i += 1;
    }
    assert(i == all.len());
    Ok(out)
}

/// The stored responses of a form, from the store's answer to a query for
/// all of its rows. No rows is an empty sequence, not an error.
pub fn responses_from_query(fetched: Result<Vec<ResponseRow>, String>) -> (r: Result<Vec<StoredResponse>, AppError>)
    ensures
        match fetched {
            Ok(rows) => rows_outcome(rows@, r),
            Err(e) => is_db_error(r, "Failed to fetch form responses: "@ + e@),
        },
        (fetched matches Ok(rows) && rows@.len() == 0) ==> (r matches Ok(v) && v@.len() == 0),
{
    match fetched {
        Ok(rows) => check_response_rows(rows),
        Err(e) => Err(AppError::DbError(detailed("Failed to fetch form responses: ", e.as_str()))),
    }
}

/// The response a stored record and its decoded value mapping make.
pub open spec fn response_of(rec: StoredResponse, data: Vec<(String, FieldValue)>) -> FormResponse {
    FormResponse { id: Some(rec.id), form_id: rec.form_id, data, created_at: Some(rec.created_at) }
}

/// What decoding every stored response yields: all responses in order, or
/// an internal error for the first blob that did not decode.
pub open spec fn decode_outcome(
    pairs: Seq<(StoredResponse, Result<Vec<(String, FieldValue)>, String>)>,
    r: Result<Vec<FormResponse>, AppError>,
) -> bool {
    if forall|i: int| 0 <= i < pairs.len() ==> (#[trigger] pairs[i]).1 is Ok {
        &&& r is Ok
        &&& r->Ok_0@.len() == pairs.len()
        &&& forall|i: int| 0 <= i < pairs.len() ==> r->Ok_0@[i] == response_of(#[trigger] pairs[i].0, pairs[i].1->Ok_0)
    } else {
        exists|k: int|
            0 <= k < pairs.len() && (#[trigger] pairs[k]).1 is Err && (forall|j: int|
                0 <= j < k ==> (#[trigger] pairs[j]).1 is Ok) && is_internal_error(
                r,
                "Failed to deserialize response data: "@ + pairs[k].1->Err_0@,
            )
    }
}

/// The responses of a form, each stored record paired with the decoding of
/// its value blob. One blob that does not decode fails the whole listing.
#[verifier::loop_isolation(false)]
pub fn assemble_responses(mut pairs: Vec<(StoredResponse, Result<Vec<(String, FieldValue)>, String>)>) -> (r: Result<Vec<FormResponse>, AppError>)
    ensures
        decode_outcome(pairs@, r),
        pairs@.len() == 0 ==> (r matches Ok(v) && v@.len() == 0),
{
    let ghost all = pairs@;
    let total: usize = pairs.len();
    let mut out: Vec<FormResponse> = Vec::new();
    let mut i: usize = 0;
    while pairs.len() > 0
        invariant
            all.len() == total,
            i <= all.len(),
            pairs@ == all.subrange(i as int, all.len() as int),
            i + pairs@.len() == all.len(),
            out@.len() == i,
            forall|j: int| 0 <= j < i ==> (#[trigger] all[j]).1 is Ok,
            forall|j: int| 0 <= j < i ==> out@[j] == response_of(#[trigger] all[j].0, all[j].1->Ok_0),
        decreases pairs.len(),
    {
        let (rec, decoded) = pairs.remove(0);
        assert(all.subrange(i as int, all.len() as int).remove(0) =~= all.subrange(i + 1, all.len() as int));
        let ghost k = i as int;
        match decoded {
            Ok(data) => {
                out.push(
                    FormResponse { id: Some(rec.id), form_id: rec.form_id, data, created_at: Some(rec.created_at) },
                );
            },
            Err(e) => {
                let failed = Err(AppError::InternalError(detailed("Failed to deserialize response data: ", e.as_str())));
                assert(all[k].1 is Err);
                assert(forall|j: int| 0 <= j < k ==> (#[trigger] all[j]).1 is Ok);
                assert(is_internal_error(failed, "Failed to deserialize response data: "@ + all[k].1->Err_0@));
                assert(!(forall|j: int| 0 <= j < all.len() ==> (#[trigger] all[j]).1 is Ok));
                return failed;
            },
        }
        i += 1;
    }
    assert(i == all.len());
    Ok(out)
}

/// Listing the responses of a form that has none gives an empty sequence,
/// not an error.
pub proof fn lemma_no_submissions_empty_list(
    rows: Seq<ResponseRow>,
    listed: Result<Vec<StoredResponse>, AppError>,
    pairs: Seq<(StoredResponse, Result<Vec<(String, FieldValue)>, String>)>,
    r: Result<Vec<FormResponse>, AppError>,
)
    requires
        rows.len() == 0,
        rows_outcome(rows, listed),
        pairs.len() == 0,
        decode_outcome(pairs, r),
    ensures
        listed matches Ok(v) && v@.len() == 0,
        r matches Ok(v) && v@.len() == 0,
{
}

} // verus!
