use form_portal::api::{field_type_name, submit_action, Operation};
use form_portal::coerce::{coerce_submission, coerce_value, find_field, RawEntry};
use form_portal::error::AppError;
use form_portal::ids::{assign_id, canonical_text, form_id_from_parsed, parse_form_id, response_table_name};
use form_portal::models::{ApiResponse, FieldOption, FieldType, FieldValue, FormField, FormResponse, FormSchema};
use form_portal::render::{generate_form_html, page_context, page_or_fallback};
use form_portal::store::{
    assemble_responses, assemble_schema, insert_response_statement, new_response, plan_response, plan_schema,
    provision_outcome, provision_statement, response_write_outcome, responses_from_query, schema_from_lookup,
    schema_write_outcome, select_responses_statement, ResponseRow, SchemaRow, StoredResponse, StoredSchema,
};

const SAMPLE_ID: u128 = 0xa1a2a3a4b1b2c1c2d1d2d3d4d5d6d7d8;
const SAMPLE_TEXT: &str = "a1a2a3a4-b1b2-c1c2-d1d2-d3d4d5d6d7d8";

fn field(id: &str, label: &str, field_type: FieldType, required: bool) -> FormField {
    FormField {
        id: id.to_string(),
        label: label.to_string(),
        field_type,
        required,
        placeholder: None,
        options: None,
        validation: None,
    }
}

fn schema(id: Option<u128>, name: &str, fields: Vec<FormField>) -> FormSchema {
    FormSchema { id, name: name.to_string(), description: None, fields, created_at: None, updated_at: None }
}

fn raw(key: &str, value: &str) -> RawEntry {
    RawEntry { key: key.to_string(), value: value.to_string(), reads_as_number: value.parse::<f64>().is_ok() }
}

fn row_of(rec: &StoredSchema) -> SchemaRow {
    SchemaRow {
        id: Some(rec.id),
        name: Some(rec.name.clone()),
        description: rec.description.clone(),
        fields_blob: Some(rec.fields_blob.clone()),
        created_at: rec.created_at,
        updated_at: rec.updated_at,
    }
}

fn text_of(v: &FieldValue) -> Option<&str> {
    match v {
        FieldValue::Text(s) => Some(s.as_str()),
        _ => None,
    }
}

fn internal_text<T>(r: Result<T, AppError>) -> String {
    match r {
        Err(AppError::InternalError(m)) => m,
        _ => panic!("expected an internal error"),
    }
}

#[test]
fn number_field_coercion() {
    assert!(matches!(coerce_value(FieldType::Number, String::new(), false), FieldValue::Null));
    match coerce_value(FieldType::Number, "42.5".to_string(), "42.5".parse::<f64>().is_ok()) {
        FieldValue::Number(s) => assert_eq!(s.parse::<f64>().unwrap(), 42.5),
        _ => panic!("expected a number"),
    }
    let v = coerce_value(FieldType::Number, "abc".to_string(), "abc".parse::<f64>().is_ok());
    assert_eq!(text_of(&v), Some("abc"));
}

#[test]
fn checkbox_field_coercion() {
    assert!(matches!(coerce_value(FieldType::Checkbox, "on".to_string(), false), FieldValue::Bool(true)));
    let v = coerce_value(FieldType::Checkbox, "yes".to_string(), false);
    assert_eq!(text_of(&v), Some("yes"));
}

#[test]
fn other_field_types_keep_raw_text() {
    let v = coerce_value(FieldType::Text, String::new(), false);
    assert_eq!(text_of(&v), Some(""));
    let v = coerce_value(FieldType::Email, "on".to_string(), false);
    assert_eq!(text_of(&v), Some("on"));
    let v = coerce_value(FieldType::Textarea, "12".to_string(), true);
    assert_eq!(text_of(&v), Some("12"));
}

#[test]
fn unknown_submission_key_is_dropped() {
    let s = schema(Some(SAMPLE_ID), "Poll", vec![field("age", "Age", FieldType::Number, false)]);
    let data = coerce_submission(&s, &vec![raw("age", "30"), raw("spam", "x")]);
    assert_eq!(data.len(), 1);
    assert_eq!(data[0].0, "age");
    assert!(matches!(&data[0].1, FieldValue::Number(t) if t == "30"));
    assert!(data.iter().all(|(k, _)| k != "spam"));
}

#[test]
fn first_field_with_a_key_decides_its_type() {
    let fields = vec![
        field("a", "A", FieldType::Text, false),
        field("b", "B", FieldType::Checkbox, false),
        field("b", "B again", FieldType::Number, false),
    ];
    assert_eq!(find_field(&fields, &"b".to_string()), Some(1));
    assert_eq!(find_field(&fields, &"c".to_string()), None);
    let s = schema(None, "Dup", fields);
    let data = coerce_submission(&s, &vec![raw("b", "on")]);
    assert!(matches!(data[0].1, FieldValue::Bool(true)));
}

#[test]
fn list_with_no_submissions_is_empty() {
    let listed = responses_from_query(Ok(Vec::new())).unwrap();
    assert!(listed.is_empty());
    let responses = assemble_responses(Vec::new()).unwrap();
    assert!(responses.is_empty());
}

#[test]
fn create_then_get_keeps_schema() {
    let mut f = field("color", "Color", FieldType::Select, true);
    f.options = Some(vec![FieldOption { value: "r".to_string(), label: "Red".to_string() }]);
    let fields = vec![f, field("note", "Note", FieldType::Textarea, false)];
    let mut s = schema(None, "Prefs", fields.clone());
    s.description = Some("Pick one".to_string());
    let rec = plan_schema(s, 77, Ok("[blob]".to_string()), 1_700_000_000_000).unwrap();
    assert_eq!(rec.id, 77);
    assert_eq!(rec.created_at, Some(1_700_000_000_000));
    assert_eq!(rec.updated_at, Some(1_700_000_000_000));
    let id = rec.id;
    let stored = schema_from_lookup(id, Ok(Some(row_of(&rec)))).unwrap();
    assert_eq!(stored.fields_blob, "[blob]");
    let back = assemble_schema(stored, Ok(fields)).unwrap();
    assert_eq!(back.id, Some(id));
    assert_eq!(back.name, "Prefs");
    assert_eq!(back.description.as_deref(), Some("Pick one"));
    assert_eq!(back.fields.len(), 2);
    assert_eq!(back.fields[0].id, "color");
    assert_eq!(back.fields[0].field_type, FieldType::Select);
    assert_eq!(back.fields[0].options.as_ref().unwrap()[0].label, "Red");
    assert_eq!(back.fields[1].id, "note");
}

#[test]
fn given_schema_id_is_kept() {
    let rec = plan_schema(schema(Some(SAMPLE_ID), "X", Vec::new()), 9, Ok("[]".to_string()), 5).unwrap();
    assert_eq!(rec.id, SAMPLE_ID);
    assert_eq!(assign_id(Some(7), 9), 7);
    assert_eq!(assign_id(None, 9), 9);
}

#[test]
fn unknown_schema_is_not_found() {
    match schema_from_lookup(SAMPLE_ID, Ok(None)) {
        Err(e @ AppError::NotFound(_)) => {
            assert_eq!(e.status_code(), 404);
            assert_eq!(e.message(), format!("Not found: Form schema with ID {} not found", SAMPLE_TEXT));
        },
        _ => panic!("expected not found"),
    }
}

#[test]
fn malformed_id_is_bad_request() {
    for bad in ["", "not-a-uuid", "1234", "a1a2a3a4-b1b2-c1c2-d1d2-d3d4d5d6d7dz"] {
        match parse_form_id(bad) {
            Err(e @ AppError::BadRequest(_)) => {
                assert_eq!(e.status_code(), 400);
                assert_eq!(e.message(), "Bad request: Invalid UUID format");
            },
            _ => panic!("expected bad request for {:?}", bad),
        }
    }
    assert!(matches!(form_id_from_parsed(None), Err(AppError::BadRequest(_))));
    assert!(matches!(form_id_from_parsed(Some(3)), Ok(3)));
}

#[test]
fn canonical_id_parses() {
    assert_eq!(parse_form_id(SAMPLE_TEXT).unwrap(), SAMPLE_ID);
    assert_eq!(canonical_text(SAMPLE_ID), SAMPLE_TEXT);
    assert_eq!(parse_form_id(&canonical_text(5)).unwrap(), 5);
}

#[test]
fn distinct_submitted_keys_stay_unique() {
    let s = schema(None, "Two", vec![field("a", "A", FieldType::Text, false), field("b", "B", FieldType::Number, false)]);
    let data = coerce_submission(&s, &vec![raw("b", "1"), raw("a", "x"), raw("c", "y")]);
    assert_eq!(data.len(), 2);
    assert_eq!(data[0].0, "b");
    assert_eq!(data[1].0, "a");
}

#[test]
fn response_table_is_named_by_bare_hex_id() {
    assert_eq!(response_table_name(SAMPLE_ID), "form_portal.form_responses_a1a2a3a4b1b2c1c2d1d2d3d4d5d6d7d8");
    assert_eq!(response_table_name(1), "form_portal.form_responses_00000000000000000000000000000001");
}

#[test]
fn statements_name_the_response_table() {
    assert_eq!(
        provision_statement(SAMPLE_ID),
        "CREATE TABLE IF NOT EXISTS form_portal.form_responses_a1a2a3a4b1b2c1c2d1d2d3d4d5d6d7d8 (id uuid PRIMARY KEY, form_id uuid, data text, created_at timestamp)"
    );
    assert_eq!(
        insert_response_statement(SAMPLE_ID),
        "INSERT INTO form_portal.form_responses_a1a2a3a4b1b2c1c2d1d2d3d4d5d6d7d8 (id, form_id, data, created_at) VALUES (?, ?, ?, ?)"
    );
    assert_eq!(
        select_responses_statement(SAMPLE_ID),
        "SELECT id, form_id, data, created_at FROM form_portal.form_responses_a1a2a3a4b1b2c1c2d1d2d3d4d5d6d7d8"
    );
}

#[test]
fn submit_action_uses_hyphenated_id() {
    assert_eq!(submit_action(Some(SAMPLE_ID), 1), format!("/api/forms/{}/submit", SAMPLE_TEXT));
    assert_eq!(submit_action(None, SAMPLE_ID), format!("/api/forms/{}/submit", SAMPLE_TEXT));
}

#[test]
fn storage_failures_are_db_errors() {
    let e = schema_from_lookup(SAMPLE_ID, Err("timeout".to_string())).unwrap_err();
    assert_eq!(e.message(), "Database error: Failed to fetch form schema: timeout");
    assert_eq!(e.status_code(), 500);
    let e = schema_write_outcome(Err("down".to_string())).unwrap_err();
    assert_eq!(e.message(), "Database error: Failed to insert form schema: down");
    assert!(schema_write_outcome(Ok(())).is_ok());
    let e = provision_outcome(SAMPLE_ID, Err("denied".to_string())).unwrap_err();
    assert_eq!(e.message(), "Database error: Failed to create form responses table: denied");
    assert_eq!(provision_outcome(SAMPLE_ID, Ok(())).unwrap(), SAMPLE_ID);
    let e = response_write_outcome(4, Err("no table".to_string())).unwrap_err();
    assert_eq!(e.message(), "Database error: Failed to insert form response: no table");
    assert_eq!(response_write_outcome(4, Ok(())).unwrap(), 4);
    let e = responses_from_query(Err("gone".to_string())).unwrap_err();
    assert_eq!(e.message(), "Database error: Failed to fetch form responses: gone");
}

#[test]
fn corrupt_data_is_internal_error() {
    let e = plan_schema(schema(None, "X", Vec::new()), 1, Err("bad".to_string()), 0).unwrap_err();
    assert_eq!(e.message(), "Internal server error: Failed to serialize fields: bad");
    assert_eq!(e.status_code(), 500);
    let rec = StoredSchema {
        id: 1,
        name: "N".to_string(),
        description: None,
        fields_blob: "{".to_string(),
        created_at: None,
        updated_at: None,
    };
    assert_eq!(internal_text(assemble_schema(rec, Err("eof".to_string()))), "Failed to deserialize fields: eof");
    let mut row = SchemaRow {
        id: Some(1),
        name: None,
        description: None,
        fields_blob: Some("[]".to_string()),
        created_at: None,
        updated_at: None,
    };
    assert_eq!(internal_text(schema_from_lookup(1, Ok(Some(row)))), "Failed to get name column");
    row = SchemaRow { id: None, name: None, description: None, fields_blob: None, created_at: None, updated_at: None };
    assert_eq!(internal_text(schema_from_lookup(1, Ok(Some(row)))), "Failed to get id column");
    let resp = new_response(1, Vec::new());
    assert_eq!(internal_text(plan_response(resp, 1, Err("nan".to_string()), 0)), "Failed to serialize form data: nan");
}

#[test]
fn first_incomplete_response_row_fails_listing() {
    let good = ResponseRow { id: Some(1), form_id: Some(2), data_blob: Some("{}".to_string()), created_at: Some(3) };
    let no_time = ResponseRow { id: Some(1), form_id: Some(2), data_blob: Some("{}".to_string()), created_at: None };
    let no_data = ResponseRow { id: Some(1), form_id: Some(2), data_blob: None, created_at: None };
    let r = responses_from_query(Ok(vec![good, no_time, no_data]));
    assert_eq!(internal_text(r), "Failed to get created_at column or invalid type");
    let no_form = ResponseRow { id: Some(1), form_id: None, data_blob: None, created_at: None };
    assert_eq!(internal_text(responses_from_query(Ok(vec![no_form]))), "Failed to get form_id column");
}

#[test]
fn one_corrupt_blob_fails_listing() {
    let a = StoredResponse { id: 1, form_id: 9, data_blob: "{}".to_string(), created_at: 10 };
    let b = StoredResponse { id: 2, form_id: 9, data_blob: "{".to_string(), created_at: 11 };
    let r = assemble_responses(vec![(a, Ok(Vec::new())), (b, Err("eof".to_string()))]);
    assert_eq!(internal_text(r), "Failed to deserialize response data: eof");
}

#[test]
fn error_kinds_map_to_statuses() {
    assert_eq!(AppError::DbError("x".to_string()).status_code(), 500);
    assert_eq!(AppError::ValidationError("x".to_string()).status_code(), 500);
    assert_eq!(AppError::NotFound("x".to_string()).status_code(), 404);
    assert_eq!(AppError::InternalError("x".to_string()).status_code(), 500);
    assert_eq!(AppError::BadRequest("x".to_string()).status_code(), 400);
    assert_eq!(AppError::ValidationError("x".to_string()).message(), "Validation error: x");
}

#[test]
fn api_response_envelopes() {
    let ok = ApiResponse::success(5u8);
    assert!(ok.success);
    assert_eq!(ok.data, Some(5));
    assert_eq!(ok.error, None);
    let err: ApiResponse<u8> = ApiResponse::error("nope".to_string());
    assert!(!err.success);
    assert_eq!(err.data, None);
    assert_eq!(err.error.as_deref(), Some("nope"));
}

#[test]
fn operations_and_type_names() {
    assert_eq!(Operation::RegisterSchema.success_status(), 201);
    assert_eq!(Operation::SubmitResponse.success_status(), 201);
    assert_eq!(Operation::ListResponses.success_status(), 200);
    assert_eq!(field_type_name(FieldType::Textarea), "Textarea");
    assert_eq!(field_type_name(FieldType::Checkbox), "Checkbox");
}

#[test]
fn contact_form_end_to_end() {
    let contact = schema(None, "Contact", vec![field("email", "Email", FieldType::Email, true)]);
    let rec = plan_schema(contact, SAMPLE_ID, Ok("[fields]".to_string()), 100).unwrap();
    assert_eq!(rec.id, SAMPLE_ID);
    let form_id = rec.id;
    assert_eq!(provision_outcome(form_id, Ok(())).unwrap(), form_id);
    let stored = schema_from_lookup(form_id, Ok(Some(row_of(&rec)))).unwrap();
    let fetched = assemble_schema(stored, Ok(vec![field("email", "Email", FieldType::Email, true)])).unwrap();
    let data = coerce_submission(&fetched, &vec![raw("email", "a@b.com")]);
    let planned = plan_response(new_response(form_id, data), 42, Ok("{blob}".to_string()), 200).unwrap();
    assert_eq!(planned.id, 42);
    let response_id = response_write_outcome(planned.id, Ok(())).unwrap();
    assert_eq!(response_id, planned.id);
    let rows = vec![ResponseRow {
        id: Some(planned.id),
        form_id: Some(planned.form_id),
        data_blob: Some(planned.data_blob.clone()),
        created_at: Some(planned.created_at),
    }];
    let listed = responses_from_query(Ok(rows)).unwrap();
    let decoded: Vec<(String, FieldValue)> = vec![("email".to_string(), FieldValue::Text("a@b.com".to_string()))];
    let responses: Vec<FormResponse> =
        assemble_responses(listed.into_iter().map(|r| (r, Ok(decoded.clone()))).collect()).unwrap();
    assert_eq!(responses.len(), 1);
    assert_eq!(responses[0].id, Some(response_id));
    assert_eq!(responses[0].form_id, form_id);
    assert_eq!(responses[0].created_at, Some(200));
    assert_eq!(responses[0].data[0].0, "email");
    assert_eq!(text_of(&responses[0].data[0].1), Some("a@b.com"));
}

#[test]
fn rendered_page_shows_each_control_in_order() {
    let mut color = field("color", "Color", FieldType::Select, true);
    color.options = Some(vec![FieldOption { value: "r".to_string(), label: "Red".to_string() }]);
    let mut email = field("email", "Email", FieldType::Email, false);
    email.placeholder = Some("you@example.com".to_string());
    let mut s = schema(Some(SAMPLE_ID), "Survey", vec![email, color, field("agree", "Agree", FieldType::Checkbox, false)]);
    s.description = Some("Tell us".to_string());
    let page = generate_form_html(&s, 1);
    assert!(page.contains("<title>Survey</title>"));
    assert!(page.contains("<p>Tell us</p>"));
    assert!(page.contains(&format!("action=\"/api/forms/{}/submit\"", SAMPLE_TEXT)));
    assert!(page.contains("<input type=\"email\" id=\"email\" name=\"email\"  placeholder=\"you@example.com\">"));
    assert!(page.contains("<select id=\"color\" name=\"color\" required>"));
    assert!(page.contains("<option value=\"r\">Red</option>"));
    assert!(page.contains("Color *"));
    assert!(page.contains("checkbox-group"));
    assert!(page.contains("<select id=\"color\""));
    assert!(!page.contains("type=\"text\" id="));
    let e = page.find("id=\"email\"").unwrap();
    let c = page.find("id=\"color\"").unwrap();
    assert!(e < c);
}

#[test]
fn rendered_page_without_id_posts_to_drawn_id() {
    let s = schema(None, "Draft", vec![field("n", "N", FieldType::Number, false)]);
    let page = generate_form_html(&s, SAMPLE_ID);
    assert!(page.contains(&format!("/api/forms/{}/submit", SAMPLE_TEXT)));
    assert!(page.contains("<input type=\"number\" id=\"n\" name=\"n\""));
    let ctx = page_context(&s, SAMPLE_ID);
    assert_eq!(ctx.fields[0].kind, "Number");
    assert!(ctx.fields[0].options.is_empty());
}

#[test]
fn unrendered_page_falls_back() {
    assert_eq!(page_or_fallback(None), "Failed to render form template");
    assert_eq!(page_or_fallback(Some("<p>x</p>".to_string())), "<p>x</p>");
}

#[test]
fn rendered_page_groups_choices_under_their_field() {
    let mut pick = field("pick", "Pick", FieldType::Radio, true);
    pick.options = Some(vec![
        FieldOption { value: "a".to_string(), label: "Alpha".to_string() },
        FieldOption { value: "b".to_string(), label: "Beta".to_string() },
    ]);
    let mut tags = field("tags", "Tags", FieldType::Checkbox, false);
    tags.options = Some(vec![FieldOption { value: "x".to_string(), label: "Ex".to_string() }]);
    let page = generate_form_html(&schema(Some(SAMPLE_ID), "Choices", vec![pick, tags]), 1);
    assert!(page.contains("<input type=\"radio\" name=\"pick\" value=\"a\" required> Alpha"));
    assert!(page.contains("<input type=\"radio\" name=\"pick\" value=\"b\" required> Beta"));
    assert!(page.contains("<input type=\"checkbox\" name=\"tags\" value=\"x\"> Ex"));
}
