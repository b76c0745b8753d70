//! Turning a raw form submission into typed stored values.
use vstd::prelude::*;
use vstd::string::*;
use crate::models::{FieldType, FieldValue, FormField, FormSchema};

verus! {

/// One submitted key and its raw text, as a form-encoded body gives it,
/// with whether that text reads as a floating-point number.
#[derive(Clone, Debug)]
pub struct RawEntry {
    pub key: String,
    pub value: String,
    pub reads_as_number: bool,
}

/// The stored value of raw text `raw` submitted for a field of type `ft`.
pub open spec fn coerced(ft: FieldType, raw: String, reads_as_number: bool) -> FieldValue {
    match ft {
        FieldType::Number => if raw@.len() == 0 {
            FieldValue::Null
        } else if reads_as_number {
            FieldValue::Number(raw)
        } else {
            FieldValue::Text(raw)
        },
        FieldType::Checkbox => if raw@ == "on"@ {
            FieldValue::Bool(true)
        } else {
            FieldValue::Text(raw)
        },
        _ => FieldValue::Text(raw),
    }
}

/// No two submitted entries carry the same key.
pub open spec fn raw_keys_distinct(raw: Seq<RawEntry>) -> bool {
    forall|i: int, j: int| 0 <= i < j < raw.len() ==> (#[trigger] raw[i]).key@ != (#[trigger] raw[j]).key@
}

/// No two stored entries carry the same key: the entries form a mapping.
pub open spec fn keys_unique(data: Seq<(String, FieldValue)>) -> bool {
    forall|i: int, j: int| 0 <= i < j < data.len() ==> (#[trigger] data[i]).0@ != (#[trigger] data[j]).0@
}

/// The position of the first field of `fields` whose id is `key`.
pub open spec fn field_index(fields: Seq<FormField>, key: Seq<char>) -> Option<int>
    decreases fields.len(),
{
    if fields.len() == 0 {
        None
    } else {
        match field_index(fields.drop_last(), key) {
            Some(i) => Some(i),
            None => if fields.last().id@ == key {
                Some(fields.len() - 1)
            } else {
                None
            },
        }
    }
}

/// A found position lies within `fields` and names `key`.
pub proof fn lemma_field_index_found(fields: Seq<FormField>, key: Seq<char>)
    ensures
        field_index(fields, key) matches Some(i) ==> 0 <= i < fields.len() && fields[i].id@ == key,
    decreases fields.len(),
{
    if fields.len() > 0 {
        lemma_field_index_found(fields.drop_last(), key);
    }
}

/// A found position as a mathematical integer.
pub open spec fn index_view(o: Option<usize>) -> Option<int> {
    match o {
        Some(i) => Some(i as int),
        None => None,
    }
}

/// The entries a submission `raw` stores against `fields`, in submission
/// order: keys naming no field are dropped, the others are coerced by the
/// type of the first field they name.
pub open spec fn coerced_entries(fields: Seq<FormField>, raw: Seq<RawEntry>) -> Seq<(String, FieldValue)>
    decreases raw.len(),
{
    if raw.len() == 0 {
        Seq::empty()
    } else {
        let prev = coerced_entries(fields, raw.drop_last());
        let e = raw.last();
        match field_index(fields, e.key@) {
            Some(i) => prev.push((e.key, coerced(fields[i].field_type, e.value, e.reads_as_number))),
            None => prev,
        }
    }
}

/// Coerces one raw value by its field's type. Never rejects a value.
pub fn coerce_value(ft: FieldType, raw: String, reads_as_number: bool) -> (r: FieldValue)
    ensures
        r == coerced(ft, raw, reads_as_number),
{
    match ft {
        FieldType::Number => {
            if raw.as_str().is_empty() {
                FieldValue::Null
            } else if reads_as_number {
                FieldValue::Number(raw)
            } else {
                FieldValue::Text(raw)
            }
        },
        FieldType::Checkbox => {
            let on = String::from_str("on");
            if raw == on {
                FieldValue::Bool(true)
            } else {
                FieldValue::Text(raw)
            }
        },
        _ => FieldValue::Text(raw),
    }
}

/// The position of the first field whose id is `key`.
pub fn find_field(fields: &Vec<FormField>, key: &String) -> (r: Option<usize>)
    ensures
        index_view(r) == field_index(fields@, key@),
{
    let mut found: Option<usize> = None;
    let mut i: usize = 0;
    while i < fields.len()
        invariant
            0 <= i <= fields@.len(),
            index_view(found) == field_index(fields@.subrange(0, i as int), key@),
        decreases fields.len() - i,
    {
        assert(fields@.subrange(0, i + 1).drop_last() =~= fields@.subrange(0, i as int));
        if found.is_none() && fields[i].id == *key {
            found = Some(i);
        }
        i += 1;
    }
    assert(fields@.subrange(0, fields@.len() as int) =~= fields@);
    found
}

/// The field-id to value mapping that submission `raw` stores for `schema`.
pub fn coerce_submission(schema: &FormSchema, raw: &Vec<RawEntry>) -> (r: Vec<(String, FieldValue)>)
    ensures
        r@ == coerced_entries(schema.fields@, raw@),
        raw_keys_distinct(raw@) ==> keys_unique(r@),
{
    let mut out: Vec<(String, FieldValue)> = Vec::new();
    let mut i: usize = 0;
    while i < raw.len()
        invariant
            0 <= i <= raw@.len(),
            out@ == coerced_entries(schema.fields@, raw@.subrange(0, i as int)),
        decreases raw.len() - i,
    {
        assert(raw@.subrange(0, i + 1).drop_last() =~= raw@.subrange(0, i as int));
        let e = &raw[i];
        match find_field(&schema.fields, &e.key) {
            Some(j) => {
                proof {
                    lemma_field_index_found(schema.fields@, e.key@);
                }
                let v = coerce_value(schema.fields[j].field_type, e.value.clone(), e.reads_as_number);
                out.push((e.key.clone(), v));
            },
            None => {},
        }
        i += 1;
    }
    assert(raw@.subrange(0, raw@.len() as int) =~= raw@);
    proof {
        if raw_keys_distinct(raw@) {
            lemma_distinct_keys_stay_distinct(schema.fields@, raw@);
        }
    }
    out
}

/// A submitted key that names no field of the schema is not stored.
pub proof fn lemma_unknown_key_dropped(fields: Seq<FormField>, raw: Seq<RawEntry>, key: Seq<char>)
    requires
        field_index(fields, key) is None,
    ensures
        forall|j: int|
            0 <= j < coerced_entries(fields, raw).len() ==> (#[trigger] coerced_entries(fields, raw)[j]).0@
                != key,
    decreases raw.len(),
{
    if raw.len() > 0 {
        lemma_unknown_key_dropped(fields, raw.drop_last(), key);
        let prev = coerced_entries(fields, raw.drop_last());
        let cur = coerced_entries(fields, raw);
        assert forall|j: int| 0 <= j < cur.len() implies (#[trigger] cur[j]).0@ != key by {
            if j < prev.len() {
                assert(cur[j] == prev[j]);
            }
        }
    }
}

/// Every stored key names a field of the schema.
pub proof fn lemma_stored_keys_are_fields(fields: Seq<FormField>, raw: Seq<RawEntry>)
    ensures
        forall|j: int|
            0 <= j < coerced_entries(fields, raw).len() ==> field_index(
                fields,
                (#[trigger] coerced_entries(fields, raw)[j]).0@,
            ) is Some,
    decreases raw.len(),
{
    if raw.len() > 0 {
        lemma_stored_keys_are_fields(fields, raw.drop_last());
    }
}

/// A key that no submitted entry carries is not stored.
pub proof fn lemma_absent_key_not_stored(fields: Seq<FormField>, raw: Seq<RawEntry>, key: Seq<char>)
    requires
        forall|k: int| 0 <= k < raw.len() ==> (#[trigger] raw[k]).key@ != key,
    ensures
        forall|j: int|
            0 <= j < coerced_entries(fields, raw).len() ==> (#[trigger] coerced_entries(fields, raw)[j]).0@
                != key,
    decreases raw.len(),
{
    if raw.len() > 0 {
        let init = raw.drop_last();
        assert forall|k: int| 0 <= k < init.len() implies (#[trigger] init[k]).key@ != key by {
            assert(init[k] == raw[k]);
        }
        lemma_absent_key_not_stored(fields, init, key);
        let prev = coerced_entries(fields, init);
        let cur = coerced_entries(fields, raw);
        assert(raw[raw.len() - 1].key@ != key);
        assert forall|j: int| 0 <= j < cur.len() implies (#[trigger] cur[j]).0@ != key by {
            if j < prev.len() {
                assert(cur[j] == prev[j]);
            }
        }
    }
}

/// A submission whose keys are distinct stores a mapping: its stored keys
/// are distinct too.
pub proof fn lemma_distinct_keys_stay_distinct(fields: Seq<FormField>, raw: Seq<RawEntry>)
    requires
        raw_keys_distinct(raw),
    ensures
        keys_unique(coerced_entries(fields, raw)),
    decreases raw.len(),
{
    if raw.len() > 0 {
        let init = raw.drop_last();
        let last = raw[raw.len() - 1];
        assert forall|i: int, j: int| 0 <= i < j < init.len() implies (#[trigger] init[i]).key@
            != (#[trigger] init[j]).key@ by {
            assert(init[i] == raw[i] && init[j] == raw[j]);
        }
        lemma_distinct_keys_stay_distinct(fields, init);
        assert forall|k: int| 0 <= k < init.len() implies (#[trigger] init[k]).key@ != last.key@ by {
            assert(init[k] == raw[k]);
        }
        lemma_absent_key_not_stored(fields, init, last.key@);
        let prev = coerced_entries(fields, init);
        let cur = coerced_entries(fields, raw);
        assert forall|i: int, j: int| 0 <= i < j < cur.len() implies (#[trigger] cur[i]).0@
            != (#[trigger] cur[j]).0@ by {
            assert(cur[i] == prev[i]);
            if j < prev.len() {
                assert(cur[j] == prev[j]);
            }
        }
    }
}

} // verus!
