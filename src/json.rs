//! The JSON form of schema documents, as advertised to callers.

use vstd::prelude::*;
use crate::registry::Registry;
use crate::schema::{kind_label, kind_label_spec, required_field_names, required_names, FieldSpec, SchemaDoc};

verus! {

/// A JSON value, as far as schema documents need one.
pub enum Json {
    Null,
    Text(String),
    Array(Vec<Json>),
    /// Entries in the order they are written.
    Object(Vec<JsonEntry>),
}

/// One key and its value in a JSON object.
pub struct JsonEntry {
    pub key: String,
    pub value: Json,
}

pub open spec fn is_text(j: Json, s: Seq<char>) -> bool {
    j matches Json::Text(t) && t@ == s
}

pub open spec fn entry_is_text(e: JsonEntry, k: Seq<char>, v: Seq<char>) -> bool {
    e.key@ == k && is_text(e.value, v)
}

/// `items` are the texts `names`, in order.
pub open spec fn texts_are(items: Seq<Json>, names: Seq<Seq<char>>) -> bool {
    items.len() == names.len() && forall|i: int| 0 <= i < items.len() ==> is_text(#[trigger] items[i], names[i])
}

/// `j` is the property object of field `f`: its type (with `null` admitted
/// where the field is optional), then its note, if it has one.
pub open spec fn field_json_ok(f: FieldSpec, j: Json) -> bool {
    match j {
        Json::Object(es) => {
            &&& es@.len() == (if f.note is Some { 2int } else { 1int })
            &&& es@[0].key@ == "type"@
            &&& if f.required {
                is_text(es@[0].value, kind_label_spec(f.kind))
            } else {
                (es@[0].value matches Json::Array(a) && a@.len() == 2
                    && is_text(a@[0], kind_label_spec(f.kind)) && is_text(a@[1], "null"@))
            }
            &&& (f.note matches Some(n) ==> entry_is_text(es@[1], "description"@, n@))
        },
        _ => false,
    }
}

/// `es` maps each field's name, in field order, to its property object.
pub open spec fn properties_ok(fs: Seq<FieldSpec>, es: Seq<JsonEntry>) -> bool {
    es.len() == fs.len() && forall|i: int| 0 <= i < fs.len()
        ==> (#[trigger] es[i]).key@ == fs[i].name@ && field_json_ok(fs[i], es[i].value)
}

/// The position of the title entry: after the dialect tag, where there is one.
pub open spec fn title_at(doc: SchemaDoc) -> int {
    if doc.dialect is Some { 1 } else { 0 }
}

/// `j` is the object that describes `doc`: the dialect tag where the document
/// still carries one, the title, the object type, the properties, and the
/// required names where there are any.
pub open spec fn schema_json_ok(doc: SchemaDoc, j: Json) -> bool {
    match j {
        Json::Object(es) => {
            let d = title_at(doc);
            let req = required_names(doc.fields@);
            &&& es@.len() == d + 3 + (if req.len() > 0 { 1int } else { 0int })
            &&& (doc.dialect matches Some(u) ==> entry_is_text(es@[0], "$schema"@, u@))
            &&& entry_is_text(es@[d], "title"@, doc.title@)
            &&& entry_is_text(es@[d + 1], "type"@, "object"@)
            &&& es@[d + 2].key@ == "properties"@
            &&& (es@[d + 2].value matches Json::Object(ps) && properties_ok(doc.fields@, ps@))
            &&& req.len() > 0 ==> (es@[d + 3].key@ == "required"@
                && (es@[d + 3].value matches Json::Array(a) && texts_are(a@, req)))
        },
        _ => false,
    }
}

fn text(s: &str) -> (r: Json)
    ensures
        is_text(r, s@),
{
    Json::Text(String::from_str(s))
}

fn entry(k: &str, value: Json) -> (r: JsonEntry)
    ensures
        r.key@ == k@,
        r.value == value,
{
    JsonEntry { key: String::from_str(k), value }
}

/// The property object of one field.
pub fn field_json(f: &FieldSpec) -> (r: Json)
    ensures
        field_json_ok(*f, r),
{
    let mut es: Vec<JsonEntry> = Vec::new();
    if f.required {
        es.push(entry("type", text(kind_label(f.kind))));
    } else {
        let mut alternatives: Vec<Json> = Vec::new();
        alternatives.push(text(kind_label(f.kind)));
        alternatives.push(text("null"));
        es.push(entry("type", Json::Array(alternatives)));
    }
    match &f.note {
        Some(n) => {
            es.push(entry("description", Json::Text(n.clone())));
        },
        None => {},
    }
    Json::Object(es)
}

/// The entries that map each field name to its property object.
pub fn properties_json(fields: &Vec<FieldSpec>) -> (r: Vec<JsonEntry>)
    ensures
        properties_ok(fields@, r@),
{
    let mut es: Vec<JsonEntry> = Vec::new();
    let mut i: usize = 0;
    while i < fields.len()
        invariant
            i <= fields@.len(),
            properties_ok(fields@.subrange(0, i as int), es@),
        decreases fields@.len() - i,
    {
        es.push(JsonEntry { key: fields[i].name.clone(), value: field_json(&fields[i]) });
        i = i + 1;
    }
    assert(fields@.subrange(0, i as int) =~= fields@);
    es
}

/// The JSON object that describes a schema document.
pub fn schema_json(doc: &SchemaDoc) -> (r: Json)
    ensures
        schema_json_ok(*doc, r),
{
    let mut es: Vec<JsonEntry> = Vec::new();
    match &doc.dialect {
        Some(u) => {
            es.push(entry("$schema", Json::Text(u.clone())));
        },
        None => {},
    }
    es.push(entry("title", Json::Text(doc.title.clone())));
    es.push(entry("type", text("object")));
    es.push(entry("properties", Json::Object(properties_json(&doc.fields))));
    let required = required_field_names(&doc.fields);
    if required.len() > 0 {
        let mut items: Vec<Json> = Vec::new();
        let mut i: usize = 0;
        while i < required.len()
            invariant
                i <= required@.len(),
                items@.len() == i,
                forall|k: int| 0 <= k < i ==> is_text(#[trigger] items@[k], required@[k]@),
            decreases required@.len() - i,
        {
            items.push(Json::Text(required[i].clone()));
            i = i + 1;
        }
        assert(texts_are(items@, required_names(doc.fields@))) by {
            assert forall|k: int| 0 <= k < items@.len() implies is_text(#[trigger] items@[k], required_names(doc.fields@)[k]) by {
                assert(required@.map_values(|s: String| s@)[k] == required@[k]@);
            }
        }
        es.push(entry("required", Json::Array(items)));
    }
    Json::Object(es)
}

/// The advertised schema object of every registered tool has no dialect
/// entry `$schema`.
pub proof fn lemma_registered_schema_untagged<H>(reg: Registry<H>, i: int, j: Json)
    requires
        reg.wf(),
        0 <= i < reg.tools().len(),
        schema_json_ok(reg.tools()[i].input_schema, j),
    ensures
        (j matches Json::Object(es) && forall|k: int| 0 <= k < es@.len() ==> (#[trigger] es@[k]).key@ != "$schema"@),
{
    reveal_strlit("$schema");
    reveal_strlit("title");
    reveal_strlit("type");
    reveal_strlit("properties");
    reveal_strlit("required");
    assert(reg.tools()[i].input_schema.dialect is None);
    assert("$schema"@[0] != "title"@[0] && "$schema"@[0] != "type"@[0]);
    assert("$schema"@[0] != "properties"@[0] && "$schema"@[0] != "required"@[0]);
}

} // verus!
