//! Input shapes of tools and the schema documents derived from them.

use vstd::prelude::*;

verus! {

/// The type of one input field.
#[derive(PartialEq, Eq, Structural, Clone, Copy, Debug)]
pub enum FieldKind {
    Text,
    Integer,
    Boolean,
}

/// One declared input field of a tool.
pub struct FieldSpec {
    pub name: String,
    pub kind: FieldKind,
    pub required: bool,
    /// A human-readable note shown to callers, where the field has one.
    pub note: Option<String>,
}

/// The parameter shape a tool declares: a record of typed fields.
pub struct ParamShape {
    pub title: String,
    pub fields: Vec<FieldSpec>,
}

/// The URI of the schema dialect that generation tags its raw output with.
pub const DRAFT07_URI: &'static str = "http://json-schema.org/draft-07/schema#";

/// A schema document: an object shape with named, typed fields.
pub struct SchemaDoc {
    pub title: String,
    /// The dialect tag; a finished document carries none.
    pub dialect: Option<String>,
    pub fields: Vec<FieldSpec>,
}

/// Field `i` has a non-empty name that no earlier field uses.
pub open spec fn field_ok(fs: Seq<FieldSpec>, i: int) -> bool {
    fs[i].name@.len() > 0 && forall|j: int| 0 <= j < i ==> fs[j].name@ != fs[i].name@
}

/// A shape can be represented: its field names are non-empty and distinct.
pub open spec fn fields_valid(fs: Seq<FieldSpec>) -> bool {
    forall|i: int| 0 <= i < fs.len() ==> field_ok(fs, i)
}

/// The names of the required fields, in field order.
pub open spec fn required_names(fs: Seq<FieldSpec>) -> Seq<Seq<char>>
    decreases fs.len(),
{
    if fs.len() == 0 {
        Seq::empty()
    } else if fs.last().required {
        required_names(fs.drop_last()).push(fs.last().name@)
    } else {
        required_names(fs.drop_last())
    }
}

/// The name of a field type as schema documents write it.
pub open spec fn kind_label_spec(kind: FieldKind) -> Seq<char> {
    match kind {
        FieldKind::Text => "string"@,
        FieldKind::Integer => "integer"@,
        FieldKind::Boolean => "boolean"@,
    }
}

pub fn kind_label(kind: FieldKind) -> (r: &'static str)
    ensures
        r@ == kind_label_spec(kind),
{
    match kind {
        FieldKind::Text => "string",
        FieldKind::Integer => "integer",
        FieldKind::Boolean => "boolean",
    }
}

/// The names of the required fields, in field order.
pub fn required_field_names(fields: &Vec<FieldSpec>) -> (r: Vec<String>)
    ensures
        r@.map_values(|s: String| s@) == required_names(fields@),
{
    let mut r: Vec<String> = Vec::new();
    let mut i: usize = 0;
    while i < fields.len()
        invariant
            i <= fields@.len(),
            r@.map_values(|s: String| s@) == required_names(fields@.subrange(0, i as int)),
        decreases fields@.len() - i,
    {
        if fields[i].required {
            r.push(fields[i].name.clone());
        }
        assert(fields@.subrange(0, i + 1).drop_last() =~= fields@.subrange(0, i as int));
        assert(r@.map_values(|s: String| s@) =~= required_names(fields@.subrange(0, i + 1)));
        i = i + 1;
    }
    assert(fields@.subrange(0, i as int) =~= fields@);
    r
}

/// Why a shape cannot be turned into a schema.
#[derive(PartialEq, Eq, Structural, Clone, Copy, Debug)]
pub struct SchemaError {
    /// The first field whose name is empty or repeats an earlier one.
    pub field_index: usize,
}

/// The raw document of a shape, tagged with its dialect.
pub fn raw_schema(shape: ParamShape) -> (r: SchemaDoc)
    ensures
        r.title == shape.title,
        r.fields == shape.fields,
        r.dialect is Some,
{
    SchemaDoc { title: shape.title, dialect: Some(String::from_str(DRAFT07_URI)), fields: shape.fields }
}

/// Removes the dialect tag, leaving the shape itself.
pub fn strip_dialect(doc: SchemaDoc) -> (r: SchemaDoc)
    ensures
        r == (SchemaDoc { dialect: None, ..doc }),
{
    SchemaDoc { title: doc.title, dialect: None, fields: doc.fields }
}

/// Finds the first field that breaks `fields_valid`, if any.
pub fn first_invalid_field(fields: &Vec<FieldSpec>) -> (r: Option<usize>)
    ensures
        r is None <==> fields_valid(fields@),
        r matches Some(i) ==> i < fields@.len() && !field_ok(fields@, i as int)
            && forall|k: int| 0 <= k < i ==> field_ok(fields@, k),
{
    let mut i: usize = 0;
    while i < fields.len()
        invariant
            i <= fields@.len(),
            forall|k: int| 0 <= k < i ==> field_ok(fields@, k),
        decreases fields@.len() - i,
    {
        if fields[i].name.as_str().unicode_len() == 0 {
            assert(!field_ok(fields@, i as int));
            return Some(i);
        }
        let mut j: usize = 0;
        while j < i
            invariant
                j <= i < fields@.len(),
                forall|k: int| 0 <= k < i ==> field_ok(fields@, k),
                forall|m: int| 0 <= m < j ==> fields@[m].name@ != fields@[i as int].name@,
            decreases i - j,
        {
            if fields[j].name == fields[i].name {
                assert(fields@[j as int].name@ == fields@[i as int].name@);
                assert(!field_ok(fields@, i as int));
                return Some(i);
            }
            j = j + 1;
        }
        assert(field_ok(fields@, i as int));
        i = i + 1;
    }
    None
}

/// Derives the schema document of a shape: the same title and fields, with no
/// dialect tag. Fails, naming the first offending field, where a field name is
/// empty or repeated.
pub fn generate_schema(shape: ParamShape) -> (r: Result<SchemaDoc, SchemaError>)
    ensures
        r is Ok <==> fields_valid(shape.fields@),
        r matches Ok(doc) ==> doc.title == shape.title && doc.fields == shape.fields
            && doc.dialect is None,
        r matches Err(e) ==> e.field_index < shape.fields@.len()
            && !field_ok(shape.fields@, e.field_index as int)
            && forall|k: int| 0 <= k < e.field_index ==> field_ok(shape.fields@, k),
{
    match first_invalid_field(&shape.fields) {
        Some(i) => Err(SchemaError { field_index: i }),
        None => Ok(strip_dialect(raw_schema(shape))),
    }
}

/// A shape without parameters always yields a schema: an object with no fields
/// and so no required fields.
pub proof fn lemma_empty_shape_schema(fs: Seq<FieldSpec>)
    requires
        fs.len() == 0,
    ensures
        fields_valid(fs),
        required_names(fs) == Seq::<Seq<char>>::empty(),
{
}

} // verus!
