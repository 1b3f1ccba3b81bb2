//! The fixed schema of the index, shared by the writer and every reader.

use vstd::prelude::*;
use tantivy::schema::{Schema, SchemaBuilder, STORED, TEXT};

verus! {

/// `SchemaBuilder` of tantivy, carried as it is.
#[verifier::external_type_specification]
#[verifier::external_body]
pub struct ExSchemaBuilder(SchemaBuilder);

/// `Schema` of tantivy, carried as it is.
#[verifier::external_type_specification]
#[verifier::external_body]
pub struct ExSchema(Schema);

/// The code that the index engine gives to the type of text values.
pub const TEXT_TYPE: u8 = 115;

/// The fields added to a builder so far, in the order of their numbers: for
/// each its name, the code of its value type, whether it is indexed and
/// whether it is stored.
pub uninterp spec fn builder_fields(builder: SchemaBuilder) -> Seq<(Seq<char>, u8, bool, bool)>;

/// The fields of a schema, in the order of their numbers: for each its name,
/// the code of its value type, whether it is indexed and whether it is
/// stored.
pub uninterp spec fn schema_fields(schema: Schema) -> Seq<(Seq<char>, u8, bool, bool)>;

/// Whether one of `fields` is called `name`.
pub open spec fn has_field(fields: Seq<(Seq<char>, u8, bool, bool)>, name: Seq<char>) -> bool {
    exists|i: int| 0 <= i < fields.len() && (#[trigger] fields[i]).0 == name
}

/// Whether a field may be called `name` and be added to `fields`: the name is
/// not empty, does not begin with a hyphen and is not taken, and the number
/// of the field fits.
pub open spec fn can_add(fields: Seq<(Seq<char>, u8, bool, bool)>, name: Seq<char>) -> bool {
    &&& name.len() > 0
    &&& name[0] != '-'
    &&& !has_field(fields, name)
    &&& fields.len() <= u32::MAX
}

/// `Schema::builder` of tantivy: a builder to which no field was added.
#[verifier::external_body]
fn new_builder() -> (builder: SchemaBuilder)
    ensures
        builder_fields(builder) == Seq::<(Seq<char>, u8, bool, bool)>::empty(),
{
    Schema::builder()
}

/// `SchemaBuilder::add_text_field` of tantivy with the options `TEXT`: adds a
/// tokenized, indexed field of text values that is not stored, and returns
/// its number, which is the count of the fields added before. The call
/// panics on a name that `can_add` refuses.
#[verifier::external_body]
fn add_searched_text(builder: &mut SchemaBuilder, name: &str) -> (field: u32)
    requires
        can_add(builder_fields(*old(builder)), name@),
    ensures
        builder_fields(*final(builder)) == builder_fields(*old(builder)).push(
            (name@, TEXT_TYPE, true, false),
        ),
        field == builder_fields(*old(builder)).len(),
{
    builder.add_text_field(name, TEXT).field_id()
}

/// `SchemaBuilder::add_text_field` of tantivy with the options
/// `TEXT | STORED`: as above, for a field that is stored as well.
#[verifier::external_body]
fn add_stored_text(builder: &mut SchemaBuilder, name: &str) -> (field: u32)
    requires
        can_add(builder_fields(*old(builder)), name@),
    ensures
        builder_fields(*final(builder)) == builder_fields(*old(builder)).push(
            (name@, TEXT_TYPE, true, true),
        ),
        field == builder_fields(*old(builder)).len(),
{
    builder.add_text_field(name, TEXT | STORED).field_id()
}

/// `SchemaBuilder::build` of tantivy: the schema has the builder's fields.
#[verifier::external_body]
fn build(builder: SchemaBuilder) -> (schema: Schema)
    ensures
        schema_fields(schema) == builder_fields(builder),
{
    builder.build()
}

/// `Schema::fields` of tantivy, with `FieldEntry::name`, the code of
/// `FieldType::value_type`, `is_indexed` and `is_stored` for each entry: the
/// fields of a schema as plain values.
#[verifier::external_body]
fn list_fields(schema: &Schema) -> (fields: Vec<(String, u8, bool, bool)>)
    ensures
        fields@.len() == schema_fields(*schema).len(),
        forall|i: int|
            0 <= i < fields@.len() ==> {
                &&& (#[trigger] fields@[i]).0@ == schema_fields(*schema)[i].0
                &&& fields@[i].1 == schema_fields(*schema)[i].1
                &&& fields@[i].2 == schema_fields(*schema)[i].2
                &&& fields@[i].3 == schema_fields(*schema)[i].3
            },
{
    schema.fields().map(
        |(_, entry)| (
            entry.name().to_string(),
            entry.field_type().value_type().to_code(),
            entry.is_indexed(),
            entry.is_stored(),
        ),
    ).collect()
}

fn same_field(field: &(String, u8, bool, bool), name: &str, stored: bool) -> (yes: bool)
    ensures
        yes == (field.0@ == name@ && field.1 == TEXT_TYPE && field.2 && field.3 == stored),
{
    let wanted = name.to_owned();
    field.0 == wanted && field.1 == TEXT_TYPE && field.2 && field.3 == stored
}

/// Whether an index with the schema `found` can be read and written as a
/// report index: its fields are those of the report schema, with the same
/// names, in the same order, all of text values, indexed and stored alike.
pub fn fits(found: &Schema) -> (yes: bool)
    ensures
        yes == (schema_fields(*found) == report_fields()),
{
    let fields = list_fields(found);
    if fields.len() != 3 {
        return false;
    }
    let yes = same_field(&fields[0], "id", true) && same_field(&fields[1], "title", true)
        && same_field(&fields[2], "body", false);
    proof {
        let listed = schema_fields(*found);
        assert(fields@[0].0@ == listed[0].0);
        assert(fields@[1].0@ == listed[1].0);
        assert(fields@[2].0@ == listed[2].0);
        if yes {
            assert(listed =~= report_fields());
        }
    }
    yes
}

/// The fields of the report index, all three of text values: `id` and
/// `title` are searched and stored, `body` is searched only.
pub open spec fn report_fields() -> Seq<(Seq<char>, u8, bool, bool)> {
    seq![
        ("id"@, TEXT_TYPE, true, true),
        ("title"@, TEXT_TYPE, true, true),
        ("body"@, TEXT_TYPE, true, false),
    ]
}

/// The schema of the report index together with the numbers of its fields.
pub struct ReportSchema {
    schema: Schema,
    id: u32,
    title: u32,
    body: u32,
}

impl ReportSchema {
    #[verifier::type_invariant]
    spec fn holds(&self) -> bool {
        &&& schema_fields(self.schema) == report_fields()
        &&& self.id == 0
        &&& self.title == 1
        &&& self.body == 2
    }

    /// The schema as the index engine takes it.
    pub closed spec fn engine_schema(&self) -> Schema {
        self.schema
    }

    /// The number of the field `id`.
    pub closed spec fn id(&self) -> u32 {
        self.id
    }

    /// The number of the field `title`.
    pub closed spec fn title(&self) -> u32 {
        self.title
    }

    /// The number of the field `body`.
    pub closed spec fn body(&self) -> u32 {
        self.body
    }

    /// Builds the schema: `id`, `title` and `body`, numbered in this order.
    pub fn new() -> (schema: ReportSchema)
        ensures
            schema_fields(schema.engine_schema()) == report_fields(),
            schema.id() == 0,
            schema.title() == 1,
            schema.body() == 2,
    {
        proof {
            reveal_strlit("id");
            reveal_strlit("title");
            reveal_strlit("body");
        }
        let mut builder = new_builder();
        let id = add_stored_text(&mut builder, "id");
        let title = add_stored_text(&mut builder, "title");
        assert(!has_field(builder_fields(builder), "body"@)) by {
            let fields = builder_fields(builder);
            assert(fields[0].0.len() == 2 && fields[1].0.len() == 5 && "body"@.len() == 4);
        }
        let body = add_searched_text(&mut builder, "body");
        assert(builder_fields(builder) =~= report_fields());
        ReportSchema { schema: build(builder), id, title, body }
    }

    /// The schema to create or check an index with.
    pub fn schema(&self) -> (schema: &Schema)
        ensures
            *schema == self.engine_schema(),
            schema_fields(*schema) == report_fields(),
    {
        proof {
            use_type_invariant(self);
        }
        &self.schema
    }

    /// The number of the field that holds the join key.
    pub fn id_field(&self) -> (field: u32)
        ensures
            field == self.id(),
            field == 0,
    {
        proof {
            use_type_invariant(self);
        }
        self.id
    }

    /// The number of the field that holds the title.
    pub fn title_field(&self) -> (field: u32)
        ensures
            field == self.title(),
            field == 1,
    {
        proof {
            use_type_invariant(self);
        }
        self.title
    }

    /// The number of the field that holds the body.
    pub fn body_field(&self) -> (field: u32)
        ensures
            field == self.body(),
            field == 2,
    {
        proof {
            use_type_invariant(self);
        }
        self.body
    }

    /// The fields in which a query term is looked for when it names none:
    /// all three.
    pub fn default_fields(&self) -> (fields: Vec<u32>)
        ensures
            fields@ == seq![self.id(), self.title(), self.body()],
            fields@ == seq![0u32, 1u32, 2u32],
    {
        proof {
            use_type_invariant(self);
        }
        let mut fields: Vec<u32> = Vec::new();
        fields.push(self.id);
        fields.push(self.title);
        fields.push(self.body);
        assert(fields@ =~= seq![self.id(), self.title(), self.body()]);
        fields
    }
}

} // verus!
