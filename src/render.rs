//! Turning a derived schema into the text of its file.

use vstd::prelude::*;

use crate::export::{file_name_of, SchemaKind};

verus! {

/// A JSON Schema document as derived by `schemars`.
#[verifier::external_type_specification]
#[verifier::external_body]
pub struct ExRootSchema(schemars::schema::RootSchema);

/// An error of `serde_json` while serialising.
#[verifier::external_type_specification]
#[verifier::external_body]
pub struct ExJsonError(serde_json::Error);

/// The indented JSON text that `serde_json::to_string_pretty` writes for a
/// schema.
pub uninterp spec fn pretty_json_of(s: schemars::schema::RootSchema) -> Seq<char>;

/// Relies on `serde_json::to_string_pretty`: serialises the schema as
/// indented JSON text. It cannot fail on a `RootSchema`: the text goes into a
/// `Vec`, every map in the schema is keyed by `String`, and non-finite floats
/// are written as `null`. The schema is serialised as a map, so the text
/// opens with `{` and closes with `}`.
#[verifier::external_body]
fn to_pretty_json(schema: &schemars::schema::RootSchema) -> (r: Result<String, serde_json::Error>)
    ensures
        r is Ok,
        r matches Ok(t) ==> t@ == pretty_json_of(*schema),
        r matches Ok(t) ==> t@.len() >= 2 && t@[0] == '{' && t@[t@.len() - 1] == '}',
{
    serde_json::to_string_pretty(schema)
}

/// Why a schema could not be turned into text. `render_schema` never
/// returns it; it keeps the error that the serialiser's signature names.
#[derive(Debug)]
pub enum RenderError {
    /// Serialising the schema failed.
    Serialize(serde_json::Error),
}

/// A schema file ready to be written: its name within the output directory
/// and its text.
#[derive(Clone, Debug)]
pub struct SchemaFile {
    pub name: String,
    pub text: String,
}

/// The file for the schema of `kind` whose serialised text is `text`.
pub fn schema_file(kind: SchemaKind, text: String) -> (r: SchemaFile)
    ensures
        r.name@ == file_name_of(kind),
        r.text@ == text@,
{
    SchemaFile { name: kind.file_name(), text }
}

/// The file for the schema of `kind`: its name and the schema as indented
/// JSON text. Serialising a schema does not fail.
pub fn render_schema(kind: SchemaKind, schema: &schemars::schema::RootSchema) -> (r: Result<
    SchemaFile,
    RenderError,
>)
    ensures
        r is Ok,
        r matches Ok(f) ==> f.name@ == file_name_of(kind) && f.text@ == pretty_json_of(*schema),
        r matches Ok(f) ==> f.text@.len() >= 2 && f.text@[0] == '{' && f.text@[f.text@.len() - 1]
            == '}',
{
    match to_pretty_json(schema) {
        Ok(text) => Ok(schema_file(kind, text)),
        Err(e) => Err(RenderError::Serialize(e)),
    }
}

} // verus!
