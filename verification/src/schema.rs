//! The schema registry and the schemas it hands out.
//!
//! Schemas are generated by `schemars`. Nothing in this crate looks inside a
//! schema or inside the generator: both are carried through as opaque values.
//! This file holds everything that is believed of `schemars` without proof.

use vstd::prelude::*;

verus! {

/// `schemars::schema::SchemaObject`, a JSON Schema. Opaque to the verifier.
#[verifier::external_type_specification]
#[verifier::external_body]
pub struct ExSchemaObject(schemars::schema::SchemaObject);

/// `schemars::gen::SchemaGenerator`, the registry of generated schemas.
/// Opaque to the verifier.
#[verifier::external_type_specification]
#[verifier::external_body]
pub struct ExSchemaGenerator(schemars::gen::SchemaGenerator);

/// The two primitive payloads whose schema the registry knows by itself.
#[derive(Clone, Copy, Debug, PartialEq, Eq)]
pub enum Primitive {
    /// UTF-8 text.
    Text,
    /// A sequence of bytes.
    Bytes,
}

/// The schema that `SchemaGenerator::subschema_for` returns for a primitive
/// payload: for `String` and `str` under `Text`, for `Vec<u8>` under `Bytes`.
pub uninterp spec fn primitive_schema(primitive: Primitive) -> schemars::schema::SchemaObject;

/// The referenceable schemas that a generator has registered so far, by name:
/// what `SchemaGenerator::definitions` returns, each schema taken as an object.
pub uninterp spec fn definitions(generator: schemars::gen::SchemaGenerator) -> Map<Seq<char>, schemars::schema::SchemaObject>;

/// Calls `SchemaGenerator::subschema_for::<String>`.
///
/// `String` is not referenceable and its schema does not consult the
/// generator, so the result is the fixed text schema and nothing is
/// registered.
#[verifier::external_body]
pub(crate) fn string_schema(generator: &mut schemars::gen::SchemaGenerator) -> (schema: schemars::schema::SchemaObject)
    ensures
        schema == primitive_schema(Primitive::Text),
        definitions(*final(generator)) == definitions(*old(generator)),
{
    generator.subschema_for::<String>().into_object()
}

/// Calls `SchemaGenerator::subschema_for::<str>`.
///
/// `str` has the schema of `String`, under the same conditions.
#[verifier::external_body]
pub(crate) fn str_schema(generator: &mut schemars::gen::SchemaGenerator) -> (schema: schemars::schema::SchemaObject)
    ensures
        schema == primitive_schema(Primitive::Text),
        definitions(*final(generator)) == definitions(*old(generator)),
{
    generator.subschema_for::<str>().into_object()
}

/// Calls `SchemaGenerator::subschema_for::<Vec<u8>>`.
///
/// Neither `Vec<u8>` nor `u8` is referenceable, and the schema of neither
/// consults the generator, so the result is the fixed schema of a byte
/// sequence and nothing is registered.
#[verifier::external_body]
pub(crate) fn byte_vec_schema(generator: &mut schemars::gen::SchemaGenerator) -> (schema: schemars::schema::SchemaObject)
    ensures
        schema == primitive_schema(Primitive::Bytes),
        definitions(*final(generator)) == definitions(*old(generator)),
{
    generator.subschema_for::<Vec<u8>>().into_object()
}

/// `SchemaObject::clone`, the derived copy: the copy is the same schema.
pub assume_specification[ <schemars::schema::SchemaObject as Clone>::clone ](
    schema: &schemars::schema::SchemaObject,
) -> (copy: schemars::schema::SchemaObject)
    ensures
        copy == *schema,
;

} // verus!
