//! Resolving a payload to its descriptor.

use crate::body::{RequestBody, RequestBodyView};
use crate::error::GenerationError;
use crate::identity::{
    looked_up, made_optional, SchemaLookup, TypeIdentity, JSON, MSGPACK, OCTET_STREAM,
};
use crate::schema::{byte_vec_schema, definitions, str_schema, string_schema};
use vstd::prelude::*;

verus! {

/// What the outcome of a resolution stands for: the descriptor, or the
/// message of the failure.
pub open spec fn described(outcome: Result<RequestBody, GenerationError>) -> Result<
    RequestBodyView,
    Seq<char>,
> {
    match outcome {
        Ok(body) => Ok(body@),
        Err(error) => Err(error@),
    }
}

/// Resolving `identity` against a registry in state `before` may end with
/// `outcome` and leave the registry in state `after`.
pub open spec fn resolves(
    identity: TypeIdentity,
    before: schemars::gen::SchemaGenerator,
    outcome: Result<RequestBody, GenerationError>,
    after: schemars::gen::SchemaGenerator,
) -> bool {
    &&& described(outcome) == identity.descriptor()
    &&& definitions(after) == definitions(before)
}

/// The descriptor of a payload that arrives as `media_type` and whose schema
/// the registry was asked for: a mandatory body with that schema, or the
/// registry's failure.
pub fn looked_up_body(media_type: &str, lookup: &SchemaLookup) -> (outcome: Result<
    RequestBody,
    GenerationError,
>)
    ensures
        described(outcome) == looked_up(media_type@, *lookup),
{
    match lookup {
        Ok(schema) => Ok(RequestBody::single(media_type, schema.clone())),
        Err(error) => Err(error.clone()),
    }
}

/// Makes a payload optional: its body may be left out, whatever the payload
/// itself says. A failure is passed on.
pub fn optional(inner: Result<RequestBody, GenerationError>) -> (outcome: Result<
    RequestBody,
    GenerationError,
>)
    ensures
        described(outcome) == made_optional(described(inner)),
{
    match inner {
        Ok(body) => Ok(body.optional()),
        Err(error) => Err(error),
    }
}

/// The descriptor of `identity`, or the failure of the registry to give the
/// schema of its content.
///
/// The innermost payload is resolved first; each wrapper around it then
/// changes what it owns, and never the content. The registry is asked for
/// the schema of a primitive payload and registers nothing for it; the schema
/// of any other payload was looked up when its identity was made.
pub fn resolve(identity: &TypeIdentity, generator: &mut schemars::gen::SchemaGenerator) -> (outcome:
    Result<RequestBody, GenerationError>)
    ensures
        resolves(*identity, *old(generator), outcome, *final(generator)),
    decreases identity,
{
    match identity {
        TypeIdentity::OwnedString | TypeIdentity::CappedOwnedString => {
            Ok(RequestBody::single(OCTET_STREAM, string_schema(generator)))
        },
        TypeIdentity::BorrowedStr
        | TypeIdentity::CowStr
        | TypeIdentity::CappedCowStr
        | TypeIdentity::CappedBorrowedStr => {
            Ok(RequestBody::single(OCTET_STREAM, str_schema(generator)))
        },
        TypeIdentity::ByteVec
        | TypeIdentity::ByteSlice
        | TypeIdentity::TempFile
        | TypeIdentity::RawStr
        | TypeIdentity::Data
        | TypeIdentity::CappedTempFile
        | TypeIdentity::CappedRawStr
        | TypeIdentity::CappedByteSlice
        | TypeIdentity::CappedByteVec => {
            Ok(RequestBody::single(OCTET_STREAM, byte_vec_schema(generator)))
        },
        TypeIdentity::Form(lookup) => looked_up_body(OCTET_STREAM, lookup),
        TypeIdentity::Json(lookup) => looked_up_body(JSON, lookup),
        TypeIdentity::MsgPack(lookup) => looked_up_body(MSGPACK, lookup),
        TypeIdentity::Fallible(inner) => resolve(inner, generator),
        TypeIdentity::Optional(inner) => optional(resolve(inner, generator)),
    }
}

} // verus!
