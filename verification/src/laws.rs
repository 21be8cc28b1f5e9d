//! What holds of every resolution.
//!
//! Each law speaks of [`resolves`], the relation between a payload, the
//! registry before, the outcome and the registry after that [`resolve`]
//! guarantees.
//!
//! [`resolve`]: crate::resolve::resolve

use crate::body::RequestBody;
use crate::error::GenerationError;
use crate::identity::{TypeIdentity, JSON, MSGPACK, OCTET_STREAM};
use crate::resolve::{described, resolves};
use crate::schema::definitions;
use vstd::prelude::*;

verus! {

/// The three media types are three different strings.
pub proof fn lemma_media_types_differ()
    ensures
        OCTET_STREAM@ != JSON@,
        OCTET_STREAM@ != MSGPACK@,
        JSON@ != MSGPACK@,
{
    reveal_strlit("application/octet-stream");
    reveal_strlit("application/json");
    reveal_strlit("application/msgpack");
    assert(OCTET_STREAM@.len() == 24);
    assert(JSON@.len() == 16);
    assert(MSGPACK@.len() == 19);
}

/// Every descriptor holds exactly one media type.
pub proof fn lemma_one_media_type(
    identity: TypeIdentity,
    before: schemars::gen::SchemaGenerator,
    outcome: Result<RequestBody, GenerationError>,
    after: schemars::gen::SchemaGenerator,
)
    requires
        resolves(identity, before, outcome, after),
        outcome is Ok,
    ensures
        outcome->Ok_0@.has_one_media_type(),
        outcome->Ok_0@.content.dom().finite(),
        outcome->Ok_0@.content.len() == 1,
{
    lemma_innermost_decides(identity);
    let content = outcome->Ok_0@.content;
    let media_type = choose|media_type: Seq<char>| content.dom() == set![media_type];
    assert(set![media_type].len() == 1) by {
        assert(set![media_type] =~= Set::<Seq<char>>::empty().insert(media_type));
    }
}

/// A primitive payload, text or bytes, always has a descriptor: a mandatory
/// body whose only media type is `application/octet-stream`.
pub proof fn lemma_primitive_is_octet_stream(
    identity: TypeIdentity,
    before: schemars::gen::SchemaGenerator,
    outcome: Result<RequestBody, GenerationError>,
    after: schemars::gen::SchemaGenerator,
)
    requires
        identity.is_text() || identity.is_bytes(),
        resolves(identity, before, outcome, after),
    ensures
        outcome is Ok,
        outcome->Ok_0@.content.dom() == set![OCTET_STREAM@],
        outcome->Ok_0@.required,
{
    let body = identity.descriptor()->Ok_0;
    assert(body.content.dom() =~= set![OCTET_STREAM@]);
}

/// A JSON payload whose schema the registry gave has a mandatory body whose
/// only media type is `application/json`, with that schema.
pub proof fn lemma_json_has_its_schema(
    schema: schemars::schema::SchemaObject,
    before: schemars::gen::SchemaGenerator,
    outcome: Result<RequestBody, GenerationError>,
    after: schemars::gen::SchemaGenerator,
)
    requires
        resolves(TypeIdentity::Json(Ok(schema)), before, outcome, after),
    ensures
        outcome is Ok,
        outcome->Ok_0@.content.dom() == set![JSON@],
        outcome->Ok_0@.content[JSON@].schema == schema,
        outcome->Ok_0@.required,
{
    let body = TypeIdentity::Json(Ok(schema)).descriptor()->Ok_0;
    assert(body.content.dom() =~= set![JSON@]);
}

/// Resolving a payload a second time gives what the first time gave, and the
/// registry holds the same definitions as before the first.
pub proof fn lemma_resolving_again_changes_nothing(
    identity: TypeIdentity,
    before: schemars::gen::SchemaGenerator,
    first: Result<RequestBody, GenerationError>,
    between: schemars::gen::SchemaGenerator,
    second: Result<RequestBody, GenerationError>,
    after: schemars::gen::SchemaGenerator,
)
    requires
        resolves(identity, before, first, between),
        resolves(identity, between, second, after),
    ensures
        described(second) == described(first),
        definitions(between) == definitions(before),
        definitions(after) == definitions(before),
{
}

/// An optional payload is described as the payload inside is, but for the
/// body, which is never required. It has no descriptor exactly when the
/// payload inside has none, for the same reason.
pub proof fn lemma_optional_only_clears_required(
    inner: TypeIdentity,
    before: schemars::gen::SchemaGenerator,
    wrapped: Result<RequestBody, GenerationError>,
    after_wrapped: schemars::gen::SchemaGenerator,
    plain: Result<RequestBody, GenerationError>,
    after_plain: schemars::gen::SchemaGenerator,
)
    requires
        resolves(TypeIdentity::Optional(Box::new(inner)), before, wrapped, after_wrapped),
        resolves(inner, before, plain, after_plain),
    ensures
        wrapped is Ok <==> plain is Ok,
        wrapped is Ok ==> !wrapped->Ok_0@.required,
        wrapped is Ok ==> wrapped->Ok_0@.content == plain->Ok_0@.content,
        wrapped is Err ==> wrapped->Err_0@ == plain->Err_0@,
{
}

/// A fallible payload is described exactly as the payload inside is.
pub proof fn lemma_fallible_changes_nothing(
    inner: TypeIdentity,
    before: schemars::gen::SchemaGenerator,
    wrapped: Result<RequestBody, GenerationError>,
    after_wrapped: schemars::gen::SchemaGenerator,
    plain: Result<RequestBody, GenerationError>,
    after_plain: schemars::gen::SchemaGenerator,
)
    requires
        resolves(TypeIdentity::Fallible(Box::new(inner)), before, wrapped, after_wrapped),
        resolves(inner, before, plain, after_plain),
    ensures
        described(wrapped) == described(plain),
{
}

/// A capped byte slice, a capped byte vector and a byte vector have the same
/// descriptor.
pub proof fn lemma_capped_bytes_are_bytes(
    before: schemars::gen::SchemaGenerator,
    capped_slice: Result<RequestBody, GenerationError>,
    after_capped_slice: schemars::gen::SchemaGenerator,
    capped_vec: Result<RequestBody, GenerationError>,
    after_capped_vec: schemars::gen::SchemaGenerator,
    vec: Result<RequestBody, GenerationError>,
    after_vec: schemars::gen::SchemaGenerator,
)
    requires
        resolves(TypeIdentity::CappedByteSlice, before, capped_slice, after_capped_slice),
        resolves(TypeIdentity::CappedByteVec, before, capped_vec, after_capped_vec),
        resolves(TypeIdentity::ByteVec, before, vec, after_vec),
    ensures
        described(capped_slice) == described(capped_vec),
        described(capped_vec) == described(vec),
{
}

/// The innermost payload, which is no wrapper, decides whether there is a
/// descriptor and what its content is; the wrappers decide only whether the
/// body is required, and it is required unless one of them is optional. Every
/// descriptor has exactly one media type.
pub proof fn lemma_innermost_decides(identity: TypeIdentity)
    ensures
        !(identity.innermost() is Fallible),
        !(identity.innermost() is Optional),
        identity.descriptor() is Ok <==> identity.innermost().descriptor() is Ok,
        identity.descriptor() is Err ==> identity.descriptor()->Err_0
            == identity.innermost().descriptor()->Err_0,
        identity.descriptor() is Ok ==> {
            &&& identity.descriptor()->Ok_0.content
                == identity.innermost().descriptor()->Ok_0.content
            &&& identity.descriptor()->Ok_0.required == !identity.has_optional_layer()
            &&& identity.descriptor()->Ok_0.has_one_media_type()
        },
    decreases identity,
{
    match identity {
        TypeIdentity::Fallible(inner) => {
            lemma_innermost_decides(*inner);
        },
        TypeIdentity::Optional(inner) => {
            lemma_innermost_decides(*inner);
        },
        TypeIdentity::Form(lookup) => {
            if lookup is Ok {
                assert(identity.descriptor()->Ok_0.content.dom() =~= set![OCTET_STREAM@]);
            }
        },
        TypeIdentity::Json(lookup) => {
            if lookup is Ok {
                assert(identity.descriptor()->Ok_0.content.dom() =~= set![JSON@]);
            }
        },
        TypeIdentity::MsgPack(lookup) => {
            if lookup is Ok {
                assert(identity.descriptor()->Ok_0.content.dom() =~= set![MSGPACK@]);
            }
        },
        _ => {
            assert(identity.descriptor()->Ok_0.content.dom() =~= set![OCTET_STREAM@]);
        },
    }
}

/// A resolution fails exactly when the registry had no schema for the
/// innermost payload, and then with the registry's message.
pub proof fn lemma_fails_with_the_registry(
    identity: TypeIdentity,
    before: schemars::gen::SchemaGenerator,
    outcome: Result<RequestBody, GenerationError>,
    after: schemars::gen::SchemaGenerator,
)
    requires
        resolves(identity, before, outcome, after),
    ensures
        outcome is Err <==> identity.innermost().failed_lookup() is Some,
        outcome is Err ==> outcome->Err_0@ == identity.innermost().failed_lookup()->Some_0@,
{
    lemma_innermost_decides(identity);
}

} // verus!
