//! The payloads that can be described, and the descriptor of each.

use crate::body::RequestBodyView;
use crate::error::GenerationError;
use crate::schema::{primitive_schema, Primitive};
use vstd::prelude::*;

verus! {

/// The media type of payloads that are taken as they come: text, bytes,
/// files and form submissions.
pub const OCTET_STREAM: &'static str = "application/octet-stream";

/// The media type of JSON payloads.
pub const JSON: &'static str = "application/json";

/// The media type of MessagePack payloads.
pub const MSGPACK: &'static str = "application/msgpack";

/// What the schema registry answered when it was asked for the schema of a
/// payload's content: the schema, or that it has none.
pub type SchemaLookup = Result<schemars::schema::SchemaObject, GenerationError>;

/// A kind of payload that a request handler can extract from a request body.
///
/// The registry knows the schema of the primitive payloads by itself. A form
/// submission or a document has the schema of the type it is read into: such
/// a payload carries what the registry answered when it was asked for that
/// schema.
#[derive(Debug)]
pub enum TypeIdentity {
    /// An owned string.
    OwnedString,
    /// A borrowed string slice.
    BorrowedStr,
    /// A string that is borrowed or owned as needed.
    CowStr,
    /// A byte vector.
    ByteVec,
    /// A borrowed byte slice.
    ByteSlice,
    /// A file that the upload was stored in.
    TempFile,
    /// A string that has not been percent-decoded.
    RawStr,
    /// The handle on the incoming data, not yet read.
    Data,
    /// A stored upload, cut off at a size limit.
    CappedTempFile,
    /// A borrowed-or-owned string, cut off at a size limit.
    CappedCowStr,
    /// A borrowed string slice, cut off at a size limit.
    CappedBorrowedStr,
    /// A string that has not been percent-decoded, cut off at a size limit.
    CappedRawStr,
    /// A borrowed byte slice, cut off at a size limit.
    CappedByteSlice,
    /// An owned string, cut off at a size limit.
    CappedOwnedString,
    /// A byte vector, cut off at a size limit.
    CappedByteVec,
    /// A form submission, with the registry's answer for its fields.
    Form(SchemaLookup),
    /// A JSON document, with the registry's answer for its content.
    Json(SchemaLookup),
    /// A MessagePack document, with the registry's answer for its content.
    MsgPack(SchemaLookup),
    /// Either the payload inside or the reason why it could not be extracted.
    Fallible(Box<TypeIdentity>),
    /// The payload inside, or nothing where the request has no such body.
    Optional(Box<TypeIdentity>),
}

/// A copy of what the registry answered.
fn copy_of(lookup: &SchemaLookup) -> (copy: SchemaLookup)
    ensures
        copy == *lookup,
{
    match lookup {
        Ok(schema) => Ok(schema.clone()),
        Err(error) => Err(error.clone()),
    }
}

impl Clone for TypeIdentity {
    fn clone(&self) -> (copy: TypeIdentity)
        ensures
            copy == *self,
        decreases self,
    {
        match self {
            TypeIdentity::OwnedString => TypeIdentity::OwnedString,
            TypeIdentity::BorrowedStr => TypeIdentity::BorrowedStr,
            TypeIdentity::CowStr => TypeIdentity::CowStr,
            TypeIdentity::ByteVec => TypeIdentity::ByteVec,
            TypeIdentity::ByteSlice => TypeIdentity::ByteSlice,
            TypeIdentity::TempFile => TypeIdentity::TempFile,
            TypeIdentity::RawStr => TypeIdentity::RawStr,
            TypeIdentity::Data => TypeIdentity::Data,
            TypeIdentity::CappedTempFile => TypeIdentity::CappedTempFile,
            TypeIdentity::CappedCowStr => TypeIdentity::CappedCowStr,
            TypeIdentity::CappedBorrowedStr => TypeIdentity::CappedBorrowedStr,
            TypeIdentity::CappedRawStr => TypeIdentity::CappedRawStr,
            TypeIdentity::CappedByteSlice => TypeIdentity::CappedByteSlice,
            TypeIdentity::CappedOwnedString => TypeIdentity::CappedOwnedString,
            TypeIdentity::CappedByteVec => TypeIdentity::CappedByteVec,
            TypeIdentity::Form(lookup) => TypeIdentity::Form(copy_of(lookup)),
            TypeIdentity::Json(lookup) => TypeIdentity::Json(copy_of(lookup)),
            TypeIdentity::MsgPack(lookup) => TypeIdentity::MsgPack(copy_of(lookup)),
            TypeIdentity::Fallible(inner) => {
                let inner: &TypeIdentity = inner;
                TypeIdentity::Fallible(Box::new(inner.clone()))
            },
            TypeIdentity::Optional(inner) => {
                let inner: &TypeIdentity = inner;
                TypeIdentity::Optional(Box::new(inner.clone()))
            },
        }
    }
}

/// The descriptor of a payload that arrives as `media_type` and whose schema
/// the registry was asked for: the mandatory single-entry body with that
/// schema, or the registry's failure.
pub open spec fn looked_up(media_type: Seq<char>, lookup: SchemaLookup) -> Result<
    RequestBodyView,
    Seq<char>,
> {
    match lookup {
        Ok(schema) => Ok(RequestBodyView::single(media_type, schema)),
        Err(error) => Err(error@),
    }
}

/// What making a payload optional does to its descriptor: the body may be
/// left out; everything else, a failure included, stays.
pub open spec fn made_optional(inner: Result<RequestBodyView, Seq<char>>) -> Result<
    RequestBodyView,
    Seq<char>,
> {
    match inner {
        Ok(body) => Ok(body.optional()),
        Err(error) => Err(error),
    }
}

impl TypeIdentity {
    /// The payload is text whose schema the registry knows by itself.
    pub open spec fn is_text(self) -> bool {
        self is OwnedString || self is BorrowedStr || self is CowStr || self is CappedOwnedString
            || self is CappedCowStr || self is CappedBorrowedStr
    }

    /// The payload is described as a sequence of bytes.
    pub open spec fn is_bytes(self) -> bool {
        self is ByteVec || self is ByteSlice || self is TempFile || self is RawStr || self is Data
            || self is CappedTempFile || self is CappedRawStr || self is CappedByteSlice
            || self is CappedByteVec
    }

    /// The payload with all optional and fallible wrappers taken off.
    pub open spec fn innermost(self) -> TypeIdentity
        decreases self,
    {
        match self {
            TypeIdentity::Fallible(inner) => inner.innermost(),
            TypeIdentity::Optional(inner) => inner.innermost(),
            _ => self,
        }
    }

    /// Some wrapper of the payload is optional.
    pub open spec fn has_optional_layer(self) -> bool
        decreases self,
    {
        match self {
            TypeIdentity::Fallible(inner) => inner.has_optional_layer(),
            TypeIdentity::Optional(_) => true,
            _ => false,
        }
    }

    /// The failure with which the registry answered when it was asked for the
    /// schema of this payload's content, if it was asked and failed.
    pub open spec fn failed_lookup(self) -> Option<GenerationError> {
        match self {
            TypeIdentity::Form(Err(error)) => Some(error),
            TypeIdentity::Json(Err(error)) => Some(error),
            TypeIdentity::MsgPack(Err(error)) => Some(error),
            _ => None,
        }
    }

    /// The descriptor of the payload, or the message of the failure that
    /// stands in its place.
    ///
    /// The innermost payload decides the media type and the schema. Each
    /// wrapper then has its say on the rest: an optional one marks the body
    /// as not required, a fallible one changes nothing.
    pub open spec fn descriptor(self) -> Result<RequestBodyView, Seq<char>>
        decreases self,
    {
        match self {
            TypeIdentity::Form(lookup) => looked_up(OCTET_STREAM@, lookup),
            TypeIdentity::Json(lookup) => looked_up(JSON@, lookup),
            TypeIdentity::MsgPack(lookup) => looked_up(MSGPACK@, lookup),
            TypeIdentity::Fallible(inner) => inner.descriptor(),
            TypeIdentity::Optional(inner) => made_optional(inner.descriptor()),
            _ => if self.is_text() {
                Ok(RequestBodyView::single(OCTET_STREAM@, primitive_schema(Primitive::Text)))
            } else {
                Ok(RequestBodyView::single(OCTET_STREAM@, primitive_schema(Primitive::Bytes)))
            },
        }
    }
}

} // verus!
