//! What this library relies on from the `bson` crate: its document and value
//! types, and the few operations on them that the verified code performs.
//!
//! A document is modelled by `doc_fields`: the map from each key to the value
//! stored under it. Values stay opaque; what the library reads of one is its
//! element type (`bson_type`), whether it is binary data of the generic subtype
//! (`generic_binary`), and which embedded document it wraps (`bson_of_doc`).

use vstd::prelude::*;
use bson::ordered::OrderedDocument;
use bson::spec::ElementType;
use bson::Bson;
use bson::oid::{Error as OidError, ObjectId};
use bson::ordered::ValueAccessError;

verus! {

/// `bson::Document`, opaque: read through `doc_fields`.
#[verifier::external_type_specification]
#[verifier::external_body]
pub struct ExDocument(OrderedDocument);

/// `bson::Bson`, opaque: read through `bson_type` and the names below.
#[verifier::external_type_specification]
#[verifier::external_body]
pub struct ExBson(Bson);

/// `bson::spec::ElementType`, a plain enum whose variants are visible.
#[verifier::external_type_specification]
pub struct ExElementType(ElementType);

/// `bson::ValueAccessError`: a key is missing, or holds another type.
#[verifier::external_type_specification]
pub struct ExValueAccessError(ValueAccessError);

/// `bson::oid::ObjectId`, opaque.
#[verifier::external_type_specification]
#[verifier::external_body]
pub struct ExObjectId(ObjectId);

/// The error of `ObjectId::new`, opaque.
#[verifier::external_type_specification]
#[verifier::external_body]
pub struct ExOidError(OidError);

/// Relies on `ObjectId::new`: a fresh identifier from the clock, the machine
/// and a counter, or an error where the machine's identity cannot be read.
/// Nothing is known of the value.
pub assume_specification[ ObjectId::new ]() -> core::result::Result<ObjectId, OidError>;

/// The entries of a document: each key and the value stored under it.
pub uninterp spec fn doc_fields(d: OrderedDocument) -> Map<Seq<char>, Bson>;

/// The element type of a value, as `Bson::element_type` reports it.
pub uninterp spec fn bson_type(v: Bson) -> ElementType;

/// Whether a value is binary data of the generic subtype.
pub uninterp spec fn generic_binary(v: Bson) -> bool;

/// The value that wraps a document as an embedded document.
pub uninterp spec fn bson_of_doc(d: OrderedDocument) -> Bson;

/// The value that wraps a sequence of values as an array.
pub uninterp spec fn bson_of_array(a: Seq<Bson>) -> Bson;

/// The value stored under `key` in the embedded document that `v` wraps; `None`
/// when `v` wraps no document or the document has no such key.
pub open spec fn embedded_field(v: Bson, key: Seq<char>) -> Option<Bson> {
    if exists|d: OrderedDocument| bson_of_doc(d) == v {
        field_of(choose|d: OrderedDocument| bson_of_doc(d) == v, key)
    } else {
        None
    }
}

/// The value stored under `key` in the document, if any.
pub open spec fn field_of(d: OrderedDocument, key: Seq<char>) -> Option<Bson> {
    if doc_fields(d).contains_key(key) {
        Some(doc_fields(d)[key])
    } else {
        None
    }
}

/// The entries of an empty document.
pub open spec fn no_fields() -> Map<Seq<char>, Bson> {
    Map::empty()
}

/// Relies on `OrderedDocument::new`: a new document is empty.
pub assume_specification[ OrderedDocument::new ]() -> (r: OrderedDocument)
    ensures
        doc_fields(r) == no_fields(),
;

/// Relies on `OrderedDocument::get`: the value stored under the key, if any.
pub assume_specification<'a>[ OrderedDocument::get ](d: &'a OrderedDocument, key: &str) -> (r:
    Option<&'a Bson>)
    ensures
        match r {
            Some(v) => field_of(*d, key@) == Some(*v),
            None => field_of(*d, key@) is None,
        },
;

/// Relies on `OrderedDocument::remove`: the key's entry is taken out and its
/// value returned.
pub assume_specification[ OrderedDocument::remove ](d: &mut OrderedDocument, key: &str) -> (r:
    Option<Bson>)
    ensures
        doc_fields(*final(d)) == doc_fields(*old(d)).remove(key@),
        r == field_of(*old(d), key@),
;

/// Relies on `OrderedDocument::insert_bson`: the key is mapped to the value and
/// the value it replaced, if any, is returned.
pub assume_specification[ OrderedDocument::insert_bson ](
    d: &mut OrderedDocument,
    key: String,
    val: Bson,
) -> (r: Option<Bson>)
    ensures
        doc_fields(*final(d)) == doc_fields(*old(d)).insert(key@, val),
        r == field_of(*old(d), key@),
;

/// Relies on `OrderedDocument::get_bool`: it succeeds exactly when the key holds
/// a boolean, and tells a missing key from an ill-typed one.
pub assume_specification[ OrderedDocument::get_bool ](d: &OrderedDocument, key: &str) -> (r:
    core::result::Result<bool, ValueAccessError>)
    ensures
        r is Ok <==> (doc_fields(*d).contains_key(key@) && bson_type(doc_fields(*d)[key@])
            == ElementType::Boolean),
        (r matches Err(e) && e == ValueAccessError::NotPresent) <==> !doc_fields(
            *d,
        ).contains_key(key@),
;

/// Relies on `OrderedDocument::get_i32`: it succeeds exactly when the key holds
/// a 32-bit integer, and tells a missing key from an ill-typed one.
pub assume_specification[ OrderedDocument::get_i32 ](d: &OrderedDocument, key: &str) -> (r:
    core::result::Result<i32, ValueAccessError>)
    ensures
        r is Ok <==> (doc_fields(*d).contains_key(key@) && bson_type(doc_fields(*d)[key@])
            == ElementType::Integer32Bit),
        (r matches Err(e) && e == ValueAccessError::NotPresent) <==> !doc_fields(
            *d,
        ).contains_key(key@),
;

/// Relies on `OrderedDocument::get_i64`: it succeeds exactly when the key holds
/// a 64-bit integer, and tells a missing key from an ill-typed one.
pub assume_specification[ OrderedDocument::get_i64 ](d: &OrderedDocument, key: &str) -> (r:
    core::result::Result<i64, ValueAccessError>)
    ensures
        r is Ok <==> (doc_fields(*d).contains_key(key@) && bson_type(doc_fields(*d)[key@])
            == ElementType::Integer64Bit),
        (r matches Err(e) && e == ValueAccessError::NotPresent) <==> !doc_fields(
            *d,
        ).contains_key(key@),
;

/// Relies on `OrderedDocument::get_str`: it succeeds exactly when the key holds
/// a string, and tells a missing key from an ill-typed one.
pub assume_specification<'a>[ OrderedDocument::get_str ](d: &'a OrderedDocument, key: &str) -> (r:
    core::result::Result<&'a str, ValueAccessError>)
    ensures
        r is Ok <==> (doc_fields(*d).contains_key(key@) && bson_type(doc_fields(*d)[key@])
            == ElementType::Utf8String),
        (r matches Err(e) && e == ValueAccessError::NotPresent) <==> !doc_fields(
            *d,
        ).contains_key(key@),
;

/// Relies on `OrderedDocument::get_array`: it succeeds exactly when the key holds
/// an array, and tells a missing key from an ill-typed one.
pub assume_specification<'a>[ OrderedDocument::get_array ](d: &'a OrderedDocument, key: &str) -> (r:
    core::result::Result<&'a Vec<Bson>, ValueAccessError>)
    ensures
        r is Ok <==> (doc_fields(*d).contains_key(key@) && bson_type(doc_fields(*d)[key@])
            == ElementType::Array),
        (r matches Err(e) && e == ValueAccessError::NotPresent) <==> !doc_fields(
            *d,
        ).contains_key(key@),
;

/// Relies on `OrderedDocument::get_document`: it succeeds exactly when the key holds
/// an embedded document, and tells a missing key from an ill-typed one.
pub assume_specification<'a>[ OrderedDocument::get_document ](d: &'a OrderedDocument, key: &str) -> (r:
    core::result::Result<&'a OrderedDocument, ValueAccessError>)
    ensures
        r is Ok <==> (doc_fields(*d).contains_key(key@) && bson_type(doc_fields(*d)[key@])
            == ElementType::EmbeddedDocument),
        (r matches Err(e) && e == ValueAccessError::NotPresent) <==> !doc_fields(
            *d,
        ).contains_key(key@),
;

/// Relies on `OrderedDocument::get_object_id`: it succeeds exactly when the key holds
/// an object identifier, and tells a missing key from an ill-typed one.
pub assume_specification<'a>[ OrderedDocument::get_object_id ](d: &'a OrderedDocument, key: &str) -> (r:
    core::result::Result<&'a ObjectId, ValueAccessError>)
    ensures
        r is Ok <==> (doc_fields(*d).contains_key(key@) && bson_type(doc_fields(*d)[key@])
            == ElementType::ObjectId),
        (r matches Err(e) && e == ValueAccessError::NotPresent) <==> !doc_fields(
            *d,
        ).contains_key(key@),
;

/// Relies on `OrderedDocument::get_time_stamp`: it succeeds exactly when the key holds
/// a timestamp, and tells a missing key from an ill-typed one.
pub assume_specification[ OrderedDocument::get_time_stamp ](d: &OrderedDocument, key: &str) -> (r:
    core::result::Result<i64, ValueAccessError>)
    ensures
        r is Ok <==> (doc_fields(*d).contains_key(key@) && bson_type(doc_fields(*d)[key@])
            == ElementType::TimeStamp),
        (r matches Err(e) && e == ValueAccessError::NotPresent) <==> !doc_fields(
            *d,
        ).contains_key(key@),
;

/// Relies on `OrderedDocument::get_binary_generic`: it succeeds exactly when the
/// key holds binary data of the generic subtype, and tells a missing key from
/// an ill-typed one.
pub assume_specification<'a>[ OrderedDocument::get_binary_generic ](
    d: &'a OrderedDocument,
    key: &str,
) -> (r: core::result::Result<&'a Vec<u8>, ValueAccessError>)
    ensures
        r is Ok <==> (doc_fields(*d).contains_key(key@) && generic_binary(doc_fields(*d)[key@])),
        r is Ok ==> bson_type(doc_fields(*d)[key@]) == ElementType::Binary,
        (r matches Err(e) && e == ValueAccessError::NotPresent) <==> !doc_fields(
            *d,
        ).contains_key(key@),
;

/// Relies on the derived `Clone` of `OrderedDocument`: a copy with the same
/// entries.
pub assume_specification[ <OrderedDocument as core::clone::Clone>::clone ](
    d: &OrderedDocument,
) -> (r: OrderedDocument)
    ensures
        doc_fields(r) == doc_fields(*d),
;

/// Relies on the derived `Clone` of `Bson`: an equal value.
pub assume_specification[ <Bson as core::clone::Clone>::clone ](v: &Bson) -> (r: Bson)
    ensures
        r == *v,
;

/// Relies on `Bson::element_type`: the element type of the value.
pub assume_specification[ Bson::element_type ](v: &Bson) -> (r: ElementType)
    ensures
        r == bson_type(*v),
;

/// Relies on `From<Document> for Bson`: the document wrapped as an embedded
/// document.
pub assume_specification[ <Bson as core::convert::From<OrderedDocument>>::from ](
    d: OrderedDocument,
) -> (r: Bson)
    ensures
        r == bson_of_doc(d),
        bson_type(r) == ElementType::EmbeddedDocument,
;

/// Relies on `From<Array> for Bson`: the values wrapped as an array.
pub assume_specification[ <Bson as core::convert::From<Vec<Bson>>>::from ](a: Vec<Bson>) -> (r:
    Bson)
    ensures
        r == bson_of_array(a@),
        bson_type(r) == ElementType::Array,
;

/// Relies on matching the `Bson::Document` variant: the embedded document is
/// moved out of the value, or the value is handed back unchanged.
#[verifier::external_body]
pub(crate) fn take_embedded(v: Bson) -> (r: core::result::Result<OrderedDocument, Bson>)
    ensures
        r is Ok <==> bson_type(v) == ElementType::EmbeddedDocument,
        r matches Ok(d) ==> bson_of_doc(d) == v,
        r matches Ok(d) ==> forall|e: OrderedDocument|
            #[trigger] bson_of_doc(e) == v ==> doc_fields(e) == doc_fields(d),
        r matches Err(w) ==> w == v,
{
    match v {
        Bson::Document(d) => Ok(d),
        other => Err(other),
    }
}

} // verus!
