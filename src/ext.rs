//! Typed, fallible extraction of fields from documents, for writing the
//! `transform` functions of operations.

use vstd::prelude::*;
use bson::ordered::OrderedDocument;
use bson::spec::ElementType;
use bson::Bson;
use bson::ordered::ValueAccessError;
use crate::bsn::{doc_fields, bson_type, generic_binary, bson_of_doc, take_embedded};
use crate::error::{Error, ErrorKind, Result};

verus! {

/// Whether `r` is an error of the given kind.
pub open spec fn fails_with<V>(r: Result<V>, kind: ErrorKind) -> bool {
    r matches Err(e) && e.kind == kind
}

/// What removing `key` from a document with entries `before`, leaving entries
/// `after`, may do when only values satisfying `accepts` may be taken out: a
/// missing key and a value of the wrong kind are told apart, and the document
/// changes only when the value is returned.
pub open spec fn typed_removal(
    before: Map<Seq<char>, Bson>,
    after: Map<Seq<char>, Bson>,
    key: Seq<char>,
    accepts: spec_fn(Bson) -> bool,
    r: Result<Bson>,
) -> bool {
    if !before.contains_key(key) {
        after == before && fails_with(r, ErrorKind::MissingDocumentField)
    } else if accepts(before[key]) {
        after == before.remove(key) && r == Ok::<Bson, Error>(before[key])
    } else {
        after == before && fails_with(r, ErrorKind::IllTypedDocumentField)
    }
}

/// Whether a value is a number: a 32-bit or 64-bit integer or a double.
pub open spec fn is_numeric(v: Bson) -> bool {
    bson_type(v) == ElementType::Integer32Bit || bson_type(v) == ElementType::Integer64Bit
        || bson_type(v) == ElementType::FloatingPoint
}

/// Extract-and-remove helpers on documents. Each one takes a key's value out of
/// the document, and fails with `MissingDocumentField` when the key is absent
/// and with `IllTypedDocumentField` when its value has the wrong type.
pub trait DocumentExt: Sized {
    /// The entries of the document.
    spec fn entries(&self) -> Map<Seq<char>, Bson>;

    /// Removes the value under `key`, whatever its type.
    fn try_remove(&mut self, key: &str) -> (r: Result<Bson>)
        ensures
            typed_removal(old(self).entries(), final(self).entries(), key@, |v: Bson| true, r),
    ;

    /// Removes the value under `key` if it is a boolean.
    fn remove_bool(&mut self, key: &str) -> (r: Result<Bson>)
        ensures
            typed_removal(
                old(self).entries(),
                final(self).entries(),
                key@,
                |v: Bson| bson_type(v) == ElementType::Boolean,
                r,
            ),
    ;

    /// Removes the value under `key` if it is a 32-bit integer.
    fn remove_i32(&mut self, key: &str) -> (r: Result<Bson>)
        ensures
            typed_removal(
                old(self).entries(),
                final(self).entries(),
                key@,
                |v: Bson| bson_type(v) == ElementType::Integer32Bit,
                r,
            ),
    ;

    /// Removes the value under `key` if it is a 64-bit integer.
    fn remove_i64(&mut self, key: &str) -> (r: Result<Bson>)
        ensures
            typed_removal(
                old(self).entries(),
                final(self).entries(),
                key@,
                |v: Bson| bson_type(v) == ElementType::Integer64Bit,
                r,
            ),
    ;

    /// Removes the value under `key` if it is a double.
    fn remove_f64(&mut self, key: &str) -> (r: Result<Bson>)
        ensures
            typed_removal(
                old(self).entries(),
                final(self).entries(),
                key@,
                |v: Bson| bson_type(v) == ElementType::FloatingPoint,
                r,
            ),
    ;

    /// Removes the value under `key` if it is any kind of number.
    fn remove_number(&mut self, key: &str) -> (r: Result<Bson>)
        ensures
            typed_removal(old(self).entries(), final(self).entries(), key@, |v: Bson| is_numeric(v), r),
    ;

    /// Removes the value under `key` if it is a string.
    fn remove_str(&mut self, key: &str) -> (r: Result<Bson>)
        ensures
            typed_removal(
                old(self).entries(),
                final(self).entries(),
                key@,
                |v: Bson| bson_type(v) == ElementType::Utf8String,
                r,
            ),
    ;

    /// Removes the value under `key` if it is an array.
    fn remove_array(&mut self, key: &str) -> (r: Result<Bson>)
        ensures
            typed_removal(
                old(self).entries(),
                final(self).entries(),
                key@,
                |v: Bson| bson_type(v) == ElementType::Array,
                r,
            ),
    ;

    /// Removes the value under `key` if it is an embedded document.
    fn remove_document(&mut self, key: &str) -> (r: Result<Bson>)
        ensures
            typed_removal(
                old(self).entries(),
                final(self).entries(),
                key@,
                |v: Bson| bson_type(v) == ElementType::EmbeddedDocument,
                r,
            ),
    ;

    /// Removes the value under `key` if it is an object identifier.
    fn remove_object_id(&mut self, key: &str) -> (r: Result<Bson>)
        ensures
            typed_removal(
                old(self).entries(),
                final(self).entries(),
                key@,
                |v: Bson| bson_type(v) == ElementType::ObjectId,
                r,
            ),
    ;

    /// Removes the value under `key` if it is a UTC date-time.
    fn remove_datetime(&mut self, key: &str) -> (r: Result<Bson>)
        ensures
            typed_removal(
                old(self).entries(),
                final(self).entries(),
                key@,
                |v: Bson| bson_type(v) == ElementType::UtcDatetime,
                r,
            ),
    ;

    /// Removes the value under `key` if it is a timestamp.
    fn remove_timestamp(&mut self, key: &str) -> (r: Result<Bson>)
        ensures
            typed_removal(
                old(self).entries(),
                final(self).entries(),
                key@,
                |v: Bson| bson_type(v) == ElementType::TimeStamp,
                r,
            ),
    ;

    /// Removes the value under `key` if it is binary data of the generic
    /// subtype.
    fn remove_generic_binary(&mut self, key: &str) -> (r: Result<Bson>)
        ensures
            typed_removal(
                old(self).entries(),
                final(self).entries(),
                key@,
                |v: Bson| generic_binary(v),
                r,
            ),
    ;

    /// Removes the value under `key` and returns the embedded document it
    /// holds. Unlike the other helpers, a present key is removed even when its
    /// value is not a document.
    fn remove_inner_doc(&mut self, key: &str) -> (r: Result<OrderedDocument>)
        ensures
            !old(self).entries().contains_key(key@) ==> {
                &&& final(self).entries() == old(self).entries()
                &&& fails_with(r, ErrorKind::MissingDocumentField)
            },
            old(self).entries().contains_key(key@) ==> {
                &&& final(self).entries() == old(self).entries().remove(key@)
                &&& (r is Ok <==> bson_type(old(self).entries()[key@])
                    == ElementType::EmbeddedDocument)
                &&& (r matches Ok(d) ==> bson_of_doc(d) == old(self).entries()[key@])
                &&& (r matches Ok(d) ==> forall|e: OrderedDocument|
                    #[trigger] bson_of_doc(e) == old(self).entries()[key@] ==> doc_fields(e)
                        == doc_fields(d))
                &&& (r is Err ==> fails_with(r, ErrorKind::IllTypedDocumentField))
            },
    ;
}

/// Renders the message of a failed removal.
#[verifier::external_body]
fn removal_message(ty: &str, key: &str) -> String {
    format!("error removing {} value for key `{}`", ty, key)
}

/// Renders the message of a removal whose key was not found.
#[verifier::external_body]
fn missing_key_message(key: &str) -> String {
    format!("key `{}` was not found in the document", key)
}

/// The error for a missing or ill-typed key.
fn removal_error(key: &str, ty: &str, kind: ErrorKind) -> (e: Error)
    ensures
        e.kind == kind,
{
    Error::new(kind, removal_message(ty, key))
}

/// Takes the value under `key` out of `d` when `accepted` says whether the
/// value present there may be taken (`None` when the key is absent).
fn take_if(d: &mut OrderedDocument, key: &str, ty: &str, accepted: Option<bool>) -> (r: Result<
    Bson,
>)
    requires
        accepted is None <==> !doc_fields(*old(d)).contains_key(key@),
    ensures
        !doc_fields(*old(d)).contains_key(key@) ==> {
            &&& doc_fields(*final(d)) == doc_fields(*old(d))
            &&& fails_with(r, ErrorKind::MissingDocumentField)
        },
        accepted == Some(true) ==> {
            &&& doc_fields(*final(d)) == doc_fields(*old(d)).remove(key@)
            &&& r == Ok::<Bson, Error>(doc_fields(*old(d))[key@])
        },
        accepted == Some(false) ==> {
            &&& doc_fields(*final(d)) == doc_fields(*old(d))
            &&& fails_with(r, ErrorKind::IllTypedDocumentField)
        },
{
    match accepted {
        None => Err(removal_error(key, ty, ErrorKind::MissingDocumentField)),
        Some(false) => Err(removal_error(key, ty, ErrorKind::IllTypedDocumentField)),
        Some(true) => match d.remove(key) {
            Some(v) => Ok(v),
            None => Err(removal_error(key, ty, ErrorKind::MissingDocumentField)),
        },
    }
}

/// What a typed lookup says of a key: `None` when it is missing, otherwise
/// whether its value has the type looked for.
fn access_found<X>(r: core::result::Result<X, ValueAccessError>) -> (found: Option<bool>)
    ensures
        found is None <==> (r matches Err(e) && e == ValueAccessError::NotPresent),
        found == Some(true) <==> r is Ok,
        found == Some(false) <==> (r matches Err(e) && e != ValueAccessError::NotPresent),
{
    match r {
        Ok(_) => Some(true),
        Err(ValueAccessError::NotPresent) => None,
        Err(_) => Some(false),
    }
}

/// The element type of the value under `key`, if the key is present. Used
/// where the typed lookup of the document returns a value that cannot stand
/// here: a double, or a date-time of `chrono`.
fn type_at(d: &OrderedDocument, key: &str) -> (r: Option<ElementType>)
    ensures
        r is None <==> !doc_fields(*d).contains_key(key@),
        r matches Some(t) ==> t == bson_type(doc_fields(*d)[key@]),
{
    match d.get(key) {
        Some(v) => Some(v.element_type()),
        None => None,
    }
}

impl DocumentExt for OrderedDocument {
    open spec fn entries(&self) -> Map<Seq<char>, Bson> {
        doc_fields(*self)
    }

    fn try_remove(&mut self, key: &str) -> (r: Result<Bson>) {
        let ghost before = doc_fields(*self);
        match self.remove(key) {
            Some(v) => Ok(v),
            None => {
                assert(before.remove(key@) =~= before);
                Err(Error::new(ErrorKind::MissingDocumentField, missing_key_message(key)))
            },
        }
    }

    fn remove_bool(&mut self, key: &str) -> (r: Result<Bson>) {
        let found = access_found(self.get_bool(key));
        take_if(self, key, "bool", found)
    }

    fn remove_i32(&mut self, key: &str) -> (r: Result<Bson>) {
        let found = access_found(self.get_i32(key));
        take_if(self, key, "i32", found)
    }

    fn remove_i64(&mut self, key: &str) -> (r: Result<Bson>) {
        let found = access_found(self.get_i64(key));
        take_if(self, key, "i64", found)
    }

    fn remove_f64(&mut self, key: &str) -> (r: Result<Bson>) {
        let found = match type_at(self, key) {
            Some(t) => Some(matches!(t, ElementType::FloatingPoint)),
            None => None,
        };
        take_if(self, key, "f64", found)
    }

    fn remove_number(&mut self, key: &str) -> (r: Result<Bson>) {
        if let Ok(x) = self.remove_i32(key) {
            return Ok(x);
        }
        if let Ok(x) = self.remove_i64(key) {
            return Ok(x);
        }
        if let Ok(x) = self.remove_f64(key) {
            return Ok(x);
        }
        let kind = match self.get(key) {
            Some(_) => ErrorKind::IllTypedDocumentField,
            None => ErrorKind::MissingDocumentField,
        };
        Err(removal_error(key, "numeric", kind))
    }

    fn remove_str(&mut self, key: &str) -> (r: Result<Bson>) {
        let found = access_found(self.get_str(key));
        take_if(self, key, "string", found)
    }

    fn remove_array(&mut self, key: &str) -> (r: Result<Bson>) {
        let found = access_found(self.get_array(key));
        take_if(self, key, "array", found)
    }

    fn remove_document(&mut self, key: &str) -> (r: Result<Bson>) {
        let found = access_found(self.get_document(key));
        take_if(self, key, "document", found)
    }

    fn remove_object_id(&mut self, key: &str) -> (r: Result<Bson>) {
        let found = access_found(self.get_object_id(key));
        take_if(self, key, "ObjectID", found)
    }

    fn remove_datetime(&mut self, key: &str) -> (r: Result<Bson>) {
        let found = match type_at(self, key) {
            Some(t) => Some(matches!(t, ElementType::UtcDatetime)),
            None => None,
        };
        take_if(self, key, "DateTime", found)
    }

    fn remove_timestamp(&mut self, key: &str) -> (r: Result<Bson>) {
        let found = access_found(self.get_time_stamp(key));
        take_if(self, key, "timestamp", found)
    }

    fn remove_generic_binary(&mut self, key: &str) -> (r: Result<Bson>) {
        let found = access_found(self.get_binary_generic(key));
        take_if(self, key, "generic binary", found)
    }

    fn remove_inner_doc(&mut self, key: &str) -> (r: Result<OrderedDocument>) {
        match self.remove(key) {
            Some(v) => match take_embedded(v) {
                Ok(doc) => Ok(doc),
                Err(_) => Err(removal_error(key, "document", ErrorKind::IllTypedDocumentField)),
            },
            None => Err(removal_error(key, "document", ErrorKind::MissingDocumentField)),
        }
    }
}

} // verus!
