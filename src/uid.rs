//! Identifiers tied to the document type they belong to.

use vstd::prelude::*;
use bson::oid::ObjectId;
use crate::doc::Doc;
use crate::error::{Error, ErrorKind, Result};

verus! {

/// The unique identifier of a document of type `T`. It wraps the raw
/// identifier value `T::Id`; identifiers of different document types are
/// different types even when their raw values are of the same type. Equality
/// and order are those of the raw values.
#[derive(Debug, Clone, PartialEq, Eq, PartialOrd, Ord, Hash)]
pub struct Uid<T: Doc> {
    raw: T::Id,
}

impl<T: Doc> Uid<T> {
    /// The raw identifier value.
    pub closed spec fn view(&self) -> T::Id {
        self.raw
    }

    /// Wraps a raw identifier value.
    pub fn new(raw: T::Id) -> (r: Uid<T>)
        ensures
            r.view() == raw,
    {
        Uid { raw }
    }

    /// The raw identifier value, by reference.
    pub fn as_raw(&self) -> (r: &T::Id)
        ensures
            *r == self.view(),
    {
        &self.raw
    }

    /// Unwraps the raw identifier value.
    pub fn into_raw(self) -> (r: T::Id)
        ensures
            r == self.view(),
    {
        self.raw
    }
}

impl<T: Doc<Id = ObjectId>> Uid<T> {
    /// A fresh identifier of the kind the store generates itself.
    pub fn new_oid() -> (r: Result<Uid<T>>)
        ensures
            r matches Err(e) ==> e.kind == ErrorKind::ObjectIdGeneration,
    {
        match ObjectId::new() {
            Ok(oid) => Ok(Uid::new(oid)),
            Err(_) => Err(
                Error::new(ErrorKind::ObjectIdGeneration, String::from_str("can't generate an ObjectId")),
            ),
        }
    }
}

} // verus!
