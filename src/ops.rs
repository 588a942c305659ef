//! High-level database operations: count, distinct, aggregate, query, update,
//! upsert, delete and find-and-update. An operation value supplies its filter,
//! its update specification where it has one, its options (by default those of
//! the document type) and a transform applied to raw results before they are
//! decoded (by default the identity).

use vstd::prelude::*;
use bson::ordered::OrderedDocument;
use bson::Bson;
use mongodb::coll::options::{
    AggregateOptions, CountOptions, DistinctOptions, FindOneAndUpdateOptions, FindOptions,
};
use mongodb::common::WriteConcern;
use core::fmt::Debug;
use crate::bsn::{bson_of_doc, doc_fields, no_fields};
use crate::doc::Doc;
use crate::error::{Error, Result};

verus! {

/// The empty filter: it matches every document.
pub fn empty_filter() -> (r: OrderedDocument)
    ensures
        doc_fields(r) == no_fields(),
{
    OrderedDocument::new()
}

/// The default transform of a retrieved document: the document itself, as a
/// value.
pub fn document_transform(raw: OrderedDocument) -> (r: Result<Bson>)
    ensures
        r == Ok::<Bson, Error>(bson_of_doc(raw)),
{
    Ok(Bson::from(raw))
}

/// The default transform of a retrieved value: the value itself.
pub fn value_transform(raw: Bson) -> (r: Result<Bson>)
    ensures
        r == Ok::<Bson, Error>(raw),
{
    Ok(raw)
}

/// A counting-only query.
pub trait Count<T: Doc>: Debug {
    /// Filter for this query. Defaults to an empty filter, counting all
    /// documents of the collection.
    fn filter(&self) -> OrderedDocument {
        empty_filter()
    }

    /// Options for this query.
    fn options(&self) -> CountOptions {
        T::count_options()
    }
}

/// A query for the distinct values of a field.
pub trait Distinct<T: Doc>: Debug {
    /// The type of the values of the field.
    type Output;

    /// The name of the field whose distinct values are returned.
    const FIELD: &'static str;

    /// Filter restricting which documents are taken into account. Defaults to
    /// no filtering.
    fn filter(&self) -> OrderedDocument {
        empty_filter()
    }

    /// Transform applied to each returned raw value before it is decoded as
    /// `Output`. Defaults to the identity.
    fn transform(raw: Bson) -> Result<Bson> {
        value_transform(raw)
    }

    /// Options for this query.
    fn options(&self) -> DistinctOptions {
        T::distinct_options()
    }
}

/// An aggregation pipeline.
pub trait Pipeline<T: Doc>: Debug {
    /// The type of the values the pipeline produces.
    type Output;

    /// The stages of the pipeline.
    fn stages(&self) -> Vec<OrderedDocument>;

    /// Transform applied to each returned raw document before it is decoded as
    /// `Output`. Defaults to the document itself, as a value.
    fn transform(raw: OrderedDocument) -> Result<Bson> {
        document_transform(raw)
    }

    /// Options for this pipeline.
    fn options(&self) -> AggregateOptions {
        T::aggregate_options()
    }
}

/// A regular query (`find_one` or `find_many`).
pub trait Query<T: Doc>: Debug {
    /// The type of the results. Often the document type `T` itself.
    type Output;

    /// Filter restricting the returned documents. Defaults to an empty filter,
    /// returning all documents of the collection.
    fn filter(&self) -> OrderedDocument {
        empty_filter()
    }

    /// Transform applied to each returned raw document before it is decoded as
    /// `Output`. Defaults to the document itself, as a value.
    fn transform(raw: OrderedDocument) -> Result<Bson> {
        document_transform(raw)
    }

    /// Options for this query.
    fn options(&self) -> FindOptions {
        T::query_options()
    }
}

/// An update (but never an upsert) operation.
pub trait Update<T: Doc>: Debug {
    /// Filter restricting the documents to update.
    fn filter(&self) -> OrderedDocument;

    /// The update to perform on the matching documents.
    fn update(&self) -> OrderedDocument;

    /// Write concern of this update.
    fn options(&self) -> WriteConcern {
        T::update_options()
    }
}

/// An upsert (update, or insert if nothing matches) operation.
pub trait Upsert<T: Doc>: Debug {
    /// Filter restricting the documents to upsert.
    fn filter(&self) -> OrderedDocument;

    /// The upsert to perform on the matching documents.
    fn upsert(&self) -> OrderedDocument;

    /// Write concern of this upsert.
    fn options(&self) -> WriteConcern {
        T::upsert_options()
    }
}

/// A deletion operation.
pub trait Delete<T: Doc>: Debug {
    /// Filter restricting the documents to delete.
    fn filter(&self) -> OrderedDocument;

    /// Write concern of this deletion.
    fn options(&self) -> WriteConcern {
        T::delete_options()
    }
}

/// An operation that finds and updates one document atomically. Whether it
/// updates or upserts is decided by its options.
pub trait FindAndUpdate<T: Doc>: Debug {
    /// The type of the result. Often the document type `T` itself.
    type Output;

    /// Filter restricting the documents to update or upsert.
    fn filter(&self) -> OrderedDocument;

    /// The update or upsert to perform.
    fn update(&self) -> OrderedDocument;

    /// Transform applied to the returned raw document before it is decoded as
    /// `Output`. Defaults to the document itself, as a value.
    fn transform(raw: OrderedDocument) -> Result<Bson> {
        document_transform(raw)
    }

    /// Options for this find-and-update operation.
    fn options(&self) -> FindOneAndUpdateOptions {
        T::find_and_update_options()
    }
}

// A raw document is itself a count, a query or a deletion: it is its filter.

impl<T: Doc> Count<T> for OrderedDocument {
    fn filter(&self) -> OrderedDocument {
        self.clone()
    }
}

impl<T: Doc> Query<T> for OrderedDocument {
    type Output = T;

    fn filter(&self) -> OrderedDocument {
        self.clone()
    }
}

impl<T: Doc> Delete<T> for OrderedDocument {
    fn filter(&self) -> OrderedDocument {
        self.clone()
    }
}

// An operation behind a reference is the same operation: every method
// forwards unchanged.

impl<'a, T: Doc, Q: Count<T>> Count<T> for &'a Q {
    fn filter(&self) -> OrderedDocument {
        (**self).filter()
    }

    fn options(&self) -> CountOptions {
        (**self).options()
    }
}

impl<'a, T: Doc, Q: Distinct<T>> Distinct<T> for &'a Q {
    type Output = Q::Output;

    const FIELD: &'static str = Q::FIELD;

    fn filter(&self) -> OrderedDocument {
        (**self).filter()
    }

    fn transform(raw: Bson) -> Result<Bson> {
        Q::transform(raw)
    }

    fn options(&self) -> DistinctOptions {
        (**self).options()
    }
}

impl<'a, T: Doc, P: Pipeline<T>> Pipeline<T> for &'a P {
    type Output = P::Output;

    fn stages(&self) -> Vec<OrderedDocument> {
        (**self).stages()
    }

    fn transform(raw: OrderedDocument) -> Result<Bson> {
        P::transform(raw)
    }

    fn options(&self) -> AggregateOptions {
        (**self).options()
    }
}

impl<'a, T: Doc, Q: Query<T>> Query<T> for &'a Q {
    type Output = Q::Output;

    fn filter(&self) -> OrderedDocument {
        (**self).filter()
    }

    fn transform(raw: OrderedDocument) -> Result<Bson> {
        Q::transform(raw)
    }

    fn options(&self) -> FindOptions {
        (**self).options()
    }
}

impl<'a, T: Doc, U: Update<T>> Update<T> for &'a U {
    fn filter(&self) -> OrderedDocument {
        (**self).filter()
    }

    fn update(&self) -> OrderedDocument {
        (**self).update()
    }

    fn options(&self) -> WriteConcern {
        (**self).options()
    }
}

impl<'a, T: Doc, U: Upsert<T>> Upsert<T> for &'a U {
    fn filter(&self) -> OrderedDocument {
        (**self).filter()
    }

    fn upsert(&self) -> OrderedDocument {
        (**self).upsert()
    }

    fn options(&self) -> WriteConcern {
        (**self).options()
    }
}

impl<'a, T: Doc, Q: Delete<T>> Delete<T> for &'a Q {
    fn filter(&self) -> OrderedDocument {
        (**self).filter()
    }

    fn options(&self) -> WriteConcern {
        (**self).options()
    }
}

impl<'a, T: Doc, U: FindAndUpdate<T>> FindAndUpdate<T> for &'a U {
    type Output = U::Output;

    fn filter(&self) -> OrderedDocument {
        (**self).filter()
    }

    fn update(&self) -> OrderedDocument {
        (**self).update()
    }

    fn transform(raw: OrderedDocument) -> Result<Bson> {
        U::transform(raw)
    }

    fn options(&self) -> FindOneAndUpdateOptions {
        (**self).options()
    }
}

} // verus!
