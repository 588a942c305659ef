//! The capabilities of a document type: a direct member of a collection.

use vstd::prelude::*;
use mongodb::coll::options::{
    AggregateOptions, CountOptions, DistinctOptions, FindOneAndUpdateOptions, FindOptions,
    IndexModel, InsertManyOptions,
};
use mongodb::common::WriteConcern;
use crate::uid::Uid;

verus! {

/// Implemented by top-level (direct collection member) document types. Such a
/// type has a collection name and an identifier, and may override the index
/// specifications and the default options of each kind of operation.
pub trait Doc: Sized {
    /// The type of the raw unique identifiers of the documents.
    type Id;

    /// The name of the collection within the database.
    const NAME: &'static str;

    /// The identifier of this document, if it has one.
    fn id(&self) -> Option<&Uid<Self>>;

    /// Sets or changes the identifier of this document.
    fn set_id(&mut self, id: Uid<Self>);

    /// The specifications of the indexes on the collection. None by default:
    /// only the identifier field is then indexed, by the store itself.
    fn indexes() -> Vec<IndexModel> {
        Vec::new()
    }

    /// Options for a count-only query.
    fn count_options() -> CountOptions {
        CountOptions::new()
    }

    /// Options for a `distinct` query.
    fn distinct_options() -> DistinctOptions {
        DistinctOptions::new()
    }

    /// Aggregation pipeline options.
    fn aggregate_options() -> AggregateOptions {
        AggregateOptions::new()
    }

    /// Options for a regular query.
    fn query_options() -> FindOptions {
        FindOptions::new()
    }

    /// Options for single and batch insertions.
    fn insert_options() -> InsertManyOptions {
        InsertManyOptions::new()
    }

    /// Write concern of a delete operation.
    fn delete_options() -> WriteConcern {
        WriteConcern::default()
    }

    /// Write concern of a (strictly non-upsert) update operation.
    fn update_options() -> WriteConcern {
        WriteConcern::default()
    }

    /// Write concern of an upsert operation.
    fn upsert_options() -> WriteConcern {
        WriteConcern::default()
    }

    /// Options for find-and-update operations.
    fn find_and_update_options() -> FindOneAndUpdateOptions {
        FindOneAndUpdateOptions::new()
    }
}

} // verus!
