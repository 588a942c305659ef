//! What this library relies on from the `mongodb` crate: the option types that
//! operations carry to the store, and their constructors.
//!
//! The option types whose fields the library reads or fills are declared with
//! their fields; the others are carried through unopened.

use vstd::prelude::*;
use mongodb::coll::options::{
    AggregateOptions, CountOptions, CursorType, DistinctOptions, FindOneAndDeleteOptions,
    FindOneAndUpdateOptions, FindOptions, IndexModel, InsertManyOptions, ReturnDocument,
    UpdateOptions,
};
use mongodb::coll::error::{BulkWriteException, WriteException};
use mongodb::coll::results::{DeleteResult, InsertOneResult, UpdateResult};
use mongodb::common::{ReadMode, ReadPreference, WriteConcern};

verus! {

/// `CountOptions`, carried through unopened.
#[verifier::external_type_specification]
#[verifier::external_body]
pub struct ExCountOptions(CountOptions);

/// `DistinctOptions`, carried through unopened.
#[verifier::external_type_specification]
#[verifier::external_body]
pub struct ExDistinctOptions(DistinctOptions);

/// `AggregateOptions`, carried through unopened.
#[verifier::external_type_specification]
#[verifier::external_body]
pub struct ExAggregateOptions(AggregateOptions);

/// `IndexModel`, carried through unopened.
#[verifier::external_type_specification]
#[verifier::external_body]
pub struct ExIndexModel(IndexModel);

/// `WriteConcern`, with its fields.
#[verifier::external_type_specification]
pub struct ExWriteConcern(WriteConcern);

/// `ReadMode`, with its variants.
#[verifier::external_type_specification]
pub struct ExReadMode(ReadMode);

/// `ReadPreference`, with its fields.
#[verifier::external_type_specification]
pub struct ExReadPreference(ReadPreference);

/// `CursorType`, with its variants.
#[verifier::external_type_specification]
pub struct ExCursorType(CursorType);

/// `ReturnDocument`, with its variants.
#[verifier::external_type_specification]
pub struct ExReturnDocument(ReturnDocument);

/// `FindOptions`, with its fields.
#[verifier::external_type_specification]
pub struct ExFindOptions(FindOptions);

/// `InsertManyOptions`, with its fields.
#[verifier::external_type_specification]
pub struct ExInsertManyOptions(InsertManyOptions);

/// `UpdateOptions`, with its fields.
#[verifier::external_type_specification]
pub struct ExUpdateOptions(UpdateOptions);

/// `FindOneAndDeleteOptions`, with its fields.
#[verifier::external_type_specification]
pub struct ExFindOneAndDeleteOptions(FindOneAndDeleteOptions);

/// `FindOneAndUpdateOptions`, with its fields.
#[verifier::external_type_specification]
pub struct ExFindOneAndUpdateOptions(FindOneAndUpdateOptions);

/// `WriteException`, opaque.
#[verifier::external_type_specification]
#[verifier::external_body]
pub struct ExWriteException(WriteException);

/// `BulkWriteException`, opaque.
#[verifier::external_type_specification]
#[verifier::external_body]
pub struct ExBulkWriteException(BulkWriteException);

/// `UpdateResult`, with its fields.
#[verifier::external_type_specification]
pub struct ExUpdateResult(UpdateResult);

/// `DeleteResult`, with its fields.
#[verifier::external_type_specification]
pub struct ExDeleteResult(DeleteResult);

/// `InsertOneResult`, with its fields.
#[verifier::external_type_specification]
pub struct ExInsertOneResult(InsertOneResult);

/// Relies on the `Display` of `WriteException`: a description of the failed
/// write.
#[verifier::external_body]
pub(crate) fn describe_write_exception(e: &WriteException) -> String {
    format!("{}", e)
}

/// Relies on the `Display` of `BulkWriteException`: a description of the
/// failed bulk write.
#[verifier::external_body]
pub(crate) fn describe_bulk_write_exception(e: &BulkWriteException) -> String {
    format!("{}", e)
}

/// Relies on `CountOptions::new`: the driver's default count options.
pub assume_specification[ CountOptions::new ]() -> CountOptions;

/// Relies on `DistinctOptions::new`: the driver's default distinct options.
pub assume_specification[ DistinctOptions::new ]() -> DistinctOptions;

/// Relies on `AggregateOptions::new`: the driver's default aggregation options.
pub assume_specification[ AggregateOptions::new ]() -> AggregateOptions;

/// Relies on `FindOptions::new`: the driver's default query options.
pub assume_specification[ FindOptions::new ]() -> FindOptions;

/// Relies on `InsertManyOptions::new`: the driver's default insertion options.
pub assume_specification[ InsertManyOptions::new ]() -> InsertManyOptions;

/// Relies on `FindOneAndUpdateOptions::new`: the driver's default
/// find-and-modify options.
pub assume_specification[ FindOneAndUpdateOptions::new ]() -> FindOneAndUpdateOptions;

/// Relies on the derived `Default` of `WriteConcern`: every field zero or false.
pub assume_specification[ <WriteConcern as core::default::Default>::default ]() -> (r:
    WriteConcern)
    ensures
        r.w == 0,
        r.w_timeout == 0,
        !r.j,
        !r.fsync,
;

} // verus!
