//! Re-exports of the most commonly used items, including the document and
//! value types of `bson` and the option types of `mongodb`.

pub use crate::coll::{
    InsertManyError, InsertManyErrorContext, UpdateManyResult, UpdateOneResult, UpsertManyResult,
    UpsertOneResult,
};
pub use crate::doc::Doc;
pub use crate::error::{Error as AvocadoError, ErrorKind as AvocadoErrorKind, Result as AvocadoResult};
pub use crate::ext::DocumentExt;
pub use crate::ops::{Count, Delete, Distinct, FindAndUpdate, Pipeline, Query, Update, Upsert};
pub use crate::uid::Uid;
pub use bson::oid::ObjectId;
pub use bson::{Bson, Document};
pub use mongodb::coll::options::{FindOneAndUpdateOptions, FindOptions, IndexModel, ReturnDocument};
