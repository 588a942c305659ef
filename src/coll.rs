//! The rules of the typed collection: what each operation sends to the store,
//! and how the store's raw results become typed outcomes or errors. The
//! collection itself, which performs the round trips, applies these rules.

use vstd::prelude::*;
use bson::ordered::OrderedDocument;
use bson::spec::ElementType;
use bson::Bson;
use mongodb::coll::options::{
    FindOneAndDeleteOptions, FindOneAndUpdateOptions, FindOptions, ReturnDocument, UpdateOptions,
};
use mongodb::coll::results::{DeleteResult, InsertOneResult, UpdateResult};
use mongodb::coll::error::BulkWriteException;
use mongodb::common::WriteConcern;
use std::collections::BTreeMap;
use crate::bsn::{
    doc_fields, bson_type, bson_of_doc, bson_of_array, embedded_field, no_fields, take_embedded,
};
use crate::doc::Doc;
use crate::error::{Error, ErrorKind, Result};
use crate::ext::fails_with;
use crate::mongo::{describe_write_exception, describe_bulk_write_exception};
use crate::uid::Uid;

verus! {

/// The outcome of a successful single-document update.
#[derive(Debug, Clone, Copy, Default, PartialEq, Eq, Hash, Structural)]
pub struct UpdateOneResult {
    /// Whether a document matched the query criteria.
    pub matched: bool,
    /// Whether the matched document was actually modified.
    pub modified: bool,
}

/// The outcome of a successful single-document upsert.
#[derive(Debug, Clone, Copy, Default, PartialEq, Eq, Hash)]
pub struct UpsertOneResult<Id> {
    /// Whether a document matched the query criteria.
    pub matched: bool,
    /// Whether the matched document was actually modified.
    pub modified: bool,
    /// The identifier of the inserted document, if one was inserted.
    pub upserted_id: Option<Id>,
}

/// The outcome of a successful multi-document update or upsert.
#[derive(Debug, Clone, Copy, Default, PartialEq, Eq, Hash, Structural)]
pub struct UpdateManyResult {
    /// The number of documents matched by the query criteria.
    pub num_matched: usize,
    /// The number of documents modified by the update specification.
    pub num_modified: usize,
}

/// The outcome of a successful multi-document upsert.
pub type UpsertManyResult = UpdateManyResult;

/// The error of a write that the store rejected.
fn write_failure(e: &mongodb::coll::error::WriteException, kind_of_write: &str) -> (r: Error)
    ensures
        r.kind == ErrorKind::MongoDbWriteException,
{
    Error::new(ErrorKind::MongoDbWriteException, describe_write_exception(e)).chain(kind_of_write)
}

/// Converts a count reported by the store; a negative count is an error.
pub fn count_from_raw(n: i64) -> (r: Result<usize>)
    ensures
        0 <= n <= usize::MAX ==> r == Ok::<usize, Error>(n as usize),
        n < 0 ==> fails_with(r, ErrorKind::IntConversionUnderflow),
        n > usize::MAX ==> fails_with(r, ErrorKind::IntConversionOverflow),
{
    if n < 0 {
        Err(Error::new(ErrorKind::IntConversionUnderflow, String::from_str("negative count reported")))
    } else if n as u64 > usize::MAX as u64 {
        Err(Error::new(ErrorKind::IntConversionOverflow, String::from_str("count out of range")))
    } else {
        Ok(n as usize)
    }
}

impl UpdateOneResult {
    /// Converts the store's result of a single-document update: an embedded
    /// write exception is an error, and the counts become flags.
    pub fn from_raw(result: UpdateResult) -> (r: Result<UpdateOneResult>)
        ensures
            result.write_exception is Some ==> fails_with(r, ErrorKind::MongoDbWriteException),
            result.write_exception is None ==> r == Ok::<UpdateOneResult, Error>(
                UpdateOneResult {
                    matched: result.matched_count > 0,
                    modified: result.modified_count > 0,
                },
            ),
    {
        match &result.write_exception {
            Some(e) => Err(write_failure(e, "couldn't perform single update")),
            None => Ok(
                UpdateOneResult {
                    matched: result.matched_count > 0,
                    modified: result.modified_count > 0,
                },
            ),
        }
    }
}

impl UpdateManyResult {
    /// Converts the store's result of a multi-document update or upsert: an
    /// embedded write exception is an error, and so is a negative count.
    pub fn from_raw(result: UpdateResult) -> (r: Result<UpdateManyResult>)
        ensures
            result.write_exception is Some ==> fails_with(r, ErrorKind::MongoDbWriteException),
            result.write_exception is None ==> {
                &&& (result.matched_count < 0 || result.modified_count < 0) ==> fails_with(
                    r,
                    ErrorKind::IntConversionUnderflow,
                )
                &&& (result.matched_count >= 0 && result.modified_count >= 0) ==> r == Ok::<
                    UpdateManyResult,
                    Error,
                >(
                    UpdateManyResult {
                        num_matched: result.matched_count as usize,
                        num_modified: result.modified_count as usize,
                    },
                )
            },
    {
        match &result.write_exception {
            Some(e) => Err(write_failure(e, "couldn't perform multi-document update")),
            None => {
                let num_matched = count_from_raw(result.matched_count as i64)?;
                let num_modified = count_from_raw(result.modified_count as i64)?;
                Ok(UpdateManyResult { num_matched, num_modified })
            },
        }
    }
}

/// Converts the store's result of a single-document deletion: whether a
/// document was removed.
pub fn deleted_one(result: DeleteResult) -> (r: Result<bool>)
    ensures
        result.write_exception is Some ==> fails_with(r, ErrorKind::MongoDbWriteException),
        result.write_exception is None ==> r == Ok::<bool, Error>(result.deleted_count > 0),
{
    match &result.write_exception {
        Some(e) => Err(write_failure(e, "couldn't delete document")),
        None => Ok(result.deleted_count > 0),
    }
}

/// Converts the store's result of a multi-document deletion: the number of
/// documents removed.
pub fn deleted_many(result: DeleteResult) -> (r: Result<usize>)
    ensures
        result.write_exception is Some ==> fails_with(r, ErrorKind::MongoDbWriteException),
        result.write_exception is None ==> {
            &&& result.deleted_count < 0 ==> fails_with(r, ErrorKind::IntConversionUnderflow)
            &&& result.deleted_count >= 0 ==> r == Ok::<usize, Error>(
                result.deleted_count as usize,
            )
        },
{
    match &result.write_exception {
        Some(e) => Err(write_failure(e, "couldn't delete documents")),
        None => count_from_raw(result.deleted_count as i64),
    }
}

/// The key under which a document stores its identifier.
pub open spec fn id_key() -> Seq<char> {
    "_id"@
}

/// The entries of a filter that matches the document whose identifier is `id`.
pub open spec fn id_filter_fields(id: Bson) -> Map<Seq<char>, Bson> {
    no_fields().insert(id_key(), id)
}

/// Converts the store's result of a single-document insertion into the
/// identifier of the inserted document, decoded by `decode`. An embedded write
/// exception is an error; so is a missing identifier.
pub fn inserted_one<Id, F: FnOnce(Bson) -> Result<Id>>(result: InsertOneResult, decode: F) -> (r:
    Result<Id>)
    requires
        forall|b: Bson| decode.requires((b,)),
    ensures
        result.write_exception is Some ==> fails_with(r, ErrorKind::MongoDbWriteException),
        result.write_exception is None && result.inserted_id is None ==> fails_with(
            r,
            ErrorKind::MissingId,
        ),
        result.write_exception is None ==> (result.inserted_id matches Some(b) ==> decode.ensures(
            (b,),
            r,
        )),
{
    let InsertOneResult { acknowledged: _, inserted_id, write_exception } = result;
    match write_exception {
        Some(e) => Err(write_failure(&e, "couldn't insert document")),
        None => match inserted_id {
            Some(b) => decode(b),
            None => Err(
                Error::new(ErrorKind::MissingId, String::from_str("missing `inserted_id`")),
            ),
        },
    }
}

/// The identifier that an upsert reports: the `_id` of the reported embedded
/// document. It is an error if the report is not a document, or has no `_id`.
fn upserted_raw_id(b: Bson) -> (r: Result<Bson>)
    ensures
        bson_type(b) != ElementType::EmbeddedDocument ==> fails_with(r, ErrorKind::BsonDecoding),
        bson_type(b) == ElementType::EmbeddedDocument ==> match embedded_field(b, id_key()) {
            Some(v) => r == Ok::<Bson, Error>(v),
            None => fails_with(r, ErrorKind::MissingId),
        },
{
    match take_embedded(b) {
        Ok(mut doc) => {
            proof {
                assert(bson_of_doc(doc) == b);
                let c = choose|d: OrderedDocument| bson_of_doc(d) == b;
                assert(doc_fields(c) == doc_fields(doc));
            }
            match doc.remove("_id") {
                Some(v) => Ok(v),
                None => Err(
                    Error::new(
                        ErrorKind::MissingId,
                        String::from_str("no `_id` found in the upserted document"),
                    ),
                ),
            }
        },
        Err(_) => Err(
            Error::new(ErrorKind::BsonDecoding, String::from_str("upserted ID is not a document")),
        ),
    }
}

impl<Id> UpsertOneResult<Id> {
    /// Converts the store's result of a single-document upsert. An embedded
    /// write exception is an error, whatever else was reported. Otherwise the
    /// identifier of an inserted document is taken from the report and decoded
    /// by `decode`.
    pub fn from_raw<F: FnOnce(Bson) -> Result<Id>>(result: UpdateResult, decode: F) -> (r: Result<
        UpsertOneResult<Id>,
    >)
        requires
            forall|b: Bson| decode.requires((b,)),
        ensures
            result.write_exception is Some ==> fails_with(r, ErrorKind::MongoDbWriteException),
            result.write_exception is None ==> (result.upserted_id is None ==> r == Ok::<
                UpsertOneResult<Id>,
                Error,
            >(
                UpsertOneResult {
                    matched: result.matched_count > 0,
                    modified: result.modified_count > 0,
                    upserted_id: None,
                },
            )),
            result.write_exception is None ==> (result.upserted_id matches Some(b) ==> (bson_type(b)
                != ElementType::EmbeddedDocument ==> fails_with(r, ErrorKind::BsonDecoding))),
            result.write_exception is None ==> (result.upserted_id matches Some(b) ==> (bson_type(b)
                == ElementType::EmbeddedDocument ==> (embedded_field(b, id_key()) is None
                ==> fails_with(r, ErrorKind::MissingId)))),
            result.write_exception is None ==> (result.upserted_id matches Some(b) ==> (bson_type(b)
                == ElementType::EmbeddedDocument ==> (embedded_field(b, id_key()) matches Some(v)
                ==> exists|d: Result<Id>| #[trigger] decode.ensures((v,), d) && upsert_outcome(
                result,
                d,
                r,
            )))),
    {
        let matched = result.matched_count > 0;
        let modified = result.modified_count > 0;
        let UpdateResult {
            acknowledged: _,
            matched_count: _,
            modified_count: _,
            upserted_id,
            write_exception,
        } = result;
        if let Some(e) = write_exception {
            return Err(write_failure(&e, "couldn't perform single upsert"));
        }
        let upserted_id = match upserted_id {
            Some(b) => {
                let raw = upserted_raw_id(b)?;
                let decoded = decode(raw);
                proof {
                    assert(decode.ensures((raw,), decoded));
                }
                Some(decoded?)
            },
            None => None,
        };
        Ok(UpsertOneResult { matched, modified, upserted_id })
    }
}

/// What an upsert without a write exception, whose reported identifier decoded
/// to `d`, returns.
pub open spec fn upsert_outcome<Id>(
    result: UpdateResult,
    d: Result<Id>,
    r: Result<UpsertOneResult<Id>>,
) -> bool {
    match d {
        Err(e) => r == Err::<UpsertOneResult<Id>, Error>(e),
        Ok(id) => r == Ok::<UpsertOneResult<Id>, Error>(
            UpsertOneResult {
                matched: result.matched_count > 0,
                modified: result.modified_count > 0,
                upserted_id: Some(id),
            },
        ),
    }
}

/// A filter that matches the document whose identifier is `id`.
pub fn id_filter(id: Bson) -> (r: OrderedDocument)
    ensures
        doc_fields(r) == id_filter_fields(id),
{
    let mut filter = OrderedDocument::new();
    filter.insert_bson(String::from_str("_id"), id);
    filter
}

/// Splits the serialized form of an entity into a filter matching its
/// identifier and the rest of its fields, which replace the stored document.
/// An entity without an identifier cannot be matched: `MissingId`.
pub fn identity_split(entity: OrderedDocument) -> (r: Result<(OrderedDocument, OrderedDocument)>)
    ensures
        !doc_fields(entity).contains_key(id_key()) ==> fails_with(r, ErrorKind::MissingId),
        doc_fields(entity).contains_key(id_key()) ==> (r matches Ok(p) && doc_fields(p.0)
            == id_filter_fields(doc_fields(entity)[id_key()]) && doc_fields(p.1) == doc_fields(
            entity,
        ).remove(id_key())),
{
    let mut document = entity;
    match document.remove("_id") {
        Some(id) => Ok((id_filter(id), document)),
        None => Err(
            Error::new(ErrorKind::MissingId, String::from_str("no `_id` in the entity")),
        ),
    }
}

/// The filter that deletes an entity by identity, from its serialized
/// identifier; an entity without one cannot be deleted: `MissingId`.
pub fn entity_filter(id: Option<Bson>) -> (r: Result<OrderedDocument>)
    ensures
        id is None ==> fails_with(r, ErrorKind::MissingId),
        id matches Some(v) ==> (r matches Ok(f) && doc_fields(f) == id_filter_fields(v)),
{
    match id {
        Some(v) => Ok(id_filter(v)),
        None => Err(Error::new(ErrorKind::MissingId, String::from_str("no `_id` in the entity"))),
    }
}

/// Write options that update (`upsert == false`) or upsert (`upsert == true`)
/// with the given write concern, whatever the operation's own options say.
pub fn write_options(upsert: bool, write_concern: WriteConcern) -> (r: UpdateOptions)
    ensures
        r.upsert == Some(upsert),
        r.write_concern == Some(write_concern),
{
    UpdateOptions { upsert: Some(upsert), write_concern: Some(write_concern) }
}

/// Options of an atomic find-and-delete, taken from a query's options: its
/// time limit, projection and sort, and no write concern.
pub fn find_delete_options(query: FindOptions) -> (r: FindOneAndDeleteOptions)
    ensures
        r.max_time_ms == query.max_time_ms,
        r.projection == query.projection,
        r.sort == query.sort,
        r.write_concern is None,
{
    FindOneAndDeleteOptions {
        max_time_ms: query.max_time_ms,
        projection: query.projection,
        sort: query.sort,
        write_concern: None,
    }
}

/// Options of an atomic find-and-replace, taken from a query's options: its
/// time limit, projection and sort. The document as it was before the
/// replacement is returned, and nothing is inserted when nothing matches.
pub fn find_replace_options(query: FindOptions) -> (r: FindOneAndUpdateOptions)
    ensures
        r.return_document == Some(ReturnDocument::Before),
        r.upsert == Some(false),
        r.max_time_ms == query.max_time_ms,
        r.projection == query.projection,
        r.sort == query.sort,
        r.write_concern is None,
{
    FindOneAndUpdateOptions {
        return_document: Some(ReturnDocument::Before),
        max_time_ms: query.max_time_ms,
        projection: query.projection,
        sort: query.sort,
        upsert: Some(false),
        write_concern: None,
    }
}

/// What the store reported for one position of a bulk insertion: the decoded
/// identifier, or the raw value where it could not be decoded.
pub type ReportedId<T> = core::result::Result<Uid<T>, Bson>;

/// The context attached to a failed bulk insertion: for each position of the
/// input that the store reported an identifier for, that identifier, decoded
/// where possible.
pub struct InsertManyErrorContext<T: Doc> {
    pub ids: BTreeMap<u64, ReportedId<T>>,
}

/// A failed bulk insertion: the error, and the identifiers of the documents
/// that were inserted nonetheless, where the store was asked at all.
pub struct InsertManyError<T: Doc> {
    pub error: Error,
    pub context: Option<InsertManyErrorContext<T>>,
}

/// The position that an entry reports, as an index into the input.
pub open spec fn pos<V>(p: (i64, V)) -> u64 {
    p.0 as u64
}

/// Whether every position that `ids` reports is an index, not negative.
pub open spec fn nonnegative_positions<V>(ids: Seq<(i64, V)>) -> bool {
    forall|i: int| 0 <= i < ids.len() ==> (#[trigger] ids[i]).0 >= 0
}

/// Whether no two entries of `ids` report the same position.
pub open spec fn distinct_positions<V>(ids: Seq<(i64, V)>) -> bool {
    forall|i: int, j: int|
        0 <= i < ids.len() && 0 <= j < ids.len() && i != j ==> #[trigger] ids[i].0 != #[trigger] ids[j].0
}

/// Whether `m` maps exactly the positions of `ids` to what is reported there.
pub open spec fn maps_positions<V>(m: Map<u64, V>, ids: Seq<(i64, V)>) -> bool {
    &&& forall|i: int| 0 <= i < ids.len() ==> m.contains_key(#[trigger] pos(ids[i])) && m[pos(ids[i])] == ids[i].1
    &&& forall|k: u64| #[trigger] m.contains_key(k) ==> exists|i: int| 0 <= i < ids.len() && pos(ids[i]) == k
}

/// Whether every reported identifier was decoded.
pub open spec fn all_decoded<T: Doc>(ids: Seq<(i64, ReportedId<T>)>) -> bool {
    forall|i: int| 0 <= i < ids.len() ==> (#[trigger] ids[i]).1 is Ok
}

/// Whether `m` maps exactly the positions of `ids` to the decoded identifiers.
pub open spec fn maps_decoded<T: Doc>(m: Map<u64, Uid<T>>, ids: Seq<(i64, ReportedId<T>)>) -> bool {
    &&& forall|i: int| 0 <= i < ids.len() ==> m.contains_key(#[trigger] pos(ids[i])) && ids[i].1 == Ok::<Uid<T>, Bson>(m[pos(ids[i])])
    &&& forall|k: u64| #[trigger] m.contains_key(k) ==> exists|i: int| 0 <= i < ids.len() && pos(ids[i]) == k
}

/// Whether `r` is the failure of a bulk insertion with the given kind, whose
/// context maps exactly the reported positions.
pub open spec fn fails_with_context<T: Doc, V>(
    r: core::result::Result<V, InsertManyError<T>>,
    kind: ErrorKind,
    ids: Seq<(i64, ReportedId<T>)>,
) -> bool {
    match r {
        Err(e) => e.error.kind == kind && (e.context matches Some(c) && maps_positions(c.ids@, ids)),
        Ok(_) => false,
    }
}

/// The outcome of a bulk insertion of no documents: success with no
/// identifiers, without asking the store (which rejects empty insertions).
/// `None` when there are documents, which must be sent to the store.
pub fn insert_many_trivial<T: Doc>(n_docs: usize) -> (r: Option<BTreeMap<u64, Uid<T>>>)
    ensures
        r is Some <==> n_docs == 0,
        r matches Some(m) ==> m@ == Map::<u64, Uid<T>>::empty(),
{
    if n_docs == 0 {
        Some(BTreeMap::new())
    } else {
        None
    }
}

/// Collects what the store reported for each position.
fn collect_reported<T: Doc>(ids: Vec<(i64, ReportedId<T>)>) -> (m: BTreeMap<u64, ReportedId<T>>)
    requires
        distinct_positions(ids@),
        nonnegative_positions(ids@),
    ensures
        maps_positions(m@, ids@),
{
    broadcast use vstd::std_specs::btree::group_btree_axioms;
    let ghost all = ids@;
    let mut rest = ids;
    let mut m: BTreeMap<u64, ReportedId<T>> = BTreeMap::new();
    while rest.len() > 0
        invariant
            rest@ == all.subrange(0, rest@.len() as int),
            rest@.len() <= all.len(),
            distinct_positions(all),
            nonnegative_positions(all),
            forall|i: int| rest@.len() <= i < all.len() ==> m@.contains_key(#[trigger] pos(all[i])) && m@[pos(all[i])] == all[i].1,
            forall|k: u64| #[trigger] m@.contains_key(k) ==> exists|i: int| rest@.len() <= i < all.len() && pos(all[i]) == k,
        decreases rest@.len(),
    {
        let ghost n = rest@.len() - 1;
        let ghost before = m@;
        let (position, reported) = rest.pop().unwrap();
        assert(all[n] == (position, reported));
        m.insert(position as u64, reported);
        assert forall|i: int| rest@.len() <= i < all.len() implies m@.contains_key(#[trigger] pos(all[i])) && m@[pos(all[i])] == all[i].1 by {
            if i != n {
                assert(all[i].0 != all[n].0);
            }
        }
        assert forall|k: u64| #[trigger] m@.contains_key(k) implies exists|i: int| rest@.len() <= i < all.len() && pos(all[i]) == k by {
            if k != position as u64 {
                assert(before.contains_key(k));
            } else {
                assert(pos(all[n]) == k);
            }
        }
    }
    m
}

/// Collects the decoded identifier of each position.
fn collect_decoded<T: Doc>(ids: Vec<(i64, ReportedId<T>)>) -> (m: BTreeMap<u64, Uid<T>>)
    requires
        distinct_positions(ids@),
        nonnegative_positions(ids@),
        all_decoded(ids@),
    ensures
        maps_decoded(m@, ids@),
{
    broadcast use vstd::std_specs::btree::group_btree_axioms;
    let ghost all = ids@;
    let mut rest = ids;
    let mut m: BTreeMap<u64, Uid<T>> = BTreeMap::new();
    while rest.len() > 0
        invariant
            rest@ == all.subrange(0, rest@.len() as int),
            rest@.len() <= all.len(),
            distinct_positions(all),
            nonnegative_positions(all),
            all_decoded(all),
            forall|i: int| rest@.len() <= i < all.len() ==> m@.contains_key(#[trigger] pos(all[i])) && all[i].1 == Ok::<Uid<T>, Bson>(m@[pos(all[i])]),
            forall|k: u64| #[trigger] m@.contains_key(k) ==> exists|i: int| rest@.len() <= i < all.len() && pos(all[i]) == k,
        decreases rest@.len(),
    {
        let ghost n = rest@.len() - 1;
        let ghost before = m@;
        let (position, reported) = rest.pop().unwrap();
        assert(all[n] == (position, reported));
        match reported {
            Ok(id) => {
                m.insert(position as u64, id);
            },
            Err(_) => {
                assert(all[n].1 is Ok);
            },
        }
        assert forall|i: int| rest@.len() <= i < all.len() implies m@.contains_key(#[trigger] pos(all[i])) && all[i].1 == Ok::<Uid<T>, Bson>(m@[pos(all[i])]) by {
            if i != n {
                assert(all[i].0 != all[n].0);
            }
        }
        assert forall|k: u64| #[trigger] m@.contains_key(k) implies exists|i: int| rest@.len() <= i < all.len() && pos(all[i]) == k by {
            if k != position as u64 {
                assert(before.contains_key(k));
            } else {
                assert(pos(all[n]) == k);
            }
        }
    }
    m
}

/// Whether every reported identifier was decoded, computed.
fn check_decoded<T: Doc>(ids: &Vec<(i64, ReportedId<T>)>) -> (r: bool)
    ensures
        r == all_decoded(ids@),
{
    let mut i: usize = 0;
    while i < ids.len()
        invariant
            i <= ids@.len(),
            forall|j: int| 0 <= j < i ==> (#[trigger] ids@[j]).1 is Ok,
        decreases ids@.len() - i,
    {
        if ids[i].1.is_err() {
            return false;
        }
        i = i + 1;
    }
    true
}

/// Whether every reported position is an index, computed.
fn check_positions<T: Doc>(ids: &Vec<(i64, ReportedId<T>)>) -> (r: bool)
    ensures
        r == nonnegative_positions(ids@),
{
    let mut i: usize = 0;
    while i < ids.len()
        invariant
            i <= ids@.len(),
            forall|j: int| 0 <= j < i ==> (#[trigger] ids@[j]).0 >= 0,
        decreases ids@.len() - i,
    {
        if ids[i].0 < 0 {
            return false;
        }
        i = i + 1;
    }
    true
}

/// Whether `r` is the failure of a bulk insertion whose report could not be
/// read at all: it gave a negative position. No context is attached.
pub open spec fn fails_on_position<T: Doc, V>(r: core::result::Result<V, InsertManyError<T>>) -> bool {
    match r {
        Err(e) => e.error.kind == ErrorKind::IntConversionUnderflow && e.context is None,
        Ok(_) => false,
    }
}

/// Converts the store's result of a bulk insertion of `n_docs > 0` documents:
/// the identifier reported for each position (`ids`, decoded where possible)
/// and the embedded bulk write exception, if any.
///
/// A negative position makes the report unreadable and fails the call first.
/// Otherwise an exception fails the call; so does a number of identifiers other than
/// `n_docs`, and an identifier that could not be decoded. Every failure
/// carries, as context, all the identifiers that were reported.
pub fn insert_many_outcome<T: Doc>(
    n_docs: usize,
    ids: Vec<(i64, ReportedId<T>)>,
    exception: Option<BulkWriteException>,
) -> (r: core::result::Result<BTreeMap<u64, Uid<T>>, InsertManyError<T>>)
    requires
        distinct_positions(ids@),
    ensures
        !nonnegative_positions(ids@) ==> fails_on_position(r),
        nonnegative_positions(ids@) && exception is Some ==> fails_with_context(
            r,
            ErrorKind::MongoDbBulkWriteException,
            ids@,
        ),
        nonnegative_positions(ids@) && exception is None && ids@.len() != n_docs ==> fails_with_context(
            r,
            ErrorKind::MissingId,
            ids@,
        ),
        nonnegative_positions(ids@) && exception is None && ids@.len() == n_docs && !all_decoded(
            ids@,
        ) ==> fails_with_context(
            r,
            ErrorKind::BsonDecoding,
            ids@,
        ),
        nonnegative_positions(ids@) && exception is None && ids@.len() == n_docs && all_decoded(ids@)
            ==> (r matches Ok(m) && maps_decoded(m@, ids@)),
{
    if !check_positions(&ids) {
        let error = Error::new(
            ErrorKind::IntConversionUnderflow,
            String::from_str("negative position reported for an inserted ID"),
        );
        return Err(InsertManyError { error, context: None });
    }
    match exception {
        Some(e) => {
            let error = Error::new(
                ErrorKind::MongoDbBulkWriteException,
                describe_bulk_write_exception(&e),
            );
            let context = InsertManyErrorContext { ids: collect_reported(ids) };
            Err(InsertManyError { error, context: Some(context) })
        },
        None => {
            if ids.len() != n_docs {
                let error = Error::new(
                    ErrorKind::MissingId,
                    String::from_str("the number of returned IDs differs from that of the documents"),
                );
                let context = InsertManyErrorContext { ids: collect_reported(ids) };
                Err(InsertManyError { error, context: Some(context) })
            } else if check_decoded(&ids) {
                Ok(collect_decoded(ids))
            } else {
                let error = Error::new(
                    ErrorKind::BsonDecoding,
                    String::from_str("can't deserialize some IDs"),
                );
                let context = InsertManyErrorContext { ids: collect_reported(ids) };
                Err(InsertManyError { error, context: Some(context) })
            }
        },
    }
}

/// The identifiers of a sequence of entities, each known to be present.
pub open spec fn present_ids(ids: Seq<Option<Bson>>) -> Seq<Bson> {
    ids.map_values(|o: Option<Bson>| o->0)
}

/// The entries of a filter matching every document whose identifier is one of
/// `ids`: `{ "_id": { "$in": ids } }`.
pub open spec fn ids_filter_fields(ids: Seq<Bson>, inner: OrderedDocument) -> bool {
    doc_fields(inner) == no_fields().insert("$in"@, bson_of_array(ids))
}

/// The filter that deletes entities by identity, from their serialized
/// identifiers. If any entity has no identifier, nothing can be deleted:
/// `MissingId`.
pub fn entities_filter(ids: Vec<Option<Bson>>) -> (r: Result<OrderedDocument>)
    ensures
        (exists|i: int| 0 <= i < ids@.len() && ids@[i] is None) ==> fails_with(
            r,
            ErrorKind::MissingId,
        ),
        (forall|i: int| 0 <= i < ids@.len() ==> ids@[i] is Some) ==> (r matches Ok(f) && exists|
            inner: OrderedDocument,
        |
            doc_fields(f) == id_filter_fields(bson_of_doc(inner)) && ids_filter_fields(
                present_ids(ids@),
                inner,
            )),
{
    let mut present: Vec<Bson> = Vec::new();
    let mut i: usize = 0;
    while i < ids.len()
        invariant
            i <= ids@.len(),
            present@.len() == i,
            forall|j: int| 0 <= j < i ==> (#[trigger] ids@[j]) is Some && present@[j] == ids@[j]->0,
        decreases ids@.len() - i,
    {
        match &ids[i] {
            Some(v) => {
                let c = v.clone();
                assert(ids@[i as int] == Some(c));
                present.push(c);
            },
            None => {
                return Err(
                    Error::new(ErrorKind::MissingId, String::from_str("no `_id` in entity to delete")),
                );
            },
        }
        i = i + 1;
    }
    proof {
        assert(present@ =~= present_ids(ids@));
    }
    let mut inner = OrderedDocument::new();
    inner.insert_bson(String::from_str("$in"), Bson::from(present));
    let filter = id_filter(Bson::from(inner));
    proof {
        assert(ids_filter_fields(present_ids(ids@), inner));
        assert(doc_fields(filter) == id_filter_fields(bson_of_doc(inner)));
    }
    Ok(filter)
}

/// Decodes each of `values` with `decode`. The first failure fails the whole:
/// there are no partial results.
pub fn decode_all<O, F: Fn(Bson) -> Result<O>>(values: Vec<Bson>, decode: F) -> (r: Result<Vec<O>>)
    requires
        forall|b: Bson| decode.requires((b,)),
    ensures
        r matches Ok(out) ==> out@.len() == values@.len() && forall|i: int|
            0 <= i < values@.len() ==> decode.ensures((values@[i],), Ok::<O, Error>(#[trigger] out@[i])),
        r matches Err(e) ==> exists|i: int|
            0 <= i < values@.len() && decode.ensures((#[trigger] values@[i],), Err::<O, Error>(e)),
{
    let mut out: Vec<O> = Vec::new();
    let mut i: usize = 0;
    while i < values.len()
        invariant
            i <= values@.len(),
            out@.len() == i,
            forall|b: Bson| decode.requires((b,)),
            forall|j: int| 0 <= j < i ==> decode.ensures((values@[j],), Ok::<O, Error>(#[trigger] out@[j])),
        decreases values@.len() - i,
    {
        let v = values[i].clone();
        let decoded = decode(v);
        match decoded {
            Ok(o) => {
                out.push(o);
            },
            Err(e) => {
                assert(decode.ensures((values@[i as int],), Err::<O, Error>(e)));
                return Err(e);
            },
        }
        i = i + 1;
    }
    Ok(out)
}

/// Transforms and decodes the document an operation found, if any. Finding
/// nothing is no error.
pub fn transform_found<O, X: FnOnce(OrderedDocument) -> Result<Bson>, F: FnOnce(Bson) -> Result<O>>(
    found: Option<OrderedDocument>,
    transform: X,
    decode: F,
) -> (r: Result<Option<O>>)
    requires
        forall|d: OrderedDocument| transform.requires((d,)),
        forall|b: Bson| decode.requires((b,)),
    ensures
        found is None ==> r == Ok::<Option<O>, Error>(None),
        found matches Some(d) ==> exists|t: Result<Bson>|
            #[trigger] transform.ensures((d,), t) && found_outcome(t, decode, r),
{
    match found {
        None => Ok(None),
        Some(d) => {
            let t = transform(d);
            proof {
                assert(transform.ensures((d,), t));
            }
            match t {
                Err(e) => Err(e),
                Ok(b) => {
                    let o = decode(b);
                    proof {
                        assert(decode.ensures((b,), o));
                    }
                    match o {
                        Ok(v) => Ok(Some(v)),
                        Err(e) => Err(e),
                    }
                },
            }
        },
    }
}

/// What a found document transformed to `t` becomes once decoded by `decode`.
pub open spec fn found_outcome<O, F: FnOnce(Bson) -> Result<O>>(
    t: Result<Bson>,
    decode: F,
    r: Result<Option<O>>,
) -> bool {
    match t {
        Err(e) => r == Err::<Option<O>, Error>(e),
        Ok(b) => exists|o: Result<O>|
            #[trigger] decode.ensures((b,), o) && match o {
                Ok(v) => r == Ok::<Option<O>, Error>(Some(v)),
                Err(e) => r == Err::<Option<O>, Error>(e),
            },
    }
}

/// The positions that `ids` reports.
pub open spec fn reported_positions<V>(ids: Seq<(i64, V)>) -> Seq<u64> {
    ids.map_values(|p: (i64, V)| pos(p))
}

/// A bulk insertion of `n` documents that all succeed yields exactly `n`
/// identifiers, one for each position that the store reported, each the
/// decoded identifier reported there.
pub proof fn lemma_insert_many_complete<T: Doc>(
    n: usize,
    ids: Seq<(i64, ReportedId<T>)>,
    m: Map<u64, Uid<T>>,
)
    requires
        distinct_positions(ids),
        nonnegative_positions(ids),
        ids.len() == n,
        all_decoded(ids),
        maps_decoded(m, ids),
    ensures
        m.dom() == reported_positions(ids).to_set(),
        m.len() == n,
        forall|i: int| 0 <= i < n ==> #[trigger] ids[i].1 == Ok::<Uid<T>, Bson>(m[pos(ids[i])]),
{
    let ps = reported_positions(ids);
    assert forall|k: u64| m.dom().contains(k) <==> ps.to_set().contains(k) by {
        if m.contains_key(k) {
            let i = choose|i: int| 0 <= i < ids.len() && pos(ids[i]) == k;
            assert(ps[i] == k);
        }
        if ps.to_set().contains(k) {
            let i = choose|i: int| 0 <= i < ps.len() && ps[i] == k;
            assert(m.contains_key(pos(ids[i])));
        }
    }
    assert(m.dom() =~= ps.to_set());
    assert(ps.no_duplicates()) by {
        assert forall|i: int, j: int| 0 <= i < ps.len() && 0 <= j < ps.len() && i != j implies ps[i] != ps[j] by {
            assert(ids[i].0 != ids[j].0);
            assert(ids[i].0 >= 0 && ids[j].0 >= 0);
        }
    }
    ps.unique_seq_to_set();
}

} // verus!
