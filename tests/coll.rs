use avocado::coll::{
    count_from_raw, decode_all, deleted_many, deleted_one, entities_filter, entity_filter,
    find_delete_options, find_replace_options, id_filter, identity_split, insert_many_outcome,
    insert_many_trivial, inserted_one, transform_found, write_options, UpdateManyResult,
    UpdateOneResult, UpsertOneResult,
};
use avocado::doc::Doc;
use avocado::error::{Error, ErrorKind};
use avocado::uid::Uid;
use bson::oid::ObjectId;
use bson::{Bson, Document};
use mongodb::coll::error::{BulkWriteException, WriteError, WriteException};
use mongodb::coll::options::{FindOptions, ReturnDocument};
use mongodb::coll::results::{DeleteResult, InsertOneResult, UpdateResult};
use mongodb::common::WriteConcern;

#[derive(Debug, Clone, PartialEq, PartialOrd)]
struct Item {
    id: Option<Uid<Item>>,
    name: String,
}

impl Doc for Item {
    type Id = i64;
    const NAME: &'static str = "Item";

    fn id(&self) -> Option<&Uid<Self>> {
        self.id.as_ref()
    }

    fn set_id(&mut self, id: Uid<Self>) {
        self.id = Some(id);
    }
}

#[derive(Debug, Clone, PartialEq)]
struct Gadget {
    id: Option<Uid<Gadget>>,
}

impl Doc for Gadget {
    type Id = ObjectId;
    const NAME: &'static str = "Gadget";

    fn id(&self) -> Option<&Uid<Self>> {
        self.id.as_ref()
    }

    fn set_id(&mut self, id: Uid<Self>) {
        self.id = Some(id);
    }
}

fn write_exception() -> WriteException {
    WriteException::new(None, Some(WriteError::new(11000, "duplicate key")))
}

fn bulk_write_exception() -> BulkWriteException {
    BulkWriteException::new(vec![], vec![], vec![], None)
}

fn update_result(matched: i32, modified: i32, upserted: Option<Bson>, failed: bool) -> UpdateResult {
    UpdateResult {
        acknowledged: true,
        matched_count: matched,
        modified_count: modified,
        upserted_id: upserted,
        write_exception: if failed { Some(write_exception()) } else { None },
    }
}

fn decode_i64(b: Bson) -> Result<Uid<Item>, Error> {
    match b {
        Bson::I64(n) => Ok(Uid::new(n)),
        _ => Err(Error::new(ErrorKind::BsonDecoding, String::from("not an i64"))),
    }
}

fn reported(n: i64) -> (i64, Result<Uid<Item>, Bson>) {
    (n, Ok(Uid::new(100 + n)))
}

#[test]
fn insert_many_of_nothing_succeeds_without_the_store() {
    let r = insert_many_trivial::<Item>(0);
    assert!(r.unwrap().is_empty());
    assert!(insert_many_trivial::<Item>(3).is_none());
}

#[test]
fn insert_many_all_succeeding_maps_every_position() {
    let ids = vec![reported(0), reported(1), reported(2)];
    let m = insert_many_outcome::<Item>(3, ids, None).ok().unwrap();
    assert_eq!(m.len(), 3);
    let keys: Vec<u64> = m.keys().cloned().collect();
    assert_eq!(keys, vec![0, 1, 2]);
    assert_eq!(*m[&1].as_raw(), 101);
    assert_eq!(*m[&2].as_raw(), 102);
}

#[test]
fn insert_many_with_write_exception_keeps_the_inserted_ids() {
    let ids = vec![reported(0), reported(1)];
    let e = insert_many_outcome::<Item>(4, ids, Some(bulk_write_exception())).err().unwrap();
    assert_eq!(e.error.kind(), ErrorKind::MongoDbBulkWriteException);
    let context = e.context.unwrap();
    assert_eq!(context.ids.len(), 2);
    assert_eq!(*context.ids[&0].as_ref().ok().unwrap().as_raw(), 100);
    assert_eq!(*context.ids[&1].as_ref().ok().unwrap().as_raw(), 101);
}

#[test]
fn insert_many_with_too_few_ids_is_missing_id() {
    let ids = vec![reported(0), reported(2)];
    let e = insert_many_outcome::<Item>(3, ids, None).err().unwrap();
    assert_eq!(e.error.kind(), ErrorKind::MissingId);
    assert_eq!(e.context.unwrap().ids.len(), 2);
}

#[test]
fn insert_many_with_undecodable_id_is_decoding_failure() {
    let ids = vec![reported(0), (1, Err(Bson::from("junk")))];
    let e = insert_many_outcome::<Item>(2, ids, None).err().unwrap();
    assert_eq!(e.error.kind(), ErrorKind::BsonDecoding);
    let context = e.context.unwrap();
    assert_eq!(context.ids[&1], Err(Bson::from("junk")));
    assert!(context.ids[&0].is_ok());
}

#[test]
fn insert_many_with_negative_position_is_a_typed_error() {
    let ids = vec![reported(0), reported(-1)];
    let e = insert_many_outcome::<Item>(2, ids, Some(bulk_write_exception())).err().unwrap();
    assert_eq!(e.error.kind(), ErrorKind::IntConversionUnderflow);
    assert!(e.context.is_none());
}

#[test]
fn inserted_one_outcomes() {
    let ok = InsertOneResult { acknowledged: true, inserted_id: Some(Bson::I64(5)), write_exception: None };
    assert_eq!(*inserted_one(ok, decode_i64).unwrap().as_raw(), 5);

    let missing = InsertOneResult { acknowledged: true, inserted_id: None, write_exception: None };
    assert_eq!(inserted_one(missing, decode_i64).unwrap_err().kind(), ErrorKind::MissingId);

    let junk = InsertOneResult { acknowledged: true, inserted_id: Some(Bson::from("x")), write_exception: None };
    assert_eq!(inserted_one(junk, decode_i64).unwrap_err().kind(), ErrorKind::BsonDecoding);

    let failed = InsertOneResult {
        acknowledged: true,
        inserted_id: Some(Bson::I64(5)),
        write_exception: Some(write_exception()),
    };
    assert_eq!(inserted_one(failed, decode_i64).unwrap_err().kind(), ErrorKind::MongoDbWriteException);
}

#[test]
fn replace_entity_without_identifier_is_missing_id() {
    let mut entity = Document::new();
    entity.insert("name", "lamp");
    let e = identity_split(entity).unwrap_err();
    assert_eq!(e.kind(), ErrorKind::MissingId);
}

#[test]
fn identity_split_builds_the_identity_filter() {
    let mut entity = Document::new();
    entity.insert("_id", 7_i64);
    entity.insert("name", "lamp");
    let (filter, replacement) = identity_split(entity).unwrap();
    let mut expected_filter = Document::new();
    expected_filter.insert("_id", 7_i64);
    assert_eq!(filter, expected_filter);
    let mut expected_replacement = Document::new();
    expected_replacement.insert("name", "lamp");
    assert_eq!(replacement, expected_replacement);
}

#[test]
fn replace_never_upserts_and_upsert_always_does() {
    let wc = WriteConcern::default();
    let replace = write_options(false, wc.clone());
    assert_eq!(replace.upsert, Some(false));
    assert_eq!(replace.write_concern, Some(wc.clone()));
    let upsert = write_options(true, wc.clone());
    assert_eq!(upsert.upsert, Some(true));
}

#[test]
fn replace_of_absent_document_matches_nothing() {
    let r = UpdateOneResult::from_raw(update_result(0, 0, None, false)).unwrap();
    assert_eq!(r, UpdateOneResult { matched: false, modified: false });
}

#[test]
fn update_one_result_flags() {
    let r = UpdateOneResult::from_raw(update_result(1, 0, None, false)).unwrap();
    assert_eq!(r, UpdateOneResult { matched: true, modified: false });
    let e = UpdateOneResult::from_raw(update_result(1, 1, None, true)).unwrap_err();
    assert_eq!(e.kind(), ErrorKind::MongoDbWriteException);
}

#[test]
fn upsert_reports_the_inserted_identifier() {
    let mut report = Document::new();
    report.insert("index", 0_i32);
    report.insert("_id", 41_i64);
    let r = UpsertOneResult::from_raw(update_result(0, 0, Some(Bson::Document(report)), false), decode_i64)
        .unwrap();
    assert!(!r.matched);
    assert!(!r.modified);
    assert_eq!(*r.upserted_id.unwrap().as_raw(), 41);

    let r = UpsertOneResult::from_raw(update_result(1, 1, None, false), decode_i64).unwrap();
    assert!(r.matched && r.modified && r.upserted_id.is_none());
}

#[test]
fn upsert_report_errors() {
    let e = UpsertOneResult::from_raw(update_result(0, 0, Some(Bson::I32(3)), false), decode_i64)
        .unwrap_err();
    assert_eq!(e.kind(), ErrorKind::BsonDecoding);

    let mut report = Document::new();
    report.insert("index", 0_i32);
    let e = UpsertOneResult::from_raw(update_result(0, 0, Some(Bson::Document(report)), false), decode_i64)
        .unwrap_err();
    assert_eq!(e.kind(), ErrorKind::MissingId);

    let mut report = Document::new();
    report.insert("_id", 41_i64);
    let e = UpsertOneResult::from_raw(update_result(0, 0, Some(Bson::Document(report)), true), decode_i64)
        .unwrap_err();
    assert_eq!(e.kind(), ErrorKind::MongoDbWriteException);
}

#[test]
fn upsert_write_exception_is_never_replaced() {
    let e = UpsertOneResult::from_raw(update_result(0, 0, Some(Bson::I32(3)), true), decode_i64)
        .unwrap_err();
    assert_eq!(e.kind(), ErrorKind::MongoDbWriteException);
    let mut report = Document::new();
    report.insert("index", 0_i32);
    let e = UpsertOneResult::from_raw(update_result(0, 0, Some(Bson::Document(report)), true), decode_i64)
        .unwrap_err();
    assert_eq!(e.kind(), ErrorKind::MongoDbWriteException);
}

#[test]
fn update_many_counts() {
    let r = UpdateManyResult::from_raw(update_result(5, 3, None, false)).unwrap();
    assert_eq!(r, UpdateManyResult { num_matched: 5, num_modified: 3 });
    let e = UpdateManyResult::from_raw(update_result(-1, 0, None, false)).unwrap_err();
    assert_eq!(e.kind(), ErrorKind::IntConversionUnderflow);
    let e = UpdateManyResult::from_raw(update_result(5, 3, None, true)).unwrap_err();
    assert_eq!(e.kind(), ErrorKind::MongoDbWriteException);
}

#[test]
fn delete_entity_of_absent_identifier_returns_false() {
    let result = DeleteResult { acknowledged: true, deleted_count: 0, write_exception: None };
    assert_eq!(deleted_one(result).unwrap(), false);
    let result = DeleteResult { acknowledged: true, deleted_count: 1, write_exception: None };
    assert_eq!(deleted_one(result).unwrap(), true);
    let result = DeleteResult { acknowledged: true, deleted_count: 1, write_exception: Some(write_exception()) };
    assert_eq!(deleted_one(result).unwrap_err().kind(), ErrorKind::MongoDbWriteException);
}

#[test]
fn delete_many_counts() {
    let result = DeleteResult { acknowledged: true, deleted_count: 4, write_exception: None };
    assert_eq!(deleted_many(result).unwrap(), 4);
    let result = DeleteResult { acknowledged: true, deleted_count: -2, write_exception: None };
    assert_eq!(deleted_many(result).unwrap_err().kind(), ErrorKind::IntConversionUnderflow);
}

#[test]
fn count_conversion() {
    assert_eq!(count_from_raw(3).unwrap(), 3);
    assert_eq!(count_from_raw(0).unwrap(), 0);
    assert_eq!(count_from_raw(-1).unwrap_err().kind(), ErrorKind::IntConversionUnderflow);
}

#[test]
fn find_one_and_replace_returns_the_document_before() {
    let mut sort = Document::new();
    sort.insert("name", 1_i32);
    let mut query = FindOptions::new();
    query.max_time_ms = Some(250);
    query.sort = Some(sort.clone());
    let options = find_replace_options(query);
    assert_eq!(options.return_document, Some(ReturnDocument::Before));
    assert_eq!(options.upsert, Some(false));
    assert_eq!(options.max_time_ms, Some(250));
    assert_eq!(options.sort, Some(sort));
    assert!(options.projection.is_none());
    assert!(options.write_concern.is_none());
}

#[test]
fn find_one_and_delete_options_come_from_the_query() {
    let mut projection = Document::new();
    projection.insert("name", 1_i32);
    let mut query = FindOptions::new();
    query.max_time_ms = Some(9);
    query.projection = Some(projection.clone());
    let options = find_delete_options(query);
    assert_eq!(options.max_time_ms, Some(9));
    assert_eq!(options.projection, Some(projection));
    assert!(options.sort.is_none());
    assert!(options.write_concern.is_none());
}

#[test]
fn entity_filters() {
    let mut expected = Document::new();
    expected.insert("_id", 3_i64);
    assert_eq!(id_filter(Bson::I64(3)), expected);
    assert_eq!(entity_filter(Some(Bson::I64(3))).unwrap(), expected);
    assert_eq!(entity_filter(None).unwrap_err().kind(), ErrorKind::MissingId);
}

#[test]
fn entities_filter_matches_all_identifiers() {
    let f = entities_filter(vec![Some(Bson::I64(1)), Some(Bson::I64(2))]).unwrap();
    let mut inner = Document::new();
    inner.insert("$in", Bson::Array(vec![Bson::I64(1), Bson::I64(2)]));
    let mut expected = Document::new();
    expected.insert("_id", inner);
    assert_eq!(f, expected);
    let e = entities_filter(vec![Some(Bson::I64(1)), None]).unwrap_err();
    assert_eq!(e.kind(), ErrorKind::MissingId);
}

#[test]
fn decode_all_fails_as_a_whole() {
    let ok = decode_all(vec![Bson::I64(1), Bson::I64(2)], decode_i64).unwrap();
    assert_eq!(ok.len(), 2);
    assert_eq!(*ok[1].as_raw(), 2);
    let e = decode_all(vec![Bson::I64(1), Bson::from("x")], decode_i64).unwrap_err();
    assert_eq!(e.kind(), ErrorKind::BsonDecoding);
}

#[test]
fn transform_found_handles_absence_and_failure() {
    let none = transform_found(None, |d: Document| Ok(Bson::Document(d)), |b: Bson| Ok::<Bson, Error>(b));
    assert!(none.unwrap().is_none());

    let mut d = Document::new();
    d.insert("_id", 9_i64);
    let id = transform_found(Some(d.clone()), |mut d: Document| Ok(d.remove("_id").unwrap()), decode_i64);
    assert_eq!(*id.unwrap().unwrap().as_raw(), 9);

    let failed = transform_found(
        Some(d),
        |_d: Document| Err::<Bson, Error>(Error::new(ErrorKind::MissingDocumentField, String::from("no"))),
        decode_i64,
    );
    assert_eq!(failed.unwrap_err().kind(), ErrorKind::MissingDocumentField);
}

#[test]
fn uid_wraps_the_raw_value() {
    let uid: Uid<Item> = Uid::new(12);
    assert_eq!(*uid.as_raw(), 12);
    assert_eq!(uid.clone().into_raw(), 12);
    assert!(Uid::<Item>::new(1) < Uid::<Item>::new(2));
    let mut item = Item { id: None, name: String::from("lamp") };
    item.set_id(Uid::new(4));
    assert_eq!(item.id().unwrap().as_raw(), &4);
    assert_eq!(Item::NAME, "Item");
}

#[test]
fn fresh_object_ids_differ() {
    let a = Uid::<Gadget>::new_oid().unwrap();
    let b = Uid::<Gadget>::new_oid().unwrap();
    assert_ne!(a, b);
    let g = Gadget { id: Some(a.clone()) };
    assert_eq!(g.id(), Some(&a));
}

#[test]
fn error_chain_keeps_the_kind() {
    let e = Error::new(ErrorKind::MissingId, String::from("inner")).chain("outer");
    assert_eq!(e.kind(), ErrorKind::MissingId);
    assert_eq!(e.message(), "outer: inner");
    let e = e.chain("error in Item::insert_one()");
    assert_eq!(e.message(), "error in Item::insert_one(): outer: inner");
    assert!(e.message().contains(Item::NAME));
}
