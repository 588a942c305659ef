use avocado::error::{Error, ErrorKind};
use avocado::ext::DocumentExt;
use bson::oid::ObjectId;
use bson::spec::BinarySubtype;
use bson::{Bson, Document};

fn sample_document() -> Document {
    let mut document_value = Document::new();
    document_value.insert("foo", "bar");
    document_value.insert("qux", Bson::Array(vec![Bson::I32(0)]));

    let mut inner_document = Document::new();
    inner_document.insert("value", 137_i32);
    let mut outer_document = Document::new();
    outer_document.insert("inner_document", inner_document);

    let mut key_value = Document::new();
    key_value.insert("key", "value");

    let mut d = Document::new();
    d.insert("string_value", "whatever");
    d.insert("i32_value", 42_i32);
    d.insert("i64_value", 1337_i64);
    d.insert("f64_value", 3.1415926536_f64);
    d.insert("bool_value", true);
    d.insert("null_value", Bson::Null);
    d.insert("oid_value", ObjectId::new().unwrap());
    d.insert("document_value", document_value);
    d.insert("outer_document", outer_document);
    d.insert(
        "array_value",
        Bson::Array(vec![
            Bson::FloatingPoint(-0.00729735257),
            Bson::from("stuff"),
            Bson::Array(vec![]),
            Bson::Document(key_value),
        ]),
    );
    d.insert("number_value", 2.718281829_f64);
    d
}

#[test]
fn document_ext_works() -> Result<(), Error> {
    let mut d = sample_document();

    assert_eq!(d.remove_i64("i32_value").unwrap_err().kind(), ErrorKind::IllTypedDocumentField);
    assert_eq!(d.remove_i32("bool_value").unwrap_err().kind(), ErrorKind::IllTypedDocumentField);
    assert_eq!(d.remove_array("document_value").unwrap_err().kind(), ErrorKind::IllTypedDocumentField);
    assert_eq!(d.remove_document("oid_value").unwrap_err().kind(), ErrorKind::IllTypedDocumentField);

    assert_eq!(d.try_remove("null_value").expect("Error removing null value."), Bson::Null);
    assert_eq!(d.try_remove("null_value").unwrap_err().kind(), ErrorKind::MissingDocumentField);
    assert_eq!(d.try_remove("bogus_value").unwrap_err().kind(), ErrorKind::MissingDocumentField);

    assert_eq!(
        d.remove_number("number_value").expect("Error removing number value."),
        Bson::FloatingPoint(2.718281829)
    );
    assert_eq!(d.remove_i32("i32_value").expect("Error removing i32 value."), Bson::I32(42));
    assert_eq!(d.remove_i64("i64_value").expect("Error removing i64 value."), Bson::I64(1337));

    let mut key_value = Document::new();
    key_value.insert("key", "value");
    assert_eq!(
        d.remove_array("array_value").expect("Error removing array value."),
        Bson::Array(vec![
            Bson::FloatingPoint(-0.00729735257),
            Bson::from("stuff"),
            Bson::Array(vec![]),
            Bson::Document(key_value),
        ])
    );

    let mut expected_document = Document::new();
    expected_document.insert("foo", "bar");
    expected_document.insert("qux", Bson::Array(vec![Bson::I32(0)]));
    assert_eq!(
        d.remove_document("document_value").expect("Error removing document value."),
        Bson::Document(expected_document)
    );
    assert_eq!(d.remove_document("document_value").unwrap_err().kind(), ErrorKind::MissingDocumentField);
    assert_eq!(d.remove_str("string_value").expect("Error removing string value."), Bson::from("whatever"));
    assert_eq!(d.remove_bool("bool_value").expect("Error removing boolean value."), Bson::Boolean(true));
    assert!(d.remove_object_id("oid_value").expect("Error removing OID value.").as_object_id().is_some());

    assert_eq!(
        d.remove_inner_doc("outer_document")?
            .remove_inner_doc("inner_document")?
            .remove_number("value")?,
        Bson::I32(137)
    );

    Ok(())
}

#[test]
fn remove_i32_tells_wrong_type_from_missing_key() {
    let mut d = Document::new();
    d.insert("name", "forty-two");
    let err = d.remove_i32("name").unwrap_err();
    assert_eq!(err.kind(), ErrorKind::IllTypedDocumentField);
    assert!(d.contains_key("name"));
    let err = d.remove_i32("absent").unwrap_err();
    assert_eq!(err.kind(), ErrorKind::MissingDocumentField);
    assert_eq!(d.len(), 1);
}

#[test]
fn successful_removal_takes_the_key_out() {
    let mut d = Document::new();
    d.insert("a", 1_i32);
    d.insert("b", 2_i64);
    assert_eq!(d.remove_i32("a").unwrap(), Bson::I32(1));
    assert!(!d.contains_key("a"));
    assert!(d.contains_key("b"));
    assert_eq!(d.remove_i32("a").unwrap_err().kind(), ErrorKind::MissingDocumentField);
}

#[test]
fn remove_number_accepts_every_numeric_kind() {
    let mut d = Document::new();
    d.insert("i", 7_i32);
    d.insert("l", 8_i64);
    d.insert("f", 0.5_f64);
    d.insert("s", "nine");
    assert_eq!(d.remove_number("i").unwrap(), Bson::I32(7));
    assert_eq!(d.remove_number("l").unwrap(), Bson::I64(8));
    assert_eq!(d.remove_number("f").unwrap(), Bson::FloatingPoint(0.5));
    assert_eq!(d.remove_number("s").unwrap_err().kind(), ErrorKind::IllTypedDocumentField);
    assert!(d.contains_key("s"));
    assert_eq!(d.remove_number("i").unwrap_err().kind(), ErrorKind::MissingDocumentField);
}

#[test]
fn remove_generic_binary_checks_the_subtype() {
    let mut d = Document::new();
    d.insert("generic", Bson::Binary(BinarySubtype::Generic, vec![1, 2, 3]));
    d.insert("md5", Bson::Binary(BinarySubtype::Md5, vec![4, 5]));
    assert_eq!(
        d.remove_generic_binary("generic").unwrap(),
        Bson::Binary(BinarySubtype::Generic, vec![1, 2, 3])
    );
    assert_eq!(d.remove_generic_binary("md5").unwrap_err().kind(), ErrorKind::IllTypedDocumentField);
    assert!(d.contains_key("md5"));
    assert_eq!(d.remove_generic_binary("generic").unwrap_err().kind(), ErrorKind::MissingDocumentField);
}

#[test]
fn remove_timestamp_and_datetime() {
    let mut d = Document::new();
    d.insert("ts", Bson::TimeStamp(99));
    d.insert("n", 99_i64);
    assert_eq!(d.remove_timestamp("ts").unwrap(), Bson::TimeStamp(99));
    assert_eq!(d.remove_timestamp("n").unwrap_err().kind(), ErrorKind::IllTypedDocumentField);
    assert_eq!(d.remove_datetime("n").unwrap_err().kind(), ErrorKind::IllTypedDocumentField);
    assert_eq!(d.remove_datetime("ts").unwrap_err().kind(), ErrorKind::MissingDocumentField);
    assert_eq!(d.remove_f64("n").unwrap_err().kind(), ErrorKind::IllTypedDocumentField);
}

#[test]
fn remove_inner_doc_drops_an_ill_typed_value() {
    let mut d = Document::new();
    d.insert("x", 5_i32);
    assert_eq!(d.remove_inner_doc("x").unwrap_err().kind(), ErrorKind::IllTypedDocumentField);
    assert!(!d.contains_key("x"));
    assert_eq!(d.remove_inner_doc("x").unwrap_err().kind(), ErrorKind::MissingDocumentField);
}
