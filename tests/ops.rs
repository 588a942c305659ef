use avocado::doc::Doc;
use avocado::error::{Error, ErrorKind};
use avocado::ops::{
    document_transform, empty_filter, value_transform, Count, Delete, Distinct, FindAndUpdate, Pipeline,
    Query, Update,
};
use avocado::uid::Uid;
use bson::{Bson, Document};
use mongodb::common::WriteConcern;

#[derive(Debug)]
struct Note {
    id: Option<Uid<Note>>,
}

impl Doc for Note {
    type Id = i32;
    const NAME: &'static str = "Note";

    fn id(&self) -> Option<&Uid<Self>> {
        self.id.as_ref()
    }

    fn set_id(&mut self, id: Uid<Self>) {
        self.id = Some(id);
    }

    fn update_options() -> WriteConcern {
        WriteConcern { w: 2, w_timeout: 100, j: true, fsync: false }
    }
}

#[derive(Debug)]
struct AllNotes;

impl Count<Note> for AllNotes {}

impl Query<Note> for AllNotes {
    type Output = Note;
}

#[derive(Debug)]
struct Touch;

impl Update<Note> for Touch {
    fn filter(&self) -> Document {
        let mut f = Document::new();
        f.insert("_id", 1_i32);
        f
    }

    fn update(&self) -> Document {
        let mut u = Document::new();
        let mut set = Document::new();
        set.insert("seen", true);
        u.insert("$set", set);
        u
    }
}

#[derive(Debug)]
struct Stages;

impl Pipeline<Note> for Stages {
    type Output = Document;

    fn stages(&self) -> Vec<Document> {
        vec![Document::new()]
    }
}

#[derive(Debug)]
struct Flip;

impl FindAndUpdate<Note> for Flip {
    type Output = Note;

    fn filter(&self) -> Document {
        Document::new()
    }

    fn update(&self) -> Document {
        Document::new()
    }

    fn transform(_raw: Document) -> Result<Bson, Error> {
        Err(Error::new(ErrorKind::MissingDocumentField, String::from("nothing to flip")))
    }
}

#[test]
fn default_filters_are_empty() {
    assert!(Count::<Note>::filter(&AllNotes).is_empty());
    assert!(Query::<Note>::filter(&AllNotes).is_empty());
}

#[test]
fn a_document_is_its_own_filter() {
    let mut d = Document::new();
    d.insert("name", "todo");
    assert_eq!(Count::<Note>::filter(&d), d);
    assert_eq!(Query::<Note>::filter(&d), d);
    assert_eq!(Delete::<Note>::filter(&d), d);
}

#[test]
fn references_forward_unchanged() {
    let t = Touch;
    let r = &t;
    assert_eq!(Update::<Note>::filter(&r), t.filter());
    assert_eq!(Update::<Note>::update(&r), t.update());
    assert_eq!(Update::<Note>::options(&r), t.options());
    assert_eq!(Pipeline::<Note>::stages(&&Stages).len(), 1);
}

#[test]
fn options_default_to_the_document_type() {
    let wc = Update::<Note>::options(&Touch);
    assert_eq!(wc, WriteConcern { w: 2, w_timeout: 100, j: true, fsync: false });
    let mut d = Document::new();
    d.insert("_id", 1_i32);
    assert_eq!(Delete::<Note>::options(&d), WriteConcern::default());
    assert!(Note::indexes().is_empty());
}

#[test]
fn default_transform_wraps_the_document() {
    let mut d = Document::new();
    d.insert("k", 1_i32);
    assert_eq!(<AllNotes as Query<Note>>::transform(d.clone()).unwrap(), Bson::Document(d.clone()));
    assert_eq!(<Stages as Pipeline<Note>>::transform(d.clone()).unwrap(), Bson::Document(d.clone()));
    assert_eq!(<Flip as FindAndUpdate<Note>>::transform(d).unwrap_err().kind(), ErrorKind::MissingDocumentField);
}

#[derive(Debug)]
struct Titles;

impl Distinct<Note> for Titles {
    type Output = String;
    const FIELD: &'static str = "title";
}

#[test]
fn default_helpers() {
    assert!(empty_filter().is_empty());
    let mut d = Document::new();
    d.insert("k", 2_i32);
    assert_eq!(document_transform(d.clone()).unwrap(), Bson::Document(d));
    assert_eq!(value_transform(Bson::I32(5)).unwrap(), Bson::I32(5));
    assert_eq!(<Titles as Distinct<Note>>::transform(Bson::from("x")).unwrap(), Bson::from("x"));
    assert!(Distinct::<Note>::filter(&Titles).is_empty());
    assert_eq!(<&Titles as Distinct<Note>>::FIELD, "title");
}
