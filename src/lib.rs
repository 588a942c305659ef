//! A statically-typed object-document mapping layer over MongoDB: document
//! types, operation traits, typed identifiers, typed field extraction, and the
//! verified rules that decide what each collection operation sends to the
//! store and what the store's raw results mean.

pub mod bsn;
pub mod coll;
pub mod doc;
pub mod error;
pub mod ext;
pub mod mongo;
pub mod ops;
pub mod prelude;
pub mod uid;
