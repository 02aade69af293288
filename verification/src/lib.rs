//! Typed attribute modules read out of an in-memory DICOM data set.
//!
//! A data set maps tags to data elements. A module is a named group of
//! attributes, read from a data set into a plain struct: see [`modules`].
//! How a single attribute is read is in [`helper`], the order in which a
//! module reads its fields and what follows from it in [`rules`], and what
//! is assumed of the data set in [`store`].

pub mod data;
pub mod error;
pub mod helper;
pub mod modules;
pub mod rules;
pub mod store;
pub mod tags;

pub use data::{Float64, Signedness, UsSs, Vr};
pub use error::Error;
