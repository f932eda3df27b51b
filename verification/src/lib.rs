//! The decisions of a least-squares regression tool that do not depend on
//! floating-point arithmetic, each with a proved contract:
//!
//! - `dataset`: from the bytes of a delimited file to two columns of paired
//!   observations;
//! - `fit`: whether a sample determines a polynomial of a given degree;
//! - `records`: what is taken for granted of the csv crate.

pub mod dataset;
pub mod fit;
pub mod records;
