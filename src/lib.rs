//! Turns free-text, multi-line postal address blocks into structured records.
//!
//! A raw record holds an identifier and up to six lines of text. The parser
//! takes the title and the name from the head lines, then classifies each
//! further line as a post-office box, a street with house number, a postal
//! code with city, or a complement line. The `sql` module writes the
//! statements that read raw records and store structured ones.

pub mod text;
pub mod patterns;
pub mod address;
pub mod lines;
pub mod parser;
pub mod sql;

pub use address::{UnstructuredAddress, PostalCode, AddressLine, StructuredAddress, ParseError};
pub use patterns::LinePatterns;
pub use text::clean;
