//! Verified core of a web cookie scanner.
//!
//! The library decodes `Set-Cookie` header values into structured cookie
//! records, decides first- versus third-party origin by domain-suffix
//! comparison, classifies each cookie's purpose from its name, and
//! aggregates the records of one scanned URL into a summary. Network I/O,
//! argument handling and output rendering live outside the library.

pub mod cookie_info;
pub mod scanner;
pub mod strutil;
