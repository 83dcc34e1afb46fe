//! Parsing and ordering of Python package version strings.
//!
//! A version string is taken apart by [`PackageVersion::new`] into an epoch, a
//! release pair and the optional pre-release, post-release, developmental and
//! local segments. Versions are then compared, tested for equality and hashed
//! on those segments alone, never on the text they were read from.
//!
//! ```
//! use pyver::PackageVersion;
//!
//! let a = PackageVersion::new("v1.0a2.dev456").unwrap();
//! let b = PackageVersion::new("v1.1a2.dev457").unwrap();
//!
//! assert!(a < b);
//! assert_eq!(a.to_string(), "v1.0a2.dev456");
//! ```
//!
//! A single string is checked against the grammar with
//! [`validate_440_version`]:
//!
//! ```
//! use pyver::validate_440_version;
//!
//! assert!(validate_440_version("1.0").is_ok());
//! ```
//!
//! The string is matched by the `regex` crate. What the engine hands out is
//! checked against the grammar of [`grammar`] before it is used, so that no
//! string outside the grammar is ever read as a version.

pub mod captures;
pub mod error;
pub mod fields;
pub mod grammar;
pub mod ids;
pub mod keywords;
pub mod order;
pub mod text;
pub mod validator;
pub mod version;

pub use captures::CaptureSet;
pub use error::{NumericField, ParseError};
pub use validator::validate_440_version;
pub use version::PackageVersion;
