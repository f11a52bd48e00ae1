//! Documentation of declarations, resolved for access at run time.
//!
//! A declaration carries doc comments and, in helper attributes, options
//! that say how its documentation is to be treated. This library reads the
//! options, resolves them over the layers of a declaration, normalises the
//! text of the doc comments, and compiles the names of the members of a type
//! into a lookup table:
//!
//! - [`token`] and [`host`] hold what is taken from the host language: its
//!   tokens, and what its own parser says of a piece of source text;
//! - [`option`] parses option lists, [`customise`] validates and folds them,
//!   [`resolve`] applies them in layers, and [`config`] holds the
//!   configurations of the consumers;
//! - [`text`] normalises doc comments, [`docs`] puts defaults in the place of
//!   missing ones, and [`case`] rewrites names;
//! - [`lookup`] compiles the table from names to positions;
//! - [`model`] and [`util`] describe declarations and read them;
//! - [`attr_impl`], [`derive_impl`], [`macros`] and [`basic`] run the whole
//!   pass for each macro;
//! - [`runtime`], [`error`] and [`message`] hold what a documented type
//!   offers at run time, and the errors of either time with their texts.

pub mod attr_impl;
pub mod basic;
pub mod case;
pub mod config;
pub mod customise;
pub mod derive_impl;
pub mod docs;
pub mod error;
pub mod host;
pub mod lookup;
pub mod macros;
pub mod message;
pub mod model;
pub mod option;
pub mod resolve;
pub mod runtime;
pub mod text;
pub mod token;
pub mod util;

pub use error::Error;
pub use runtime::{
    Documented,
    DocumentedFields,
    DocumentedFieldsOpt,
    DocumentedOpt,
    DocumentedVariants,
    DocumentedVariantsOpt,
};
