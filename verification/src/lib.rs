//! Builds GitHub compare URLs that open a pre-filled pull-request form.
//!
//! Values given explicitly take precedence over the defaults of a local
//! configuration file; the title and the body are percent-encoded, the other
//! fields are embedded as they are.

pub mod config_reader;
pub mod encoding;
pub mod occurrence;
pub mod output;
pub mod url_builder;
pub mod url_laws;
pub mod utils;
