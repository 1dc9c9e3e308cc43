//! A client library for a document-oriented search engine: schema-less
//! documents of typed field values, JSON request bodies, and decoders that
//! turn the engine's JSON replies into typed responses or precise errors.
//!
//! The decoders, the document model and the request bodies are verified;
//! the HTTP transport around them lives outside the library.

pub mod client;
pub mod document;
pub mod http_utils;
pub mod json;
pub mod response;

pub use document::FieldValue;
pub use document::SolrDocument;
pub use document::SolrField;
pub use http_utils::HttpResponse;
pub use response::SolrError;
pub use response::SolrQueryResponse;
pub use response::SolrUpdateResponse;
