//! Decoding of OpenTelemetry-Arrow metric batches into the OTLP metric tree.
//!
//! Record batches arrive as columnar tables; identifiers inside them are
//! delta-encoded. The library rebuilds absolute identifiers, joins the
//! auxiliary tables (attributes, exemplars, data points) against the main
//! metrics table and emits the hierarchical request.
pub mod arrays;
pub mod decode;
pub mod error;
pub mod otlp;
pub mod schema;
