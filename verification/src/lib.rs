//! Dataset acquisition: the payload of a named dataset is decoded against a
//! declared schema and laid out as a column-oriented table.
//!
//! The steps, each in a module of its own:
//!
//! - [`schema`]: the fields of a dataset, each with a type and a nullability;
//! - [`fetch`]: what one attempt to retrieve a payload amounts to;
//! - [`source`]: the rows of a payload, read with `serde_json`;
//! - [`decode`]: the rules by which rows become records, or the payload is
//!   refused as a whole;
//! - [`table`]: the records laid out by column;
//! - [`registry`]: the known datasets by name, and loading one of them;
//! - [`generate`]: synthetic tables from a seed;
//! - [`datasets`]: the datasets that are known from the start.
//!
//! The library makes no network call: the caller seeks the payload and hands
//! over what came of it. What holds of the steps taken together is stated in
//! [`pipeline`].

pub mod datasets;
pub mod decode;
pub mod fetch;
pub mod generate;
pub mod json;
pub mod model;
pub mod number;
pub mod pipeline;
pub mod record;
pub mod registry;
pub mod schema;
pub mod source;
pub mod table;
