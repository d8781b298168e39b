//! Builds a unified catalog of add-on metadata out of several independent,
//! mutually incompatible upstream listing APIs.
//!
//! The crate holds the verified core of the pipeline: the canonical
//! `Addon`/`Version`/`Flavor`/`Source` model, the tolerant field-coercion
//! utilities for loosely typed upstream JSON, one mapping module per upstream
//! source, and the fan-out merge contract. Network transport and file output
//! live outside the library; it consumes already fetched response bodies as
//! plain JSON values and hands back canonical records.

pub mod catalog;
pub mod coerce;
pub mod curse;
pub mod digits;
pub mod error;
pub mod fields;
pub mod json;
pub mod model;
pub mod text;
pub mod townlong_yak;
pub mod tukui;
pub mod wowinterface;
