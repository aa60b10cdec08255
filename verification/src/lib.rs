//! Verified core of a plot operator that renders faceted scatter plots and
//! heatmaps from crosstab data: property handling, facet layout, schema
//! inspection, color decoding and the decisions of the rendering pipeline.

pub mod colors;
pub mod config;
pub mod facets;
pub mod text;
pub mod lookup;
pub mod properties;
pub mod schema;
pub mod stream;
pub mod task;
pub mod pipeline;
pub mod chunks;
pub mod rows;
pub mod result;
pub mod cli;
pub mod memory;
pub mod settings;
pub mod json;
