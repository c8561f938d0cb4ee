//! A viewer for delimited text tables: it selects the first or last rows of a
//! table, or one of its columns, and renders them raw or as an aligned table.

pub mod commands;
pub mod config;
pub mod error;
pub mod number;
pub mod options;
pub mod record;
pub mod render;
pub mod select;
pub mod view;
