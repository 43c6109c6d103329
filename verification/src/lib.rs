//! Equipment-import pipeline for an AV system design application.
//!
//! The crate decodes delimited-text and workbook spreadsheets into a uniform
//! row model, suggests how source columns map onto a fixed equipment schema,
//! and validates candidate rows against that schema.  Supporting modules hold
//! the application's smaller domain types: drawing signal-flow analysis,
//! page-layout arithmetic for document export, and database bookkeeping.

pub mod commands;
pub mod csv_parser;
pub mod database;
pub mod drawings;
pub mod export;
pub mod excel;
pub mod import;
pub mod mapper;
pub mod model;
pub mod numeric;
pub mod text;
pub mod validator;
