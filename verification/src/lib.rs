//! Converts genomic interval records from the tab-delimited BED text format
//! into a columnar (Parquet) file with a fixed three-field schema.
//!
//! The pipeline is: parse the input bytes into interval records, map each
//! record into a canonical row, collect the rows in input order (dropping
//! malformed lines), and encode all rows into a single row group under the
//! declared schema. Reading the input file and writing the output file are
//! left to the caller; this crate works on in-memory bytes.

pub mod args;
pub mod bed_input;
pub mod collect;
pub mod parquet_out;
pub mod pipeline;
pub mod record;
