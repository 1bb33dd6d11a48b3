//! Instruction-format statistics for streams of 32-bit MIPS machine words.
//!
//! `decode` classifies each word as R-, I- or J-format and slices out its
//! fields; `stats` folds a whole stream into format, opcode and register
//! counts; `report` lays those counts out as labelled table rows, with
//! `labels` spelling register names and hexadecimal numbers; `input` turns raw
//! text lines into words; `config` reads the command-line flags that select a
//! report.
pub mod decode;
pub mod stats;
pub mod labels;
pub mod report;
pub mod input;
pub mod config;
