//! The state machine and record filter of a terminal viewer for variant-call
//! (`vcf`) files: record decoding, the position filter, case-insensitive field
//! criteria, and the reaction of the file browser, the record viewer and the
//! filter dialogs to each key.

pub mod decimal;
pub mod filter;
pub mod record;
pub mod state;
pub mod text;
