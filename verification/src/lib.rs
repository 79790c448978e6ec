//! Batch evaluators for two wildfire-behaviour quantities: crown fraction
//! burned (CFB) together with its prerequisite critical surface rate of
//! spread (RSO), and fire intensity (FI).
//!
//! Each evaluator takes parallel per-record input columns, rejects a batch
//! whose columns disagree in length, and otherwise maps a per-record
//! transform over the records in order. The numeric transforms themselves
//! work on IEEE double-precision values, which verified code cannot hold, so
//! the evaluators are generic over the record value type and receive the
//! transforms as function arguments; every structural promise (validation,
//! output length, per-record application in order) is proved here, and the
//! callers supply the arithmetic.

mod boundary;
mod cfb;
mod fi;
mod mode;

pub use boundary::absorb_failure;
pub use cfb::cfb_calc;
pub use cfb::cfb_lengths_ok;
pub use cfb::lemma_cfb_record_independence;
pub use cfb::lemma_rso_record_independence;
pub use fi::fi_calc;
pub use fi::lemma_fi_record_independence;
pub use mode::mode_from_option;
pub use mode::selects_rso;
pub use mode::Mode;
