//! Accessor generation for record declarations: classification of field
//! types, the strategy tables that pick each accessor's shape, the assembly
//! of per-field method descriptors, and the synthesis of equality and
//! ordering from serial-numbered fields.

use vstd::prelude::*;

pub mod classify;
pub mod strategy;
pub mod record;
pub mod ordering;
pub mod laws;

verus! {

} // verus!
