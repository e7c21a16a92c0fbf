//! The two brains (technical and fundamental), their consensus, and the
//! learning and reflection that adjust them.
pub mod ta_brain;
pub mod fund_brain;
pub mod consensus;
pub mod types;
pub mod bridge;
pub mod reflect;
pub mod learning;
pub mod feedback;
