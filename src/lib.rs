//! Integer kernel of a small statistics toolkit for benchmark samples.
//!
//! The decisions behind an empirical p-value and an interpolated percentile
//! are made here, over counts and indices, and proved: which tail factor
//! applies, the exact ratio that a p-value is, and which two order statistics
//! a percentile query interpolates between.
pub mod error;
pub mod tails;
pub mod pvalue;
pub mod rank;
